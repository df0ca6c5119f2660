use ntfs::helpers::ReadOnlyCursor;
use ntfs::Ntfs;

/// The bytes that the hexadecimal text `lines` spells, two digits per byte.
fn bytes_from_hex(lines: &[&str]) -> Vec<u8> {
    let text: String = lines.concat();
    (0..text.len() / 2)
        .map(|i| u8::from_str_radix(&text[2 * i..2 * i + 2], 16).unwrap())
        .collect()
}

#[test]
fn upcase_index_oob() {
    // A boot sector with a valid signature whose sector size and sectors per cluster are both zero.
    let data = bytes_from_hex(&[
        "eb52904e544653202000000000000080208000ff0f0000000000002000000000",
        "000000ff07000000000000950000000800000078b7107ce0274a7f000000000e",
        "1fbe717cac22c0740b56b40ebb0700cd105eebf032e4cd16cd19ebfe54686973",
        "206973206e6f74206120626f6f7461626c65206469736b2e2050326561736520",
        "696e73657274206120626f6f7461626c6520666c6f70707920616e640d0a7072",
        "65737320616e79206b657920746f2074727920616761696e20616e79206b6579",
        "20746f2074727920616761696e202e2e2e200d0a000000000000000000000000",
        "0000000000000000000000000000000000000000000000000000000000000000",
        "0000000000000000000000000000000000000000000000000000000000000000",
        "0000000000000000000000000000000000000000000000000000000000000000",
        "0000000000000000000000000000000000000000000000000000000000000000",
        "000000ffffffffffff02b7000000000000000000000000000000000000000000",
        "0000000000000000000000000000000000000000000000000000000000000000",
        "0000000000010000000000000000000000000000000000000000000000000000",
        "0000000000000000000100000000000000008000000000000000000000000000",
        "00000000000000000000000000000000000000000000000000000000000055aa",
    ]);
    assert_eq!(data.len(), 512);
    let mut data = ReadOnlyCursor::new(&data);
    let mut fs = Ntfs::new(&mut data).unwrap();
    let _ = fs.read_upcase_table(&mut data);
}
