# ntfs

A low-level NTFS filesystem library, written in Verus: every function of the library states its
behaviour in `requires` / `ensures` contracts, and Verus proves the code against them.

The library reads an NTFS filesystem through a reader implementing `ntfs::io::Read` and
`ntfs::io::Seek` (`ntfs::helpers::ReadOnlyCursor` serves an image held in memory). It parses the
boot sector, looks up File Records in the Master File Table (with their Update Sequence fixup),
iterates attributes (also across Attribute Lists), reads resident and non-resident attribute values
(decoding Data Runs, including sparse ones), parses structured values ($STANDARD_INFORMATION,
$FILE_NAME, $OBJECT_ID, $VOLUME_NAME, $VOLUME_INFORMATION, $ATTRIBUTE_LIST, $INDEX_ROOT,
$INDEX_ALLOCATION), and walks B-tree indexes in order or searches them, comparing file names
case-insensitively through the filesystem's $UpCase table.

Among the properties proven: reading a non-resident value yields, byte for byte, the filesystem
bytes that its Data Runs map the value's offsets to (zeros within sparse Data Runs) wherever the
filesystem holds them, and a seek moves that mapping to the sought offset; the Update Sequence
fixup undoes the protection that writing a record applies; name comparisons through the $UpCase
table are total orders; index lookups only report entries whose key compares equal, and report
none only where the search path (through sub-nodes read from the $INDEX_ALLOCATION attribute)
holds no such entry; a File Record is read from where the Data Runs of the Master File Table's
$DATA attribute put its offset; seeks within a value whose Data Runs are valid succeed; reads stop
short only at the end of the buffer, of the value or of its Data Runs; after a resident Attribute
List, the attribute iterator returns the attributes that its entries refer to, entry after entry;
every entry that the index iterator returns is the next one of an in-order traversal of the B-tree,
with sub-nodes read from the $INDEX_ALLOCATION attribute.

Layout:

- `src/` — the verified library; `src/lib.rs` lists its modules.
- `tests/` — tests on synthetic filesystem images built by the tests themselves.
- `app/` — unverified glue: loading an image through `std::io::Read`, attaching a value to its
  filesystem reader to use it as a `std::io::Read + Seek`, and conversions of NTFS timestamps to
  and from `chrono` date/times.

Verify with Verus on `src/lib.rs`.
