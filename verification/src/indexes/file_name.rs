//! The Index Entry type of file name indexes (directories).
use vstd::prelude::*;

use core::cmp::Ordering;

use crate::error::Result;
use crate::index::{
    node_search_may_pass, search_may_pass, search_may_pass_below, spec_entry_has_key,
    spec_node_entry, spec_node_next_position, spec_node_next_start, spec_subnode, NtfsIndex,
    NtfsIndexFinder,
};
use crate::index_entry::{spec_entry_key, spec_entry_subnode_vcn, IndexNodeEntryRanges, NtfsIndexEntry};
use crate::indexes::{NtfsIndexEntryHasFileReference, NtfsIndexEntryType};
use crate::io::{Read, Seek};
use crate::ntfs::Ntfs;
use crate::string::{units_upcase_order, UpcaseOrd};
use crate::structured_values::NtfsFileName;
use crate::types::NtfsPosition;
use crate::utf16::{spec_encode_utf16, spec_utf16_units};

verus! {

/// Whether searching the entries of a file name node for `name` (compared case-insensitively by
/// the $UpCase table `table`) can pass over this node without a matching entry: from the entry at
/// `start` of the node bytes `data` (which lies at `position`) on, as long as names come before
/// `name`, the search reaches the end of the entries before `end`, or an entry that it continues
/// from in a sub-node (one without a key, or one whose name comes after `name`).
pub open spec fn spec_file_name_search_may_pass(
    data: Seq<u8>,
    start: usize,
    end: usize,
    position: NtfsPosition,
    name: Seq<char>,
    table: Seq<u16>,
) -> bool
    decreases data.len() - start,
{
    if start >= end {
        true
    } else {
        match spec_node_entry(data, start, position) {
            Err(_) => false,
            Ok(b) => {
                ||| spec_entry_key(b, position) is None
                ||| exists|k: NtfsFileName|
                    #[trigger] spec_entry_has_key(b, position, k) && units_upcase_order(
                        spec_encode_utf16(name),
                        spec_utf16_units(k.spec_name()),
                        table,
                    ) == Ordering::Less
                ||| (exists|k: NtfsFileName|
                    #[trigger] spec_entry_has_key(b, position, k) && units_upcase_order(
                        spec_encode_utf16(name),
                        spec_utf16_units(k.spec_name()),
                        table,
                    ) == Ordering::Greater) && start < spec_node_next_start(data, start, b) <= data.len()
                    && spec_file_name_search_may_pass(
                    data,
                    spec_node_next_start(data, start, b),
                    end,
                    spec_node_next_position(position, b),
                    name,
                    table,
                )
            },
        }
    }
}

/// A search with a comparison that orders names as `name` does by `table` passes over a node only
/// where a search for `name` can.
proof fn lemma_file_name_search_may_pass<F>(
    data: Seq<u8>,
    start: usize,
    end: usize,
    position: NtfsPosition,
    name: Seq<char>,
    table: Seq<u16>,
    compare: F,
) where F: Fn(&NtfsFileName) -> Ordering
    requires
        forall|k: &NtfsFileName, o: Ordering|
            #[trigger] compare.ensures((k,), o) ==> o == units_upcase_order(
                spec_encode_utf16(name),
                spec_utf16_units(k.spec_name()),
                table,
            ),
        node_search_may_pass::<NtfsFileNameIndex, F>(data, start, end, position, compare),
    ensures
        spec_file_name_search_may_pass(data, start, end, position, name, table),
    decreases data.len() - start,
{
    if start < end {
        if let Ok(b) = spec_node_entry(data, start, position) {
            let next = spec_node_next_start(data, start, b);
            if start < next <= data.len() && node_search_may_pass::<NtfsFileNameIndex, F>(
                data,
                next,
                end,
                spec_node_next_position(position, b),
                compare,
            ) {
                lemma_file_name_search_may_pass(
                    data,
                    next,
                    end,
                    spec_node_next_position(position, b),
                    name,
                    table,
                    compare,
                );
            }
        }
    }
}

/// Whether a search for `name` (compared case-insensitively by the $UpCase table `table`) that
/// stops at the Index Entry bytes `b` (at `position`) may end without a matching entry: the entry
/// has no sub-node, or a sub-node (read as [`spec_subnode`] says from the filesystem bytes
/// `source`) that such a search may pass, at most `fuel` levels further down.
pub open spec fn spec_file_name_search_passes_below<'n, 'f>(
    index: NtfsIndex<'n, 'f, NtfsFileNameIndex>,
    source: Seq<u8>,
    b: Seq<u8>,
    position: NtfsPosition,
    name: Seq<char>,
    table: Seq<u16>,
    fuel: int,
) -> bool
    decreases fuel, 0int,
{
    match spec_entry_subnode_vcn(b, position) {
        None => true,
        Some(Err(_)) => false,
        Some(Ok(vcn)) => fuel > 0 && exists|node: IndexNodeEntryRanges<NtfsFileNameIndex>|
            #[trigger] spec_subnode(index, source, vcn, node) && node.wf()
                && spec_file_name_search_passes(
                index,
                source,
                node.data@,
                node.range.start,
                node.range.end,
                node.position,
                name,
                table,
                fuel - 1,
            ),
    }
}

/// Whether a search for `name` (compared case-insensitively by the $UpCase table `table`) may
/// end without a matching entry, from the entry at `start` of the node bytes `data` (which lies
/// at `position`) on: as long as names come before `name`, the search moves on in the node; it may
/// end at the end of the entries before `end`, or at an entry that it continues from (one without
/// a key, or one whose name comes after `name`) as [`spec_file_name_search_passes_below`] says.
pub open spec fn spec_file_name_search_passes<'n, 'f>(
    index: NtfsIndex<'n, 'f, NtfsFileNameIndex>,
    source: Seq<u8>,
    data: Seq<u8>,
    start: usize,
    end: usize,
    position: NtfsPosition,
    name: Seq<char>,
    table: Seq<u16>,
    fuel: int,
) -> bool
    decreases fuel, 1int, data.len() - start,
{
    if start >= end {
        true
    } else {
        match spec_node_entry(data, start, position) {
            Err(_) => false,
            Ok(b) => {
                ||| (spec_entry_key(b, position) is None || exists|k: NtfsFileName|
                    #[trigger] spec_entry_has_key(b, position, k) && units_upcase_order(
                        spec_encode_utf16(name),
                        spec_utf16_units(k.spec_name()),
                        table,
                    ) == Ordering::Less) && spec_file_name_search_passes_below(
                    index,
                    source,
                    b,
                    position,
                    name,
                    table,
                    fuel,
                )
                ||| (exists|k: NtfsFileName|
                    #[trigger] spec_entry_has_key(b, position, k) && units_upcase_order(
                        spec_encode_utf16(name),
                        spec_utf16_units(k.spec_name()),
                        table,
                    ) == Ordering::Greater) && start < spec_node_next_start(data, start, b) <= data.len()
                    && spec_file_name_search_passes(
                    index,
                    source,
                    data,
                    spec_node_next_start(data, start, b),
                    end,
                    spec_node_next_position(position, b),
                    name,
                    table,
                    fuel,
                )
            },
        }
    }
}

/// A search with a comparison that orders names as `name` does by `table` stops at an entry and
/// passes below it only where a search for `name` does.
proof fn lemma_file_name_search_passes_below<'n, 'f, F>(
    index: NtfsIndex<'n, 'f, NtfsFileNameIndex>,
    source: Seq<u8>,
    b: Seq<u8>,
    position: NtfsPosition,
    name: Seq<char>,
    table: Seq<u16>,
    compare: F,
    fuel: int,
) where F: Fn(&NtfsFileName) -> Ordering
    requires
        forall|k: &NtfsFileName, o: Ordering|
            #[trigger] compare.ensures((k,), o) ==> o == units_upcase_order(
                spec_encode_utf16(name),
                spec_utf16_units(k.spec_name()),
                table,
            ),
        search_may_pass_below::<NtfsFileNameIndex, F>(index, source, b, position, compare, fuel),
    ensures
        spec_file_name_search_passes_below(index, source, b, position, name, table, fuel),
    decreases fuel, 0int,
{
    if let Some(Ok(vcn)) = spec_entry_subnode_vcn(b, position) {
        let node = choose|node: IndexNodeEntryRanges<NtfsFileNameIndex>|
            #[trigger] spec_subnode(index, source, vcn, node) && node.wf()
                && search_may_pass::<NtfsFileNameIndex, F>(
                index,
                source,
                node.data@,
                node.range.start,
                node.range.end,
                node.position,
                compare,
                fuel - 1,
            );
        lemma_file_name_search_passes(
            index,
            source,
            node.data@,
            node.range.start,
            node.range.end,
            node.position,
            name,
            table,
            compare,
            fuel - 1,
        );
        assert(spec_subnode(index, source, vcn, node));
    }
}

/// A search with a comparison that orders names as `name` does by `table` ends without a result
/// only where a search for `name` may.
proof fn lemma_file_name_search_passes<'n, 'f, F>(
    index: NtfsIndex<'n, 'f, NtfsFileNameIndex>,
    source: Seq<u8>,
    data: Seq<u8>,
    start: usize,
    end: usize,
    position: NtfsPosition,
    name: Seq<char>,
    table: Seq<u16>,
    compare: F,
    fuel: int,
) where F: Fn(&NtfsFileName) -> Ordering
    requires
        forall|k: &NtfsFileName, o: Ordering|
            #[trigger] compare.ensures((k,), o) ==> o == units_upcase_order(
                spec_encode_utf16(name),
                spec_utf16_units(k.spec_name()),
                table,
            ),
        search_may_pass::<NtfsFileNameIndex, F>(index, source, data, start, end, position, compare, fuel),
    ensures
        spec_file_name_search_passes(index, source, data, start, end, position, name, table, fuel),
    decreases fuel, 1int, data.len() - start,
{
    if start < end {
        if let Ok(b) = spec_node_entry(data, start, position) {
            if search_may_pass_below::<NtfsFileNameIndex, F>(index, source, b, position, compare, fuel) {
                lemma_file_name_search_passes_below(index, source, b, position, name, table, compare, fuel);
            }
            let next = spec_node_next_start(data, start, b);
            if start < next <= data.len() && search_may_pass::<NtfsFileNameIndex, F>(
                index,
                source,
                data,
                next,
                end,
                spec_node_next_position(position, b),
                compare,
                fuel,
            ) {
                lemma_file_name_search_passes(
                    index,
                    source,
                    data,
                    next,
                    end,
                    spec_node_next_position(position, b),
                    name,
                    table,
                    compare,
                    fuel,
                );
            }
        }
    }
}

/// Defines the [`NtfsIndexEntryType`] for filename indexes (commonly known as "directories").
#[derive(Clone, Copy, Debug)]
pub struct NtfsFileNameIndex {}

impl NtfsFileNameIndex {
    /// Finds a file in a filename index by name and returns the [`NtfsIndexEntry`] (if any).
    /// The name is compared case-insensitively based on the filesystem's $UpCase table,
    /// which [`Ntfs::read_upcase_table`] must have read.
    pub fn find<'a, 'n, T>(
        index_finder: &'a mut NtfsIndexFinder<'_, '_, '_, Self>,
        ntfs: &'n Ntfs,
        fs: &mut T,
        name: &str,
    ) -> (r: Option<Result<NtfsIndexEntry<'a, Self>>>) where T: Read + Seek
        requires
            ntfs.spec_has_upcase_table(),
        ensures
            final(fs).source() == old(fs).source(),
            r matches Some(Ok(e)) ==> exists|k: NtfsFileName|
                #![trigger spec_entry_has_key(e.spec_bytes(), e.spec_position(), k)]
                spec_entry_has_key(e.spec_bytes(), e.spec_position(), k) && units_upcase_order(
                    spec_encode_utf16(name@),
                    spec_utf16_units(k.spec_name()),
                    ntfs.spec_upcase_table(),
                ) == Ordering::Equal,
            r is None ==> spec_file_name_search_may_pass(
                old(index_finder).spec_index().spec_root_entries(),
                0,
                old(index_finder).spec_index().spec_root_end(),
                old(index_finder).spec_index().spec_root_entries_position(),
                name@,
                ntfs.spec_upcase_table(),
            ),
            r is None ==> exists|fuel: int|
                0 <= fuel && #[trigger] spec_file_name_search_passes(
                    old(index_finder).spec_index(),
                    old(fs).source(),
                    old(index_finder).spec_index().spec_root_entries(),
                    0,
                    old(index_finder).spec_index().spec_root_end(),
                    old(index_finder).spec_index().spec_root_entries_position(),
                    name@,
                    ntfs.spec_upcase_table(),
                    fuel,
                ),
    {
        let compare = |file_name: &NtfsFileName| -> (o: Ordering)
            requires
                ntfs.spec_has_upcase_table(),
            ensures
                o == units_upcase_order(
                    spec_encode_utf16(name@),
                    spec_utf16_units(file_name.spec_name()),
                    ntfs.spec_upcase_table(),
                ),
            { name.upcase_cmp(ntfs, &file_name.name()) };
        let r = index_finder.find(fs, compare);
        proof {
            if r is None {
                lemma_file_name_search_may_pass(
                    old(index_finder).spec_index().spec_root_entries(),
                    0,
                    old(index_finder).spec_index().spec_root_end(),
                    old(index_finder).spec_index().spec_root_entries_position(),
                    name@,
                    ntfs.spec_upcase_table(),
                    compare,
                );
                let fuel = choose|fuel: int|
                    0 <= fuel && #[trigger] search_may_pass::<NtfsFileNameIndex, _>(
                        old(index_finder).spec_index(),
                        old(fs).source(),
                        old(index_finder).spec_index().spec_root_entries(),
                        0,
                        old(index_finder).spec_index().spec_root_end(),
                        old(index_finder).spec_index().spec_root_entries_position(),
                        compare,
                        fuel,
                    );
                lemma_file_name_search_passes(
                    old(index_finder).spec_index(),
                    old(fs).source(),
                    old(index_finder).spec_index().spec_root_entries(),
                    0,
                    old(index_finder).spec_index().spec_root_end(),
                    old(index_finder).spec_index().spec_root_entries_position(),
                    name@,
                    ntfs.spec_upcase_table(),
                    compare,
                    fuel,
                );
            }
            if let Some(Ok(e)) = &r {
                let k = choose|k: NtfsFileName|
                    #![trigger spec_entry_has_key(e.spec_bytes(), e.spec_position(), k)]
                    spec_entry_has_key(e.spec_bytes(), e.spec_position(), k) && compare.ensures(
                        (&k,),
                        Ordering::Equal,
                    );
                assert(spec_entry_has_key(e.spec_bytes(), e.spec_position(), k));
            }
        }
        r
    }
}

impl NtfsIndexEntryType for NtfsFileNameIndex {
    type KeyType = NtfsFileName;
}

impl NtfsIndexEntryHasFileReference for NtfsFileNameIndex {

}

} // verus!
