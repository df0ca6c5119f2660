//! NTFS B-tree indexes: creating them from their attributes, iterating over them in order,
//! and finding an entry.
use vstd::prelude::*;

use core::cmp::Ordering;
use core::marker::PhantomData;

use crate::attribute::{
    spec_non_resident_value_of, spec_attribute_length_check, spec_attribute_type_from_code, spec_resident_value_bytes,
    spec_resident_value_readable, spec_type_code_at, NtfsAttributeItem, NtfsAttributeType,
};
use crate::error::{NtfsError, Result};
use crate::file::NtfsFile;
use crate::helpers::spec_u32_le;
use crate::index_entry::{
    spec_entry_has_subnode, spec_entry_is_last, spec_entry_key, spec_entry_length,
    spec_entry_subnode_vcn, spec_index_entry,
    IndexEntryRange, IndexNodeEntryRanges, NtfsIndexEntry,
};
use crate::attribute_value::{spec_read_bytes_after, NtfsAttributeValue};
use crate::index_record::{
    spec_index_record, spec_record_entries_end, spec_record_entries_start, NtfsIndexRecord,
};
use crate::indexes::{NtfsFileNameIndex, NtfsIndexEntryKey, NtfsIndexEntryType};
use crate::io::{Read, Seek};
use crate::structured_values::index_root::{
    spec_index_root, spec_root_entries, spec_root_entries_start, INDEX_ROOT_RECORD_SIZE_OFFSET,
};
use crate::structured_values::{NtfsIndexAllocation, NtfsIndexRoot, NtfsStructuredValue};
use crate::types::{NtfsPosition, Vcn};

verus! {

/// The sum, over the node iterators `s`, of the bytes each has left to iterate plus one.
/// Advancing the last iterator or dropping it makes it smaller.
pub open spec fn spec_levels_left<E: NtfsIndexEntryType>(s: Seq<IndexNodeEntryRanges<E>>) -> nat
    decreases s.len(),
{
    if s.len() == 0 {
        0
    } else {
        spec_levels_left(s.drop_last()) + s.last().spec_remaining() + 1
    }
}

/// Pushing a node iterator adds what it has left to iterate, plus one.
proof fn lemma_levels_left_push<E: NtfsIndexEntryType>(s: Seq<IndexNodeEntryRanges<E>>, x: IndexNodeEntryRanges<E>)
    ensures
        spec_levels_left(s.push(x)) == spec_levels_left(s) + x.spec_remaining() + 1,
{
    assert(s.push(x).drop_last() =~= s);
}

/// An Index Entry parsed from the node bytes `data` at `start` is the same entry when parsed from
/// exactly its own bytes.
proof fn lemma_entry_own_bytes(data: Seq<u8>, start: int, b: Seq<u8>, position: NtfsPosition)
    requires
        0 <= start <= data.len(),
        spec_index_entry(data.subrange(start, data.len() as int), position) == Ok::<Seq<u8>, NtfsError>(b),
    ensures
        start + b.len() <= data.len(),
        spec_index_entry(data.subrange(start, start + b.len()), position) == Ok::<Seq<u8>, NtfsError>(b),
{
    let s1 = data.subrange(start, data.len() as int);
    let s2 = data.subrange(start, start + b.len());
    assert(s2 =~= b);
    assert(s2[8] == s1[8] && s2[9] == s1[9]);
    assert(spec_entry_length(s2) == spec_entry_length(s1));
    assert(s2.subrange(0, spec_entry_length(s2) as int) =~= s2);
}

/// Whether `value` may be the value of the $INDEX_ALLOCATION attribute of `index`: the value of
/// its non-resident attribute, or a value continued through an Attribute List.
pub open spec fn spec_allocation_value_of<'n, 'f, E: NtfsIndexEntryType>(
    index: NtfsIndex<'n, 'f, E>,
    value: NtfsAttributeValue<'n, 'f>,
) -> bool {
    match index.spec_allocation_item() {
        Some(item) => if item.spec_has_list_entries() {
            value is AttributeListNonResident
        } else {
            spec_non_resident_value_of(item.spec_holding_file(), item.spec_attribute_offset(), value)
        },
        None => false,
    }
}

/// The cluster size of the filesystem that a non-resident value belongs to.
pub open spec fn spec_value_cluster_size(value: NtfsAttributeValue) -> u32 {
    match value {
        NtfsAttributeValue::NonResident(v) => v.spec_ntfs().spec_cluster_size(),
        NtfsAttributeValue::AttributeListNonResident(v) => v.spec_ntfs().spec_cluster_size(),
        NtfsAttributeValue::Resident(_) => 0,
    }
}

/// Whether `node` iterates the entries of the Index Record whose bytes before the fixup are
/// `raw` and which lies at `position`.
pub open spec fn spec_record_node<E: NtfsIndexEntryType>(
    raw: Seq<u8>,
    position: NtfsPosition,
    node: IndexNodeEntryRanges<E>,
) -> bool {
    let d = node.data@;
    let start = spec_record_entries_start(d);
    let end = spec_record_entries_end(d);
    &&& spec_index_record(raw, position) == Ok::<Seq<u8>, NtfsError>(d)
    &&& node.range.end == end
    &&& node.range.start == if start <= end {
        start
    } else {
        end
    }
    &&& node.position == position.spec_add(start as u64)
}

/// Whether `node` may iterate the sub-node at `vcn` of `index` on a filesystem whose bytes are
/// `source`: the Index Record that the value of the $INDEX_ALLOCATION attribute holds from byte
/// `vcn` times the cluster size on (see [`spec_read_bytes_after`]).
pub open spec fn spec_subnode<'n, 'f, E: NtfsIndexEntryType>(
    index: NtfsIndex<'n, 'f, E>,
    source: Seq<u8>,
    vcn: Vcn,
    node: IndexNodeEntryRanges<E>,
) -> bool {
    exists|raw: Seq<u8>, position: NtfsPosition, value: NtfsAttributeValue<'n, 'f>|
        #![trigger spec_record_node(raw, position, node), spec_allocation_value_of(index, value)]
        {
            &&& spec_allocation_value_of(index, value)
            &&& raw.len() == index.spec_index_record_size()
            &&& spec_record_node(raw, position, node)
            &&& spec_read_bytes_after(
                value,
                source,
                raw,
                vcn.0 * spec_value_cluster_size(value),
                index.spec_index_record_size() as int,
            )
        }
}

/// How many further descents into sub-nodes a search may still make: unknown (`None`) before the
/// first descent, then bounded by the number of Index Records that the allocation holds.
pub open spec fn spec_descents_left(budget: Option<u64>) -> nat {
    match budget {
        None => 0x1_0000_0000_0000_0000,
        Some(b) => b as nat,
    }
}

/// Helper structure to iterate over all entries of an index or find a specific one.
///
/// The `E` type parameter of [`NtfsIndexEntryType`] specifies the type of the index entries.
/// The most common one is [`crate::indexes::NtfsFileNameIndex`] for file name indexes,
/// commonly known as "directories".
/// Check out [`crate::file::NtfsFile::directory_index`] to return an [`NtfsIndex`] object for a
/// directory without any hassles.
#[derive(Debug)]
pub struct NtfsIndex<'n, 'f, E> where E: NtfsIndexEntryType {
    index_record_size: u32,
    index_root_entry_ranges: IndexNodeEntryRanges<E>,
    index_root_position: NtfsPosition,
    index_allocation_item: Option<NtfsAttributeItem<'n, 'f>>,
    entry_type: PhantomData<E>,
}

/// Whether the attribute that `item` refers to has a header within its File Record and a type
/// code that decodes to `ty`.
pub open spec fn spec_item_is_of_type(item: NtfsAttributeItem, ty: NtfsAttributeType) -> bool {
    let file = item.spec_holding_file();
    let offset = item.spec_attribute_offset();
    &&& spec_attribute_length_check(
        file.spec_data(),
        offset as int,
        file.spec_position().spec_add(offset as u64),
    ) is Ok
    &&& spec_attribute_type_from_code(spec_type_code_at(file.spec_data(), offset)) == Some(ty)
}

/// The error for an attribute that `item` refers to whose header lies within its File Record but
/// whose type code decodes to another type than `ty`; `None` otherwise.
pub open spec fn spec_item_type_error(item: NtfsAttributeItem, ty: NtfsAttributeType) -> Option<NtfsError> {
    let file = item.spec_holding_file();
    let offset = item.spec_attribute_offset();
    let position = file.spec_position().spec_add(offset as u64);
    if spec_attribute_length_check(file.spec_data(), offset as int, position) is Ok {
        match spec_attribute_type_from_code(spec_type_code_at(file.spec_data(), offset)) {
            Some(t) => if t != ty {
                Some(NtfsError::AttributeOfDifferentType { position, expected: ty, actual: t })
            } else {
                None
            },
            None => None,
        }
    } else {
        None
    }
}

/// The bytes of the resident value of the attribute that `item` refers to.
pub open spec fn spec_item_value(item: NtfsAttributeItem) -> Seq<u8> {
    spec_resident_value_bytes(item.spec_holding_file().spec_data(), item.spec_attribute_offset() as int)
}

/// The position of the resident value of the attribute that `item` refers to.
pub open spec fn spec_item_value_position(item: NtfsAttributeItem) -> NtfsPosition {
    item.spec_holding_file().spec_position().spec_add(item.spec_attribute_offset() as u64).spec_add(0)
}

/// Whether `item` refers to a resident $INDEX_ROOT attribute whose value is a valid Index Root.
pub open spec fn spec_item_is_index_root(item: NtfsAttributeItem) -> bool {
    &&& spec_item_is_of_type(item, NtfsAttributeType::IndexRoot)
    &&& spec_resident_value_readable(item.spec_holding_file().spec_data(), item.spec_attribute_offset())
    &&& spec_index_root(spec_item_value(item), spec_item_value_position(item)) is Ok
}

impl<'n, 'f, E> NtfsIndex<'n, 'f, E> where E: NtfsIndexEntryType {
    /// The iteration over the Index Root entries covers all of their bytes.
    #[verifier::type_invariant]
    spec fn index_inv(self) -> bool {
        &&& self.index_root_entry_ranges.wf()
        &&& self.index_root_entry_ranges.range.start == 0
        &&& self.index_root_entry_ranges.range.end == self.index_root_entry_ranges.data@.len()
    }

    /// The size of a single Index Record of this index, in bytes.
    pub closed spec fn spec_index_record_size(&self) -> u32 {
        self.index_record_size
    }

    /// The bytes of the entries of the Index Root (the top-level node).
    pub closed spec fn spec_root_entries(&self) -> Seq<u8> {
        self.index_root_entry_ranges.data@
    }

    /// Where the entries of the Index Root end.
    pub closed spec fn spec_root_end(&self) -> usize {
        self.index_root_entry_ranges.range.end
    }

    /// The absolute position of the first entry of the Index Root.
    pub closed spec fn spec_root_entries_position(&self) -> NtfsPosition {
        self.index_root_entry_ranges.position
    }

    /// The absolute position of the Index Root.
    pub closed spec fn spec_root_position(&self) -> NtfsPosition {
        self.index_root_position
    }

    /// The $INDEX_ALLOCATION attribute holding the sub-nodes, if any.
    pub closed spec fn spec_allocation_item(&self) -> Option<NtfsAttributeItem<'n, 'f>> {
        self.index_allocation_item
    }

    /// Creates a new [`NtfsIndex`] object from a previously looked up [`NtfsIndexRoot`] attribute
    /// (contained in an [`NtfsAttributeItem`]) and, in case of a large index, a matching
    /// [`NtfsIndexAllocation`] attribute (also contained in an [`NtfsAttributeItem`]).
    ///
    /// If you just want to look up files in a directory, check out
    /// [`crate::file::NtfsFile::directory_index`], which looks up the correct [`NtfsIndexRoot`] and
    /// [`NtfsIndexAllocation`] attributes for you.
    pub fn new(
        index_root_item: NtfsAttributeItem<'n, 'f>,
        index_allocation_item: Option<NtfsAttributeItem<'n, 'f>>,
    ) -> (r: Result<Self>)
        ensures
            r matches Ok(ix) ==> {
                let file = index_root_item.spec_holding_file();
                let offset = index_root_item.spec_attribute_offset() as int;
                let root = spec_resident_value_bytes(file.spec_data(), offset);
                let root_position = file.spec_position().spec_add(offset as u64).spec_add(0);
                &&& spec_index_root(root, root_position) is Ok
                &&& ix.spec_root_entries() == spec_root_entries(root)
                &&& ix.spec_root_entries_position() == root_position.spec_add(
                    spec_root_entries_start(root) as u64,
                )
                &&& ix.spec_root_position() == root_position
                &&& ix.spec_index_record_size() == spec_u32_le(root, INDEX_ROOT_RECORD_SIZE_OFFSET as int)
                &&& ix.spec_allocation_item() == index_allocation_item
                &&& root[28] & 0x01 != 0 ==> index_allocation_item is Some
            },
            r is Ok <==> {
                &&& spec_item_is_index_root(index_root_item)
                &&& index_allocation_item matches Some(item) ==> spec_item_is_of_type(
                    item,
                    NtfsAttributeType::IndexAllocation,
                )
                &&& index_allocation_item is None ==> spec_item_value(index_root_item)[28] & 0x01
                    == 0
            },
            spec_item_is_index_root(index_root_item) && index_allocation_item is None
                && spec_item_value(index_root_item)[28] & 0x01 != 0 ==> r == Err::<Self, NtfsError>(
                NtfsError::MissingIndexAllocation {
                    position: spec_item_value_position(index_root_item),
                },
            ),
            spec_item_type_error(index_root_item, NtfsAttributeType::IndexRoot) matches Some(e) ==> r
                == Err::<Self, NtfsError>(e),
            spec_item_is_index_root(index_root_item) ==> match index_allocation_item {
                Some(item) => spec_item_type_error(item, NtfsAttributeType::IndexAllocation) matches Some(
                    e,
                ) ==> r == Err::<Self, NtfsError>(e),
                None => true,
            },
    {
        let index_root_attribute = match index_root_item.to_attribute() {
            Ok(attribute) => attribute,
            Err(e) => return Err(e),
        };
        match index_root_attribute.ensure_ty(NtfsAttributeType::IndexRoot) {
            Ok(()) => {},
            Err(e) => return Err(e),
        }
        let index_root = match index_root_attribute.resident_structured_value::<NtfsIndexRoot>() {
            Ok(index_root) => index_root,
            Err(e) => return Err(e),
        };
        match &index_allocation_item {
            Some(item) => {
                let attribute = match item.to_attribute() {
                    Ok(attribute) => attribute,
                    Err(e) => return Err(e),
                };
                match attribute.ensure_ty(NtfsAttributeType::IndexAllocation) {
                    Ok(()) => {},
                    Err(e) => return Err(e),
                }
            },
            None => {
                if index_root.is_large_index() {
                    return Err(NtfsError::MissingIndexAllocation { position: index_root.position() });
                }
            },
        }
        let index_record_size = index_root.index_record_size();
        let index_root_entry_ranges = index_root.entry_ranges();
        let index_root_position = index_root.position();
        Ok(Self {
            index_record_size,
            index_root_entry_ranges,
            index_root_position,
            index_allocation_item,
            entry_type: PhantomData,
        })
    }

    /// Returns an [`NtfsIndexEntries`] iterator to perform an in-order traversal of this index.
    pub fn entries<'i>(&'i self) -> (r: NtfsIndexEntries<'n, 'f, 'i, E>)
        ensures
            r.wf(),
            r.spec_index() == *self,
            r.spec_depth() == 1,
            r.spec_node().data@ == self.spec_root_entries(),
            r.spec_node().range.start == 0,
            r.spec_node().range.end == self.spec_root_end(),
            r.spec_node().position == self.spec_root_entries_position(),
            r.spec_following().len() == 0,
    {
        proof {
            use_type_invariant(self);
        }
        let mut inner_iterators: Vec<IndexNodeEntryRanges<E>> = Vec::new();
        inner_iterators.push(self.index_root_entry_ranges.clone());
        NtfsIndexEntries { index: self, inner_iterators, following_entries: Vec::new() }
    }

    /// Returns an [`NtfsIndexFinder`] structure to efficiently find an entry in this index.
    pub fn finder<'i>(&'i self) -> (r: NtfsIndexFinder<'n, 'f, 'i, E>)
        ensures
            r.spec_index() == *self,
    {
        proof {
            use_type_invariant(self);
        }
        NtfsIndexFinder { index: self, inner_iterator: self.index_root_entry_ranges.clone() }
    }

    /// Reads the sub-node at `vcn` from the $INDEX_ALLOCATION attribute and returns an iterator over
    /// its entries, after taking one descent off `budget` (which is set up at the first descent from the
    /// number of Index Records the attribute holds).
    fn read_subnode<T>(&self, fs: &mut T, vcn: Vcn, budget: &mut Option<u64>) -> (r: Result<IndexNodeEntryRanges<E>>) where
        T: Read + Seek,
        ensures
            final(fs).source() == old(fs).source(),
            r matches Ok(it) ==> it.wf() && spec_descents_left(*final(budget)) < spec_descents_left(
                *old(budget),
            ),
            r matches Ok(it) ==> spec_subnode(*self, old(fs).source(), vcn, it),
            self.spec_allocation_item() is None ==> r == Err::<IndexNodeEntryRanges<E>, NtfsError>(
                NtfsError::MissingIndexAllocation { position: self.spec_root_position() },
            ),
    {
        let index_allocation_item = match &self.index_allocation_item {
            Some(item) => item,
            None => return Err(NtfsError::MissingIndexAllocation { position: self.index_root_position }),
        };
        let index_allocation_attribute = match index_allocation_item.to_attribute() {
            Ok(attribute) => attribute,
            Err(e) => return Err(e),
        };
        let index_allocation = match index_allocation_attribute.structured_value::<_, NtfsIndexAllocation>(fs) {
            Ok(index_allocation) => index_allocation,
            Err(e) => return Err(e),
        };
        let ghost src = fs.source();
        let ghost value = choose|v: NtfsAttributeValue<'n, 'f>|
            {
                &&& NtfsIndexAllocation::spec_from_value(v, src, Ok::<NtfsIndexAllocation, NtfsError>(index_allocation))
                &&& index_allocation_attribute.spec_has_list_entries() ==> v is AttributeListNonResident
                &&& !index_allocation_attribute.spec_has_list_entries()
                    && index_allocation_attribute.spec_is_resident() ==> v is Resident
                &&& !index_allocation_attribute.spec_has_list_entries()
                    && !index_allocation_attribute.spec_is_resident() ==> spec_non_resident_value_of(
                    index_allocation_attribute.spec_file(),
                    index_allocation_attribute.spec_offset(),
                    v,
                )
            };
        let subnode = match index_allocation.record_from_vcn(fs, self.index_record_size, vcn) {
            Ok(subnode) => subnode,
            Err(e) => return Err(e),
        };
        let ghost raw = choose|raw: Seq<u8>|
            {
                &&& raw.len() == self.index_record_size
                &&& spec_index_record(raw, subnode.spec_position()) == Ok::<Seq<u8>, NtfsError>(
                    subnode.spec_data(),
                )
                &&& spec_read_bytes_after(
                    index_allocation.spec_value(),
                    src,
                    raw,
                    vcn.0 * index_allocation.spec_ntfs().spec_cluster_size(),
                    self.index_record_size as int,
                )
            };
        // A B-tree cannot descend more often than it has sub-nodes; more descents mean a cycle.
        let left = match *budget {
            Some(left) => left,
            None => index_allocation.record_count(self.index_record_size),
        };
        if left == 0 {
            return Err(
                NtfsError::VcnOutOfBoundsInIndexAllocation { position: index_allocation.data_position(), vcn },
            );
        }
        *budget = Some(left - 1);
        let ghost position = subnode.spec_position();
        let it = subnode.into_entry_ranges();
        proof {
            assert(spec_record_node(raw, position, it));
            assert(spec_allocation_value_of(*self, value));
        }
        Ok(it)
    }
}

/// Whether `after` is the node iterator `node` moved past its next entry `b`: past the node's end
/// for the last entry.
pub open spec fn spec_node_advanced<E: NtfsIndexEntryType>(
    node: IndexNodeEntryRanges<E>,
    b: Seq<u8>,
    after: IndexNodeEntryRanges<E>,
) -> bool {
    &&& after.data@ == node.data@
    &&& after.range.end == node.range.end
    &&& if spec_entry_is_last(b) {
        after.range.start == node.data@.len() && after.position == node.position
    } else {
        after.range.start == node.range.start + b.len() && after.position == node.position.spec_add(
            b.len() as u64,
        )
    }
}

/// Whether `following` marks what comes after the sub-node of the next entry `b` of `node`: that
/// entry itself, unless it is the empty last entry.
pub open spec fn spec_following_of<E: NtfsIndexEntryType>(
    node: IndexNodeEntryRanges<E>,
    b: Seq<u8>,
    following: Option<IndexEntryRange<E>>,
) -> bool {
    if spec_entry_is_last(b) {
        following is None
    } else {
        following matches Some(er) && er.range.start == node.range.start && er.range.end
            == node.range.start + b.len() && er.position == node.position
    }
}

/// One step of the in-order traversal of the B-tree of `index` (on a filesystem whose bytes are
/// `source`), from the path of node iterators `nodes` with the entries `following` that come after
/// their sub-nodes: whether it returns the entry `e` and leaves `nodes_after` and
/// `following_after`, within `fuel` moves.
///
/// The next entry of the deepest node is returned where it has no sub-node; an entry with a
/// sub-node first descends into that sub-node (an Index Record of the $INDEX_ALLOCATION attribute,
/// see [`spec_subnode`]) and comes after it; a node without entries left returns to its parent,
/// continuing with the entry whose sub-node it was. The empty last entry of a node is never
/// returned.
#[verifier::opaque]
pub open spec fn spec_traversal_step<'n, 'f, E: NtfsIndexEntryType>(
    index: NtfsIndex<'n, 'f, E>,
    source: Seq<u8>,
    nodes: Seq<IndexNodeEntryRanges<E>>,
    following: Seq<Option<IndexEntryRange<E>>>,
    e: Seq<u8>,
    nodes_after: Seq<IndexNodeEntryRanges<E>>,
    following_after: Seq<Option<IndexEntryRange<E>>>,
    fuel: nat,
) -> bool
    decreases fuel,
{
    if fuel == 0 || nodes.len() == 0 || following.len() + 1 != nodes.len() {
        false
    } else {
        let node = nodes.last();
        if node.range.start < node.range.end {
            match spec_node_entry(node.data@, node.range.start, node.position) {
                Err(_) => false,
                Ok(b) => match spec_entry_subnode_vcn(b, node.position) {
                    Some(Ok(vcn)) => exists|
                        advanced: IndexNodeEntryRanges<E>,
                        subnode: IndexNodeEntryRanges<E>,
                        f: Option<IndexEntryRange<E>>,
                    |
                        #![trigger spec_node_advanced(node, b, advanced), spec_subnode(index, source, vcn, subnode), spec_following_of(node, b, f)]
                        {
                            &&& spec_node_advanced(node, b, advanced)
                            &&& spec_subnode(index, source, vcn, subnode)
                            &&& spec_following_of(node, b, f)
                            &&& spec_traversal_step(
                                index,
                                source,
                                nodes.drop_last().push(advanced).push(subnode),
                                following.push(f),
                                e,
                                nodes_after,
                                following_after,
                                (fuel - 1) as nat,
                            )
                        },
                    Some(Err(_)) => false,
                    None => if !spec_entry_is_last(b) {
                        &&& e == b
                        &&& nodes_after.len() == nodes.len()
                        &&& nodes_after.drop_last() == nodes.drop_last()
                        &&& spec_node_advanced(node, b, nodes_after.last())
                        &&& following_after == following
                    } else {
                        exists|advanced: IndexNodeEntryRanges<E>|
                            #![trigger spec_node_advanced(node, b, advanced)]
                            {
                                &&& spec_node_advanced(node, b, advanced)
                                &&& spec_traversal_step(
                                    index,
                                    source,
                                    nodes.drop_last().push(advanced),
                                    following,
                                    e,
                                    nodes_after,
                                    following_after,
                                    (fuel - 1) as nat,
                                )
                            }
                    },
                },
            }
        } else if nodes.len() < 2 {
            false
        } else {
            match following.last() {
                Some(er) => {
                    let parent = nodes[nodes.len() - 2];
                    &&& er.range.start <= er.range.end <= parent.data@.len()
                    &&& spec_index_entry(
                        parent.data@.subrange(er.range.start as int, er.range.end as int),
                        er.position,
                    ) == Ok::<Seq<u8>, NtfsError>(e)
                    &&& nodes_after == nodes.drop_last()
                    &&& following_after == following.drop_last()
                },
                None => spec_traversal_step(
                    index,
                    source,
                    nodes.drop_last(),
                    following.drop_last(),
                    e,
                    nodes_after,
                    following_after,
                    (fuel - 1) as nat,
                ),
            }
        }
    }
}

/// Whether every step of the traversal from the path `nodes2` (with `following2`) is, one move
/// later, a step from the path `nodes` (with `following`).
pub open spec fn spec_step_continues<'n, 'f, E: NtfsIndexEntryType>(
    index: NtfsIndex<'n, 'f, E>,
    source: Seq<u8>,
    nodes: Seq<IndexNodeEntryRanges<E>>,
    following: Seq<Option<IndexEntryRange<E>>>,
    nodes2: Seq<IndexNodeEntryRanges<E>>,
    following2: Seq<Option<IndexEntryRange<E>>>,
    moves: nat,
) -> bool {
    forall|e: Seq<u8>, na: Seq<IndexNodeEntryRanges<E>>, fa: Seq<Option<IndexEntryRange<E>>>, fuel: nat|
        #[trigger] spec_traversal_step(index, source, nodes2, following2, e, na, fa, fuel)
            ==> spec_traversal_step(index, source, nodes, following, e, na, fa, (fuel + moves) as nat)
}

/// Descending into the sub-node of the next entry `b` is one move of the traversal.
#[verifier::spinoff_prover]
proof fn lemma_step_descend<'n, 'f, E: NtfsIndexEntryType>(
    index: NtfsIndex<'n, 'f, E>,
    source: Seq<u8>,
    nodes: Seq<IndexNodeEntryRanges<E>>,
    following: Seq<Option<IndexEntryRange<E>>>,
    b: Seq<u8>,
    vcn: Vcn,
    advanced: IndexNodeEntryRanges<E>,
    subnode: IndexNodeEntryRanges<E>,
    f: Option<IndexEntryRange<E>>,
)
    requires
        nodes.len() > 0,
        following.len() + 1 == nodes.len(),
        nodes.last().range.start < nodes.last().range.end,
        spec_node_entry(nodes.last().data@, nodes.last().range.start, nodes.last().position) == Ok::<Seq<u8>, NtfsError>(b),
        spec_entry_subnode_vcn(b, nodes.last().position) == Some(Ok::<Vcn, NtfsError>(vcn)),
        spec_node_advanced(nodes.last(), b, advanced),
        spec_subnode(index, source, vcn, subnode),
        spec_following_of(nodes.last(), b, f),
    ensures
        spec_step_continues(
            index,
            source,
            nodes,
            following,
            nodes.drop_last().push(advanced).push(subnode),
            following.push(f),
            1,
        ),
{
    let nodes2 = nodes.drop_last().push(advanced).push(subnode);
    let following2 = following.push(f);
    assert forall|e: Seq<u8>, na: Seq<IndexNodeEntryRanges<E>>, fa: Seq<Option<IndexEntryRange<E>>>, fuel: nat|
        #[trigger] spec_traversal_step(index, source, nodes2, following2, e, na, fa, fuel) implies spec_traversal_step(
            index,
            source,
            nodes,
            following,
            e,
            na,
            fa,
            (fuel + 1) as nat,
        ) by {
        reveal_with_fuel(spec_traversal_step, 1);
        let node = nodes.last();
        assert(((fuel + 1) as nat - 1) as nat == fuel);
        assert(spec_node_entry(node.data@, node.range.start, node.position)->Ok_0 == b);
        assert(spec_entry_subnode_vcn(b, node.position)->Some_0->Ok_0 == vcn);
        assert(exists|
            a: IndexNodeEntryRanges<E>,
            sn: IndexNodeEntryRanges<E>,
            ff: Option<IndexEntryRange<E>>,
        |
            #![trigger spec_node_advanced(node, b, a), spec_subnode(index, source, vcn, sn), spec_following_of(node, b, ff)]
            {
                &&& spec_node_advanced(node, b, a)
                &&& spec_subnode(index, source, vcn, sn)
                &&& spec_following_of(node, b, ff)
                &&& spec_traversal_step(
                    index,
                    source,
                    nodes.drop_last().push(a).push(sn),
                    following.push(ff),
                    e,
                    na,
                    fa,
                    fuel,
                )
            }) by {
            assert(spec_node_advanced(node, b, advanced));
            assert(spec_subnode(index, source, vcn, subnode));
            assert(spec_following_of(node, b, f));
        }
    }
}

/// Moving past the empty last entry of a node, which has no sub-node, is one move of the traversal.
proof fn lemma_step_past_last<'n, 'f, E: NtfsIndexEntryType>(
    index: NtfsIndex<'n, 'f, E>,
    source: Seq<u8>,
    nodes: Seq<IndexNodeEntryRanges<E>>,
    following: Seq<Option<IndexEntryRange<E>>>,
    b: Seq<u8>,
    advanced: IndexNodeEntryRanges<E>,
)
    requires
        nodes.len() > 0,
        following.len() + 1 == nodes.len(),
        nodes.last().range.start < nodes.last().range.end,
        spec_node_entry(nodes.last().data@, nodes.last().range.start, nodes.last().position) == Ok::<Seq<u8>, NtfsError>(b),
        spec_entry_subnode_vcn(b, nodes.last().position) is None,
        spec_entry_is_last(b),
        spec_node_advanced(nodes.last(), b, advanced),
    ensures
        spec_step_continues(index, source, nodes, following, nodes.drop_last().push(advanced), following, 1),
{
    reveal_with_fuel(spec_traversal_step, 2);
}

/// Returning from a node without entries left to its parent, where the entry whose sub-node it
/// was is the empty last entry, is one move of the traversal.
proof fn lemma_step_ascend<'n, 'f, E: NtfsIndexEntryType>(
    index: NtfsIndex<'n, 'f, E>,
    source: Seq<u8>,
    nodes: Seq<IndexNodeEntryRanges<E>>,
    following: Seq<Option<IndexEntryRange<E>>>,
)
    requires
        nodes.len() >= 2,
        following.len() + 1 == nodes.len(),
        nodes.last().range.start >= nodes.last().range.end,
        following.last() is None,
    ensures
        spec_step_continues(index, source, nodes, following, nodes.drop_last(), following.drop_last(), 1),
{
    reveal_with_fuel(spec_traversal_step, 2);
}

/// The next entry of a node, without a sub-node and not the empty last entry, is returned in one
/// move.
proof fn lemma_step_leaf<'n, 'f, E: NtfsIndexEntryType>(
    index: NtfsIndex<'n, 'f, E>,
    source: Seq<u8>,
    nodes: Seq<IndexNodeEntryRanges<E>>,
    following: Seq<Option<IndexEntryRange<E>>>,
    b: Seq<u8>,
    nodes_after: Seq<IndexNodeEntryRanges<E>>,
)
    requires
        nodes.len() > 0,
        following.len() + 1 == nodes.len(),
        nodes.last().range.start < nodes.last().range.end,
        spec_node_entry(nodes.last().data@, nodes.last().range.start, nodes.last().position) == Ok::<Seq<u8>, NtfsError>(b),
        spec_entry_subnode_vcn(b, nodes.last().position) is None,
        !spec_entry_is_last(b),
        nodes_after.len() == nodes.len(),
        nodes_after.drop_last() == nodes.drop_last(),
        spec_node_advanced(nodes.last(), b, nodes_after.last()),
    ensures
        spec_traversal_step(index, source, nodes, following, b, nodes_after, following, 1),
{
    reveal_with_fuel(spec_traversal_step, 1);
}

/// The entry whose sub-node has been traversed is returned in one move.
proof fn lemma_step_following<'n, 'f, E: NtfsIndexEntryType>(
    index: NtfsIndex<'n, 'f, E>,
    source: Seq<u8>,
    nodes: Seq<IndexNodeEntryRanges<E>>,
    following: Seq<Option<IndexEntryRange<E>>>,
    er: IndexEntryRange<E>,
    e: Seq<u8>,
)
    requires
        nodes.len() >= 2,
        following.len() + 1 == nodes.len(),
        nodes.last().range.start >= nodes.last().range.end,
        following.last() == Some(er),
        er.range.start <= er.range.end <= nodes[nodes.len() - 2].data@.len(),
        spec_index_entry(
            nodes[nodes.len() - 2].data@.subrange(er.range.start as int, er.range.end as int),
            er.position,
        ) == Ok::<Seq<u8>, NtfsError>(e),
    ensures
        spec_traversal_step(index, source, nodes, following, e, nodes.drop_last(), following.drop_last(), 1),
{
    reveal_with_fuel(spec_traversal_step, 1);
}

/// Moves from the path `nodes2` to the path `nodes` and from there to `nodes0` add up.
proof fn lemma_step_chain<'n, 'f, E: NtfsIndexEntryType>(
    index: NtfsIndex<'n, 'f, E>,
    source: Seq<u8>,
    nodes0: Seq<IndexNodeEntryRanges<E>>,
    following0: Seq<Option<IndexEntryRange<E>>>,
    nodes: Seq<IndexNodeEntryRanges<E>>,
    following: Seq<Option<IndexEntryRange<E>>>,
    nodes2: Seq<IndexNodeEntryRanges<E>>,
    following2: Seq<Option<IndexEntryRange<E>>>,
    moves: nat,
)
    requires
        spec_step_continues(index, source, nodes0, following0, nodes, following, moves),
        spec_step_continues(index, source, nodes, following, nodes2, following2, 1),
    ensures
        spec_step_continues(index, source, nodes0, following0, nodes2, following2, moves + 1),
{
    assert forall|e: Seq<u8>, na: Seq<IndexNodeEntryRanges<E>>, fa: Seq<Option<IndexEntryRange<E>>>, fuel: nat|
        #[trigger] spec_traversal_step(index, source, nodes2, following2, e, na, fa, fuel) implies spec_traversal_step(
            index,
            source,
            nodes0,
            following0,
            e,
            na,
            fa,
            (fuel + moves + 1) as nat,
        ) by {
        assert(spec_traversal_step(index, source, nodes, following, e, na, fa, (fuel + 1) as nat));
    }
}

/// Iterator over
///   all index entries of an index,
///   sorted ascending by the index key,
///   returning an [`NtfsIndexEntry`] for each entry.
///
/// This iterator is returned from the [`NtfsIndex::entries`] function.
#[derive(Debug)]
pub struct NtfsIndexEntries<'n, 'f, 'i, E> where E: NtfsIndexEntryType {
    index: &'i NtfsIndex<'n, 'f, E>,
    /// The iterators of the nodes on the path from the Index Root down to the current node.
    inner_iterators: Vec<IndexNodeEntryRanges<E>>,
    /// For each node iterator but the last, the entry of that node whose sub-node is iterated
    /// next, if it comes after its sub-node (`None` for the last entry of a node).
    following_entries: Vec<Option<IndexEntryRange<E>>>,
}

impl<'n, 'f, 'i, E> NtfsIndexEntries<'n, 'f, 'i, E> where E: NtfsIndexEntryType {
    /// Every node iterator is well-formed, and every saved entry lies within the bytes of its
    /// node and is not the last entry of that node.
    pub closed spec fn wf(&self) -> bool {
        &&& (self.inner_iterators@.len() == self.following_entries@.len() + 1 || (
        self.inner_iterators@.len() == 0 && self.following_entries@.len() == 0))
        &&& forall|i: int| 0 <= i < self.inner_iterators@.len() ==> #[trigger] self.inner_iterators@[i].wf()
        &&& forall|i: int|
            0 <= i < self.following_entries@.len() ==> (#[trigger] self.following_entries@[i] matches Some(
                er,
            ) ==> {
                &&& er.range.start <= er.range.end <= self.inner_iterators@[i].data@.len()
                &&& spec_index_entry(
                    self.inner_iterators@[i].data@.subrange(er.range.start as int, er.range.end as int),
                    er.position,
                ) matches Ok(b) && !spec_entry_is_last(b)
            })
    }

    /// The index being iterated.
    pub closed spec fn spec_index(&self) -> NtfsIndex<'n, 'f, E> {
        *self.index
    }

    /// The number of nodes on the path from the Index Root down to the current node
    /// (zero once the iteration has ended).
    pub closed spec fn spec_depth(&self) -> nat {
        self.inner_iterators@.len()
    }

    /// The iterators of the nodes on the path from the Index Root down to the current node.
    pub closed spec fn spec_nodes(&self) -> Seq<IndexNodeEntryRanges<E>> {
        self.inner_iterators@
    }

    /// For each node on the path but the current one, the entry that comes after the sub-node
    /// being iterated (`None` for the empty last entry).
    pub closed spec fn spec_following(&self) -> Seq<Option<IndexEntryRange<E>>> {
        self.following_entries@
    }

    /// The iterator over the entries of the current node (the Index Root at depth 1).
    pub closed spec fn spec_node(&self) -> IndexNodeEntryRanges<E> {
        self.inner_iterators@.last()
    }

    /// The entry that comes next when it is the next entry of the current node and leads to no
    /// sub-node: its bytes.
    pub open spec fn spec_next_leaf_entry(&self) -> Option<Seq<u8>> {
        let node = self.spec_node();
        if self.spec_depth() > 0 && node.range.start < node.range.end {
            match spec_node_entry(node.data@, node.range.start, node.position) {
                Ok(b) => if !spec_entry_is_last(b) && !spec_entry_has_subnode(b) {
                    Some(b)
                } else {
                    None
                },
                Err(_) => None,
            }
        } else {
            None
        }
    }

    /// The error of the next entry of the current node, where it cannot be parsed or the VCN of
    /// its sub-node does not fit into it.
    pub open spec fn spec_next_entry_error(&self) -> Option<NtfsError> {
        let node = self.spec_node();
        if self.spec_depth() > 0 && node.range.start < node.range.end {
            match spec_node_entry(node.data@, node.range.start, node.position) {
                Err(e) => Some(e),
                Ok(b) => match spec_entry_subnode_vcn(b, node.position) {
                    Some(Err(e)) => Some(e),
                    _ => None,
                },
            }
        } else {
            None
        }
    }

    /// Whether the next entry of the current node leads to a sub-node with a valid VCN.
    pub open spec fn spec_next_entry_descends(&self) -> bool {
        let node = self.spec_node();
        &&& self.spec_depth() > 0
        &&& node.range.start < node.range.end
        &&& spec_node_entry(node.data@, node.range.start, node.position) is Ok
        &&& spec_entry_subnode_vcn(
            spec_node_entry(node.data@, node.range.start, node.position)->Ok_0,
            node.position,
        ) matches Some(Ok(_))
    }

    /// The entry of the parent node whose sub-node is the current node, where it comes after
    /// that sub-node: its bytes (`None` in the Index Root, or for the empty last entry).
    pub closed spec fn spec_following_entry(&self) -> Option<Seq<u8>> {
        let depth = self.inner_iterators@.len();
        if depth >= 2 && self.following_entries@.len() == depth - 1 {
            match self.following_entries@.last() {
                Some(er) => {
                    let parent = self.inner_iterators@[depth - 2];
                    if er.range.start <= er.range.end <= parent.data@.len() {
                        match spec_index_entry(
                            parent.data@.subrange(er.range.start as int, er.range.end as int),
                            er.position,
                        ) {
                            Ok(b) => Some(b),
                            Err(_) => None,
                        }
                    } else {
                        None
                    }
                },
                None => None,
            }
        } else {
            None
        }
    }

    /// Whether the traversal is at its end: in the Index Root, with no entry left but (at most)
    /// the empty last entry without a sub-node.
    pub open spec fn spec_at_end(&self) -> bool {
        let node = self.spec_node();
        &&& self.spec_depth() == 1
        &&& {
            ||| node.range.start >= node.range.end
            ||| spec_node_entry(node.data@, node.range.start, node.position) matches Ok(b)
                && spec_entry_is_last(b) && !spec_entry_has_subnode(b)
        }
    }

    /// Returns the next Index Entry of an in-order traversal of the B-tree, reading sub-nodes from
    /// the filesystem as needed, or `None` once all entries have been returned.
    ///
    /// The empty last entry of each node is never returned. A traversal that would descend more
    /// often in one call than the $INDEX_ALLOCATION attribute holds Index Records runs into a
    /// cycle and ends in [`NtfsError::VcnOutOfBoundsInIndexAllocation`].
    #[verifier::rlimit(100)]
    pub fn next<'a, T>(&'a mut self, fs: &mut T) -> (r: Option<Result<NtfsIndexEntry<'a, E>>>) where
        T: Read + Seek,
        requires
            old(self).wf(),
        ensures
            final(fs).source() == old(fs).source(),
            final(self).wf(),
            final(self).spec_index() == old(self).spec_index(),
            old(self).spec_depth() == 0 ==> r is None,
            r is None ==> final(self).spec_depth() == 0,
            r matches Some(Ok(e)) ==> !spec_entry_is_last(e.spec_bytes()),
            old(self).spec_next_leaf_entry() matches Some(b) ==> {
                let node = old(self).spec_node();
                &&& r matches Some(Ok(e)) && e.spec_bytes() == b && e.spec_position() == node.position
                &&& final(self).spec_depth() == old(self).spec_depth()
                &&& final(self).spec_node().data@ == node.data@
                &&& final(self).spec_node().range.start == node.range.start + b.len()
                &&& final(self).spec_node().range.end == node.range.end
                &&& final(self).spec_node().position == node.position.spec_add(b.len() as u64)
            },
            old(self).spec_at_end() ==> r is None,
            old(self).spec_next_entry_error() matches Some(e) ==> r == Some(
                Err::<NtfsIndexEntry<'a, E>, NtfsError>(e),
            ),
            old(self).spec_following_entry() matches Some(b) ==> (old(self).spec_depth() >= 2 && old(
                self,
            ).spec_node().range.start >= old(self).spec_node().range.end ==> {
                &&& r matches Some(Ok(e)) && e.spec_bytes() == b
                &&& final(self).spec_depth() == old(self).spec_depth() - 1
            }),
            old(self).spec_next_entry_descends() && old(self).spec_index().spec_allocation_item() is None
                ==> r == Some(
                Err::<NtfsIndexEntry<'a, E>, NtfsError>(
                    NtfsError::MissingIndexAllocation { position: old(self).spec_index().spec_root_position() },
                ),
            ),
            r matches Some(Ok(e)) ==> exists|fuel: nat|
                #[trigger] spec_traversal_step(
                    old(self).spec_index(),
                    old(fs).source(),
                    old(self).spec_nodes(),
                    old(self).spec_following(),
                    e.spec_bytes(),
                    final(self).spec_nodes(),
                    final(self).spec_following(),
                    fuel,
                ),
    {
        let mut budget: Option<u64> = None;
        let mut found: Option<IndexEntryRange<E>> = None;
        let ghost mut phase: int = 0;
        let ghost leaf = old(self).spec_next_leaf_entry();
        let ghost at_end = old(self).spec_at_end();
        let ghost node0 = old(self).spec_node();
        let ghost err0 = old(self).spec_next_entry_error();
        let ghost ascend0 = old(self).spec_depth() >= 2 && old(self).spec_node().range.start >= old(
            self,
        ).spec_node().range.end && old(self).spec_following_entry() is Some;
        let ghost inner0 = old(self).inner_iterators@;
        let ghost following0 = old(self).following_entries@;
        let ghost mut steps: nat = 0;
        let ghost missing0 = old(self).spec_next_entry_descends()
            && old(self).spec_index().spec_allocation_item() is None;
        loop
            invariant_except_break
                found is None,
                spec_step_continues(
                    old(self).spec_index(),
                    old(fs).source(),
                    inner0,
                    following0,
                    self.inner_iterators@,
                    self.following_entries@,
                    steps,
                ),
                phase == 0 ==> self.inner_iterators@ == old(self).inner_iterators@
                    && self.following_entries@ == old(self).following_entries@,
                phase == 1 ==> self.inner_iterators@.len() == 1
                    && self.following_entries@.len() == 0 && self.inner_iterators@[0].range.start
                    >= self.inner_iterators@[0].range.end,
            invariant
                0 <= phase <= 2,
                leaf == old(self).spec_next_leaf_entry(),
                at_end == old(self).spec_at_end(),
                node0 == old(self).spec_node(),
                phase == 1 ==> at_end && leaf is None,
                phase == 2 ==> !at_end && leaf is None,
                err0 == old(self).spec_next_entry_error(),
                err0 is Some ==> phase == 0,
                missing0 ==> phase == 0,
                missing0 == (old(self).spec_next_entry_descends()
                    && old(self).spec_index().spec_allocation_item() is None),
                ascend0 ==> phase == 0,
                inner0 == old(self).inner_iterators@,
                following0 == old(self).following_entries@,
                ascend0 == (old(self).spec_depth() >= 2 && old(self).spec_node().range.start >= old(
                    self,
                ).spec_node().range.end && old(self).spec_following_entry() is Some),
                self.wf(),
                self.spec_index() == old(self).spec_index(),
                fs.source() == old(fs).source(),
                old(self).spec_depth() == 0 ==> self.spec_depth() == 0,
            ensures
                self.wf(),
                self.spec_index() == old(self).spec_index(),
                fs.source() == old(fs).source(),
                found matches Some(er) ==> {
                    &&& self.inner_iterators@.len() > 0
                    &&& er.range.start <= er.range.end <= self.inner_iterators@.last().data@.len()
                    &&& spec_index_entry(
                        self.inner_iterators@.last().data@.subrange(er.range.start as int, er.range.end as int),
                        er.position,
                    ) matches Ok(b) && !spec_entry_is_last(b)
                },
                found is None ==> self.spec_depth() == 0,
                leaf matches Some(b) ==> found matches Some(er) && {
                    &&& self.inner_iterators@.len() == old(self).inner_iterators@.len()
                    &&& er.position == node0.position
                    &&& er.range.start == node0.range.start
                    &&& er.range.end == node0.range.start + b.len()
                    &&& self.inner_iterators@.last().data@ == node0.data@
                    &&& self.inner_iterators@.last().range.start == node0.range.start + b.len()
                    &&& self.inner_iterators@.last().range.end == node0.range.end
                    &&& self.inner_iterators@.last().position == node0.position.spec_add(
                        b.len() as u64,
                    )
                },
                at_end ==> found is None,
                err0 is None,
                !missing0,
                ascend0 ==> found == following0.last() && self.inner_iterators@ == inner0.drop_last(),
                found matches Some(er) ==> exists|fuel: nat|
                    #[trigger] spec_traversal_step(
                        old(self).spec_index(),
                        old(fs).source(),
                        inner0,
                        following0,
                        spec_index_entry(
                            self.inner_iterators@.last().data@.subrange(
                                er.range.start as int,
                                er.range.end as int,
                            ),
                            er.position,
                        )->Ok_0,
                        self.inner_iterators@,
                        self.following_entries@,
                        fuel,
                    ),
            decreases spec_descents_left(budget), spec_levels_left(self.inner_iterators@),
        {
            let n = self.inner_iterators.len();
            if n == 0 {
                break;
            }
            let ghost before = self.inner_iterators@;
            let ghost following_top = self.following_entries@;
            let mut iter = self.inner_iterators.pop().unwrap();
            proof {
                assert(self.inner_iterators@ =~= before.drop_last());
                assert(iter == before[n - 1]);
                assert(iter.wf());
            }
            match iter.next() {
                Some(Err(e)) => {
                    self.inner_iterators.push(iter);
                    proof {
                        assert(self.inner_iterators@ =~= before);
                    }
                    return Some(Err(e));
                },
                Some(Ok(entry_range)) => {
                    let ghost node = before[n - 1];
                    let ghost b = spec_node_entry(node.data@, node.range.start, node.position)->Ok_0;
                    proof {
                        lemma_entry_own_bytes(node.data@, node.range.start as int, b, node.position);
                    }
                    let (is_last, subnode_vcn) = match entry_range.to_entry(iter.data()) {
                        Ok(entry) => (entry.is_last_entry(), entry.subnode_vcn()),
                        Err(e) => {
                            self.inner_iterators.push(iter);
                            proof {
                                self.lemma_wf_after_advance(before, n as int);
                            }
                            return Some(Err(e));
                        },
                    };
                    match subnode_vcn {
                        Some(Err(e)) => {
                            self.inner_iterators.push(iter);
                            proof {
                                self.lemma_wf_after_advance(before, n as int);
                            }
                            return Some(Err(e));
                        },
                        Some(Ok(vcn)) => {
                            // The entries of the sub-node come before this entry: iterate them first.
                            let subnode_iter = match self.index.read_subnode(fs, vcn, &mut budget) {
                                Ok(subnode_iter) => subnode_iter,
                                Err(e) => {
                                    self.inner_iterators.push(iter);
                                    proof {
                                        self.lemma_wf_after_advance(before, n as int);
                                    }
                                    return Some(Err(e));
                                },
                            };
                            // The entry itself comes after its sub-node, unless it is the empty last entry.
                            let following_entry = if !is_last {
                                Some(entry_range)
                            } else {
                                None
                            };
                            let ghost following_before = self.following_entries@;
                            self.inner_iterators.push(iter);
                            self.inner_iterators.push(subnode_iter);
                            self.following_entries.push(following_entry);
                            proof {
                                phase = 2;
                                let s = self.inner_iterators@;
                                assert(s.len() == n + 1);
                                assert(s[n - 1] == iter);
                                assert forall|i: int| 0 <= i < s.len() implies #[trigger] s[i].wf() by {
                                    if i < n - 1 {
                                        assert(s[i] == before[i]);
                                    }
                                }
                                assert forall|i: int| 0 <= i < self.following_entries@.len() implies (
                                #[trigger] self.following_entries@[i] matches Some(er) ==> {
                                    &&& er.range.start <= er.range.end <= s[i].data@.len()
                                    &&& spec_index_entry(
                                        s[i].data@.subrange(er.range.start as int, er.range.end as int),
                                        er.position,
                                    ) matches Ok(b) && !spec_entry_is_last(b)
                                }) by {
                                    if i < n - 1 {
                                        assert(self.following_entries@[i] == following_before[i]);
                                        assert(s[i] == before[i]);
                                    } else {
                                        assert(i == n - 1);
                                        assert(s[i].data@ == before[n - 1].data@);
                                    }
                                }
                                assert(s =~= before.drop_last().push(iter).push(subnode_iter));
                                assert(self.following_entries@ =~= following_top.push(following_entry));
                                assert(spec_node_advanced(node, b, iter));
                                assert(spec_following_of(node, b, following_entry));
                                lemma_step_descend(
                                    old(self).spec_index(),
                                    old(fs).source(),
                                    before,
                                    following_top,
                                    b,
                                    vcn,
                                    iter,
                                    subnode_iter,
                                    following_entry,
                                );
                                lemma_step_chain(
                                    old(self).spec_index(),
                                    old(fs).source(),
                                    inner0,
                                    following0,
                                    before,
                                    following_top,
                                    self.inner_iterators@,
                                    self.following_entries@,
                                    steps,
                                );
                                steps = steps + 1;
                            }
                        },
                        None => {
                            self.inner_iterators.push(iter);
                            proof {
                                self.lemma_wf_after_advance(before, n as int);
                                lemma_levels_left_push(before.drop_last(), iter);
                                lemma_levels_left_push(before.drop_last(), before[n - 1]);
                                assert(before.drop_last().push(before[n - 1]) =~= before);
                                assert(before.drop_last().push(iter) =~= self.inner_iterators@);
                            }
                            if !is_last {
                                // There is no sub-node, and this is not the empty last entry,
                                // so this entry comes next.
                                found = Some(entry_range);
                                proof {
                                    assert(self.inner_iterators@.last() == iter);
                                    assert(self.inner_iterators@.drop_last() =~= before.drop_last());
                                    lemma_step_leaf(
                                        old(self).spec_index(),
                                        old(fs).source(),
                                        before,
                                        following_top,
                                        b,
                                        self.inner_iterators@,
                                    );
                                    assert(spec_traversal_step(
                                        old(self).spec_index(),
                                        old(fs).source(),
                                        inner0,
                                        following0,
                                        b,
                                        self.inner_iterators@,
                                        self.following_entries@,
                                        (1 + steps) as nat,
                                    ));
                                }
                                break;
                            }
                            proof {
                                if phase == 0 {
                                    if n == 1 {
                                        phase = 1;
                                    } else {
                                        phase = 2;
                                    }
                                }
                                assert(spec_node_advanced(node, b, iter));
                                lemma_step_past_last(
                                    old(self).spec_index(),
                                    old(fs).source(),
                                    before,
                                    following_top,
                                    b,
                                    iter,
                                );
                                lemma_step_chain(
                                    old(self).spec_index(),
                                    old(fs).source(),
                                    inner0,
                                    following0,
                                    before,
                                    following_top,
                                    self.inner_iterators@,
                                    self.following_entries@,
                                    steps,
                                );
                                steps = steps + 1;
                            }
                        },
                    }
                },
                None => {
                    // This node has been fully iterated: continue with its parent.
                    proof {
                        lemma_levels_left_push(before.drop_last(), before[n - 1]);
                        assert(before.drop_last().push(before[n - 1]) =~= before);
                        assert forall|i: int| 0 <= i < self.inner_iterators@.len() implies #[trigger] self.inner_iterators@[i].wf() by {
                            assert(self.inner_iterators@[i] == before[i]);
                        }
                    }
                    let ghost following_before = self.following_entries@;
                    match self.following_entries.pop() {
                        None => {
                            break;
                        },
                        Some(None) => {
                            proof {
                                phase = 2;
                                assert(self.following_entries@ =~= following_before.drop_last());
                                assert forall|i: int| 0 <= i < self.following_entries@.len() implies (
                                #[trigger] self.following_entries@[i] matches Some(er) ==> {
                                    &&& er.range.start <= er.range.end <= self.inner_iterators@[i].data@.len()
                                    &&& spec_index_entry(
                                        self.inner_iterators@[i].data@.subrange(er.range.start as int, er.range.end as int),
                                        er.position,
                                    ) matches Ok(b) && !spec_entry_is_last(b)
                                }) by {
                                    assert(self.following_entries@[i] == following_before[i]);
                                    assert(self.inner_iterators@[i] == before[i]);
                                }
                                assert(self.inner_iterators@ =~= before.drop_last());
                                lemma_step_ascend(old(self).spec_index(), old(fs).source(), before, following_top);
                                lemma_step_chain(
                                    old(self).spec_index(),
                                    old(fs).source(),
                                    inner0,
                                    following0,
                                    before,
                                    following_top,
                                    self.inner_iterators@,
                                    self.following_entries@,
                                    steps,
                                );
                                steps = steps + 1;
                            }
                        },
                        Some(Some(entry_range)) => {
                            // The entry whose sub-node has just been iterated comes next.
                            proof {
                                let k = following_before.len() - 1;
                                assert(self.following_entries@ =~= following_before.drop_last());
                                assert(following_before[k] == Some(entry_range));
                                assert(self.inner_iterators@.last() == before[k]);
                                assert forall|i: int| 0 <= i < self.following_entries@.len() implies (
                                #[trigger] self.following_entries@[i] matches Some(er) ==> {
                                    &&& er.range.start <= er.range.end <= self.inner_iterators@[i].data@.len()
                                    &&& spec_index_entry(
                                        self.inner_iterators@[i].data@.subrange(er.range.start as int, er.range.end as int),
                                        er.position,
                                    ) matches Ok(b) && !spec_entry_is_last(b)
                                }) by {
                                    assert(self.following_entries@[i] == following_before[i]);
                                    assert(self.inner_iterators@[i] == before[i]);
                                }
                                assert(self.inner_iterators@ =~= before.drop_last());
                                lemma_step_following(
                                    old(self).spec_index(),
                                    old(fs).source(),
                                    before,
                                    following_top,
                                    entry_range,
                                    spec_index_entry(
                                        before[n - 2].data@.subrange(
                                            entry_range.range.start as int,
                                            entry_range.range.end as int,
                                        ),
                                        entry_range.position,
                                    )->Ok_0,
                                );
                                assert(spec_traversal_step(
                                    old(self).spec_index(),
                                    old(fs).source(),
                                    inner0,
                                    following0,
                                    spec_index_entry(
                                        before[n - 2].data@.subrange(
                                            entry_range.range.start as int,
                                            entry_range.range.end as int,
                                        ),
                                        entry_range.position,
                                    )->Ok_0,
                                    self.inner_iterators@,
                                    self.following_entries@,
                                    (1 + steps) as nat,
                                ));
                            }
                            found = Some(entry_range);
                            break;
                        },
                    }
                },
            }
        }
        let entry_range = match found {
            Some(entry_range) => entry_range,
            None => return None,
        };
        proof {
            if let Some(b) = leaf {
                lemma_entry_own_bytes(node0.data@, node0.range.start as int, b, node0.position);
            }
        }
        let n = self.inner_iterators.len();
        let iter = &self.inner_iterators[n - 1];
        let r = entry_range.to_entry(iter.data());
        proof {
            let b = spec_index_entry(
                self.inner_iterators@.last().data@.subrange(
                    entry_range.range.start as int,
                    entry_range.range.end as int,
                ),
                entry_range.position,
            )->Ok_0;
            let fuel = choose|fuel: nat|
                #[trigger] spec_traversal_step(
                    old(self).spec_index(),
                    old(fs).source(),
                    inner0,
                    following0,
                    b,
                    self.inner_iterators@,
                    self.following_entries@,
                    fuel,
                );
            assert(spec_traversal_step(
                self.spec_index(),
                fs.source(),
                old(self).spec_nodes(),
                old(self).spec_following(),
                b,
                self.spec_nodes(),
                self.spec_following(),
                fuel,
            ));
        }
        Some(r)
    }

    /// Putting back the advanced last node iterator keeps [`NtfsIndexEntries::wf`].
    proof fn lemma_wf_after_advance(&self, before: Seq<IndexNodeEntryRanges<E>>, n: int)
        requires
            n == before.len(),
            n >= 1,
            self.inner_iterators@.len() == n,
            forall|i: int| 0 <= i < n - 1 ==> self.inner_iterators@[i] == before[i],
            self.inner_iterators@[n - 1].wf(),
            self.inner_iterators@[n - 1].data@ == before[n - 1].data@,
            forall|i: int| 0 <= i < n ==> #[trigger] before[i].wf(),
            self.following_entries@.len() + 1 == n,
            forall|i: int|
                0 <= i < self.following_entries@.len() ==> (#[trigger] self.following_entries@[i] matches Some(
                    er,
                ) ==> {
                    &&& er.range.start <= er.range.end <= before[i].data@.len()
                    &&& spec_index_entry(
                        before[i].data@.subrange(er.range.start as int, er.range.end as int),
                        er.position,
                    ) matches Ok(b) && !spec_entry_is_last(b)
                }),
        ensures
            self.wf(),
    {
        assert forall|i: int| 0 <= i < n implies #[trigger] self.inner_iterators@[i].wf() by {
            if i < n - 1 {
                assert(self.inner_iterators@[i] == before[i]);
            }
        }
        assert forall|i: int| 0 <= i < self.following_entries@.len() implies (
        #[trigger] self.following_entries@[i] matches Some(er) ==> {
            &&& er.range.start <= er.range.end <= self.inner_iterators@[i].data@.len()
            &&& spec_index_entry(
                self.inner_iterators@[i].data@.subrange(er.range.start as int, er.range.end as int),
                er.position,
            ) matches Ok(b) && !spec_entry_is_last(b)
        }) by {
            if i < n - 1 {
                assert(self.inner_iterators@[i] == before[i]);
            }
        }
    }
}

/// Helper structure to efficiently find an entry in an index, created by [`NtfsIndex::finder`].
///
/// This helper is required, because the returned entry borrows from the iterator it was created from.
/// The idea is that you copy the field(s) you need from the returned entry and then drop the entry and the finder.
pub struct NtfsIndexFinder<'n, 'f, 'i, E> where E: NtfsIndexEntryType {
    index: &'i NtfsIndex<'n, 'f, E>,
    inner_iterator: IndexNodeEntryRanges<E>,
}

/// The Index Entry at `start` of the node bytes `data`, where it lies at `position`.
pub open spec fn spec_node_entry(data: Seq<u8>, start: usize, position: NtfsPosition) -> Result<Seq<u8>> {
    spec_index_entry(data.subrange(start as int, data.len() as int), position)
}

/// The bytes of `data` from `start` up to `end`.
pub open spec fn spec_range_bytes(data: Seq<u8>, start: usize, end: usize) -> Seq<u8> {
    data.subrange(start as int, end as int)
}

/// Where the entries of the node bytes `data` continue after the entry `b` at `start`: nowhere
/// after the last entry.
pub open spec fn spec_node_next_start(data: Seq<u8>, start: usize, b: Seq<u8>) -> usize {
    if spec_entry_is_last(b) {
        data.len() as usize
    } else {
        (start + b.len()) as usize
    }
}

/// Where the entry after the entry `b` at `position` lies.
pub open spec fn spec_node_next_position(position: NtfsPosition, b: Seq<u8>) -> NtfsPosition {
    if spec_entry_is_last(b) {
        position
    } else {
        position.spec_add(b.len() as u64)
    }
}

/// Whether searching the entries of a node with `compare` can pass over this node without an
/// entry that compares equal: from the entry at `start` of the node bytes `data` (which lies at
/// `position`) on, as long as entries compare `Greater`, the search reaches the end of the
/// entries before `end`, or an entry that it continues from in a sub-node (one without a key, or
/// one that compares `Less`).
pub open spec fn node_search_may_pass<E, F>(
    data: Seq<u8>,
    start: usize,
    end: usize,
    position: NtfsPosition,
    compare: F,
) -> bool where E: NtfsIndexEntryType, F: Fn(&E::KeyType) -> Ordering
    decreases data.len() - start,
{
    if start >= end {
        true
    } else {
        match spec_node_entry(data, start, position) {
            Err(_) => false,
            Ok(b) => {
                ||| spec_entry_key(b, position) is None
                ||| exists|k: E::KeyType|
                    #[trigger] spec_entry_has_key(b, position, k) && compare.ensures(
                        (&k,),
                        Ordering::Less,
                    )
                ||| (exists|k: E::KeyType|
                    #[trigger] spec_entry_has_key(b, position, k) && compare.ensures(
                        (&k,),
                        Ordering::Greater,
                    )) && start < spec_node_next_start(data, start, b) <= data.len()
                    && node_search_may_pass::<E, F>(
                    data,
                    spec_node_next_start(data, start, b),
                    end,
                    spec_node_next_position(position, b),
                    compare,
                )
            },
        }
    }
}

/// Whether a search with `compare` that stops at the Index Entry bytes `b` (at `position`) of a
/// node may end without a result: the entry has no sub-node, or a sub-node (read as
/// [`spec_subnode`] says from the filesystem bytes `source`) that such a search may pass, at most
/// `fuel` levels further down.
pub open spec fn search_may_pass_below<'n, 'f, E, F>(
    index: NtfsIndex<'n, 'f, E>,
    source: Seq<u8>,
    b: Seq<u8>,
    position: NtfsPosition,
    compare: F,
    fuel: int,
) -> bool where E: NtfsIndexEntryType, F: Fn(&E::KeyType) -> Ordering
    decreases fuel, 0int,
{
    match spec_entry_subnode_vcn(b, position) {
        None => true,
        Some(Err(_)) => false,
        Some(Ok(vcn)) => fuel > 0 && exists|node: IndexNodeEntryRanges<E>|
            #[trigger] spec_subnode(index, source, vcn, node) && node.wf() && search_may_pass::<
                E,
                F,
            >(
                index,
                source,
                node.data@,
                node.range.start,
                node.range.end,
                node.position,
                compare,
                fuel - 1,
            ),
    }
}

/// Whether a search with `compare` may end without a result, from the entry at `start` of the
/// node bytes `data` (which lies at `position`) on: as long as entries compare `Greater`, the
/// search moves on in the node; it may end at the end of the entries before `end`, or at an entry
/// that it continues from (one without a key, or one that compares `Less`) as
/// [`search_may_pass_below`] says.
pub open spec fn search_may_pass<'n, 'f, E, F>(
    index: NtfsIndex<'n, 'f, E>,
    source: Seq<u8>,
    data: Seq<u8>,
    start: usize,
    end: usize,
    position: NtfsPosition,
    compare: F,
    fuel: int,
) -> bool where E: NtfsIndexEntryType, F: Fn(&E::KeyType) -> Ordering
    decreases fuel, 1int, data.len() - start,
{
    if start >= end {
        true
    } else {
        match spec_node_entry(data, start, position) {
            Err(_) => false,
            Ok(b) => {
                ||| (spec_entry_key(b, position) is None || exists|k: E::KeyType|
                    #[trigger] spec_entry_has_key(b, position, k) && compare.ensures(
                        (&k,),
                        Ordering::Less,
                    )) && search_may_pass_below::<E, F>(index, source, b, position, compare, fuel)
                ||| (exists|k: E::KeyType|
                    #[trigger] spec_entry_has_key(b, position, k) && compare.ensures(
                        (&k,),
                        Ordering::Greater,
                    )) && start < spec_node_next_start(data, start, b) <= data.len()
                    && search_may_pass::<E, F>(
                    index,
                    source,
                    data,
                    spec_node_next_start(data, start, b),
                    end,
                    spec_node_next_position(position, b),
                    compare,
                    fuel,
                )
            },
        }
    }
}

/// Whether comparing the key of the Index Entry bytes `b` (at `position`) with `compare` always
/// gives `o`: the key lies within the entry, every parse of it succeeds, and `compare` gives `o`
/// for the parsed key.
pub open spec fn entry_compares<E, F>(b: Seq<u8>, position: NtfsPosition, compare: F, o: Ordering) -> bool where
    E: NtfsIndexEntryType,
    F: Fn(&E::KeyType) -> Ordering,
{
    spec_entry_key(b, position) matches Some(Ok((kb, kp))) && forall|kr: Result<E::KeyType>|
        #[trigger] E::KeyType::spec_parsed_key(kb, kp, kr) ==> (kr matches Ok(k) && forall|o2: Ordering|
            #[trigger] compare.ensures((&k,), o2) ==> o2 == o)
}

/// Whether a search with `compare` finds an entry in a node without leaving it: from the entry at
/// `start` of the node bytes `data` (which lies at `position`) on, entries that compare `Greater`
/// are passed over until one compares `Equal`, before `end`.
pub open spec fn search_finds<E, F>(
    data: Seq<u8>,
    start: usize,
    end: usize,
    position: NtfsPosition,
    compare: F,
) -> bool where E: NtfsIndexEntryType, F: Fn(&E::KeyType) -> Ordering
    decreases data.len() - start,
{
    start < end && match spec_node_entry(data, start, position) {
        Err(_) => false,
        Ok(b) => {
            ||| entry_compares::<E, F>(b, position, compare, Ordering::Equal)
            ||| entry_compares::<E, F>(b, position, compare, Ordering::Greater) && start
                < spec_node_next_start(data, start, b) <= data.len() && search_finds::<E, F>(
                data,
                spec_node_next_start(data, start, b),
                end,
                spec_node_next_position(position, b),
                compare,
            )
        },
    }
}

/// The error that a search with `compare` runs into within a node, if it runs into one there:
/// from the entry at `start` of the node bytes `data` (which lies at `position`) on, entries that
/// compare `Greater` are passed over; an entry that cannot be parsed, a key that does not lie
/// within its entry, or the invalid sub-node VCN of an entry that the search continues from (one
/// without a key, or one that compares `Less`) is the error.
pub open spec fn search_error<E, F>(
    data: Seq<u8>,
    start: usize,
    end: usize,
    position: NtfsPosition,
    compare: F,
) -> Option<NtfsError> where E: NtfsIndexEntryType, F: Fn(&E::KeyType) -> Ordering
    decreases data.len() - start,
{
    if start >= end {
        None
    } else {
        match spec_node_entry(data, start, position) {
            Err(e) => Some(e),
            Ok(b) => match spec_entry_key(b, position) {
                Some(Err(e)) => Some(e),
                None => match spec_entry_subnode_vcn(b, position) {
                    Some(Err(e)) => Some(e),
                    _ => None,
                },
                Some(Ok(_)) => if entry_compares::<E, F>(b, position, compare, Ordering::Less) {
                    match spec_entry_subnode_vcn(b, position) {
                        Some(Err(e)) => Some(e),
                        _ => None,
                    }
                } else if entry_compares::<E, F>(b, position, compare, Ordering::Greater) && start
                    < spec_node_next_start(data, start, b) <= data.len() {
                    search_error::<E, F>(
                        data,
                        spec_node_next_start(data, start, b),
                        end,
                        spec_node_next_position(position, b),
                        compare,
                    )
                } else {
                    None
                },
            },
        }
    }
}

/// Whether a search with `compare` through a node may fail with `e` without leaving it: from
/// the entry at `start` of the node bytes `data` (which lies at `position`) on, entries that may
/// compare `Greater` are passed over until one that cannot be parsed, whose key cannot be parsed,
/// or whose invalid sub-node VCN the search would continue from (one without a key, or one that
/// may compare `Less`), before `end`.
pub open spec fn search_may_fail<E, F>(
    data: Seq<u8>,
    start: usize,
    end: usize,
    position: NtfsPosition,
    compare: F,
    e: NtfsError,
) -> bool where E: NtfsIndexEntryType, F: Fn(&E::KeyType) -> Ordering
    decreases data.len() - start,
{
    if start >= end {
        false
    } else {
        match spec_node_entry(data, start, position) {
            Err(x) => x == e,
            Ok(b) => {
                let vcn_fails = spec_entry_subnode_vcn(b, position) == Some(Err::<Vcn, NtfsError>(e));
                match spec_entry_key(b, position) {
                    None => vcn_fails,
                    Some(Err(x)) => x == e,
                    Some(Ok((kb, kp))) => {
                        ||| E::KeyType::spec_parsed_key(kb, kp, Err(e))
                        ||| (exists|k: E::KeyType|
                            #[trigger] spec_entry_has_key(b, position, k) && compare.ensures(
                                (&k,),
                                Ordering::Less,
                            )) && vcn_fails
                        ||| (exists|k: E::KeyType|
                            #[trigger] spec_entry_has_key(b, position, k) && compare.ensures(
                                (&k,),
                                Ordering::Greater,
                            )) && start < spec_node_next_start(data, start, b) <= data.len()
                            && search_may_fail::<E, F>(
                            data,
                            spec_node_next_start(data, start, b),
                            end,
                            spec_node_next_position(position, b),
                            compare,
                            e,
                        )
                    },
                }
            },
        }
    }
}

/// Whether `k` is the key that the Index Entry bytes `b` at `position` hold.
pub open spec fn spec_entry_has_key<K: NtfsIndexEntryKey>(b: Seq<u8>, position: NtfsPosition, k: K) -> bool {
    spec_entry_key(b, position) matches Some(Ok((kb, kp))) && K::spec_parsed_key(kb, kp, Ok(k))
}

impl<'n, 'f, 'i, E> NtfsIndexFinder<'n, 'f, 'i, E> where E: NtfsIndexEntryType {
    /// The index being searched.
    pub closed spec fn spec_index(&self) -> NtfsIndex<'n, 'f, E> {
        *self.index
    }

    /// Finds an entry in this index using the given comparison function and returns an [`NtfsIndexEntry`]
    /// (if there is one).
    ///
    /// `compare` tells where the searched entry lies relative to a key: before it (`Less`), at it
    /// (`Equal`) or after it (`Greater`). Starting from the Index Root, the entries of a node are
    /// visited in order until one is not `Greater`; for `Less` and for the empty last entry, the search
    /// continues in that entry's sub-node, and ends with `None` where there is none.
    /// A search that would descend more often than the $INDEX_ALLOCATION attribute holds Index Records
    /// runs into a cycle and ends in [`NtfsError::VcnOutOfBoundsInIndexAllocation`].
    #[verifier::rlimit(100)]
    pub fn find<'a, T, F>(&'a mut self, fs: &mut T, compare: F) -> (r: Option<Result<NtfsIndexEntry<'a, E>>>) where
        T: Read + Seek,
        F: Fn(&E::KeyType) -> Ordering,
        requires
            forall|k: &E::KeyType| #[trigger] compare.requires((k,)),
        ensures
            final(fs).source() == old(fs).source(),
            final(self).spec_index() == old(self).spec_index(),
            r matches Some(Ok(e)) ==> exists|k: E::KeyType|
                #![trigger spec_entry_has_key(e.spec_bytes(), e.spec_position(), k)]
                spec_entry_has_key(e.spec_bytes(), e.spec_position(), k) && compare.ensures(
                    (&k,),
                    Ordering::Equal,
                ),
            r is None ==> node_search_may_pass::<E, F>(
                old(self).spec_index().spec_root_entries(),
                0,
                old(self).spec_index().spec_root_end(),
                old(self).spec_index().spec_root_entries_position(),
                compare,
            ),
            r is None ==> exists|fuel: int|
                0 <= fuel && #[trigger] search_may_pass::<E, F>(
                    old(self).spec_index(),
                    old(fs).source(),
                    old(self).spec_index().spec_root_entries(),
                    0,
                    old(self).spec_index().spec_root_end(),
                    old(self).spec_index().spec_root_entries_position(),
                    compare,
                    fuel,
                ),
            search_finds::<E, F>(
                old(self).spec_index().spec_root_entries(),
                0,
                old(self).spec_index().spec_root_end(),
                old(self).spec_index().spec_root_entries_position(),
                compare,
            ) ==> r matches Some(Ok(_)),
            search_error::<E, F>(
                old(self).spec_index().spec_root_entries(),
                0,
                old(self).spec_index().spec_root_end(),
                old(self).spec_index().spec_root_entries_position(),
                compare,
            ) matches Some(e) ==> r == Some(Err::<NtfsIndexEntry<'a, E>, NtfsError>(e)),
            r matches Some(Err(e)) ==> search_may_fail::<E, F>(
                old(self).spec_index().spec_root_entries(),
                0,
                old(self).spec_index().spec_root_end(),
                old(self).spec_index().spec_root_entries_position(),
                compare,
                e,
            ) || node_search_may_pass::<E, F>(
                old(self).spec_index().spec_root_entries(),
                0,
                old(self).spec_index().spec_root_end(),
                old(self).spec_index().spec_root_entries_position(),
                compare,
            ),
    {
        // Always (re)start by iterating through the Index Root entries.
        proof {
            use_type_invariant(self.index);
        }
        self.inner_iterator = self.index.index_root_entry_ranges.clone();
        let mut budget: Option<u64> = None;
        let ghost root = self.index.index_root_entry_ranges.data@;
        let ghost root_end = self.index.index_root_entry_ranges.range.end;
        let ghost root_position = self.index.index_root_entry_ranges.position;
        let ghost mut descended = false;
        let ghost idx = *self.index;
        let ghost src = fs.source();
        let ghost mut depth: int = 0;
        let ghost root_error = search_error::<E, F>(root, 0, root_end, root_position, compare);
        loop
            invariant
                idx == old(self).spec_index(),
                src == old(fs).source(),
                0 <= depth,
                root_error == search_error::<E, F>(root, 0, root_end, root_position, compare),
                search_finds::<E, F>(root, 0, root_end, root_position, compare) ==> !descended
                    && search_finds::<E, F>(
                    root,
                    self.inner_iterator.range.start,
                    root_end,
                    self.inner_iterator.position,
                    compare,
                ),
                root_error is Some ==> !descended && search_error::<E, F>(
                    root,
                    self.inner_iterator.range.start,
                    root_end,
                    self.inner_iterator.position,
                    compare,
                ) == root_error,
                !descended ==> forall|e: NtfsError|
                    #[trigger] search_may_fail::<E, F>(
                        root,
                        self.inner_iterator.range.start,
                        root_end,
                        self.inner_iterator.position,
                        compare,
                        e,
                    ) ==> search_may_fail::<E, F>(root, 0, root_end, root_position, compare, e),
                forall|fuel: int|
                    0 <= fuel && #[trigger] search_may_pass::<E, F>(
                        idx,
                        src,
                        self.inner_iterator.data@,
                        self.inner_iterator.range.start,
                        self.inner_iterator.range.end,
                        self.inner_iterator.position,
                        compare,
                        fuel,
                    ) ==> search_may_pass::<E, F>(
                        idx,
                        src,
                        root,
                        0,
                        root_end,
                        root_position,
                        compare,
                        fuel + depth,
                    ),
                root == old(self).spec_index().spec_root_entries(),
                root_end == old(self).spec_index().spec_root_end(),
                root_position == old(self).spec_index().spec_root_entries_position(),
                !descended ==> {
                    &&& self.inner_iterator.data@ == root
                    &&& self.inner_iterator.range.end == root_end
                    &&& node_search_may_pass::<E, F>(
                        root,
                        self.inner_iterator.range.start,
                        root_end,
                        self.inner_iterator.position,
                        compare,
                    ) ==> node_search_may_pass::<E, F>(root, 0, root_end, root_position, compare)
                },
                descended ==> node_search_may_pass::<E, F>(root, 0, root_end, root_position, compare),
                self.inner_iterator.wf(),
                self.spec_index() == old(self).spec_index(),
                fs.source() == old(fs).source(),
                forall|k: &E::KeyType| #[trigger] compare.requires((k,)),
            decreases spec_descents_left(budget), self.inner_iterator.spec_remaining(),
        {
            // A textbook B-tree search would perform a binary search on the entries of a node,
            // but they have variable lengths here.
            let ghost s0 = self.inner_iterator.range.start;
            let ghost p0 = self.inner_iterator.position;
            let ghost d0 = self.inner_iterator.data@;
            let ghost e0 = self.inner_iterator.range.end;
            let ghost b = spec_node_entry(d0, s0, p0)->Ok_0;
            let entry_range = match self.inner_iterator.next() {
                None => {
                    proof {
                        if !descended {
                            assert(node_search_may_pass::<E, F>(root, s0, root_end, p0, compare));
                        }
                        assert(search_may_pass::<E, F>(idx, src, d0, s0, e0, p0, compare, 0));
                        assert(search_may_pass::<E, F>(
                            idx,
                            src,
                            root,
                            0,
                            root_end,
                            root_position,
                            compare,
                            depth,
                        ));
                    }
                    return None;
                },
                Some(Err(e)) => {
                    proof {
                        if !descended {
                            assert(search_may_fail::<E, F>(root, s0, root_end, p0, compare, e));
                        }
                    }
                    return Some(Err(e));
                },
                Some(Ok(entry_range)) => entry_range,
            };
            proof {
                assert(spec_range_bytes(d0, entry_range.range.start, entry_range.range.end) =~= b);
            }
            let (descend, subnode_vcn) = {
                let entry = match entry_range.to_entry(self.inner_iterator.data()) {
                    Ok(entry) => entry,
                    Err(e) => return Some(Err(e)),
                };
                proof {
                    assert(entry.spec_bytes() == b);
                }
                let descend = match entry.key() {
                    Some(Err(e)) => {
                        proof {
                            if !descended {
                                assert(search_may_fail::<E, F>(root, s0, root_end, p0, compare, e));
                            }
                        }
                        return Some(Err(e));
                    },
                    Some(Ok(key)) => {
                        let order = compare(&key);
                        proof {
                            assert(spec_entry_has_key(b, p0, key));
                        }
                        match order {
                            // What we are looking for is this entry.
                            Ordering::Equal => {
                                proof {
                                    assert(spec_entry_has_key(entry.spec_bytes(), entry.spec_position(), key));
                                }
                                // Recreate the entry, so that it borrows from the finder for the returned lifetime.
                                let found = entry_range.to_entry(self.inner_iterator.data());
                                return Some(found);
                            },
                            // What we are looking for comes before this entry, in its sub-node.
                            Ordering::Less => true,
                            // What we are looking for comes after this entry: keep searching this node.
                            Ordering::Greater => false,
                        }
                    },
                    // The last entry of a node has no key: continue in its sub-node.
                    None => true,
                };
                (descend, entry.subnode_vcn())
            };
            proof {
                if !descended {
                    if descend {
                        assert(node_search_may_pass::<E, F>(root, s0, root_end, p0, compare));
                    } else {
                        assert(node_search_may_pass::<E, F>(
                            root,
                            self.inner_iterator.range.start,
                            root_end,
                            self.inner_iterator.position,
                            compare,
                        ) ==> node_search_may_pass::<E, F>(root, s0, root_end, p0, compare));
                    }
                }
                if !descended && !descend {
                    assert forall|e: NtfsError|
                        #[trigger] search_may_fail::<E, F>(
                            root,
                            self.inner_iterator.range.start,
                            root_end,
                            self.inner_iterator.position,
                            compare,
                            e,
                        ) implies search_may_fail::<E, F>(root, 0, root_end, root_position, compare, e) by {
                        assert(search_may_fail::<E, F>(root, s0, root_end, p0, compare, e));
                    }
                }
                if !descend {
                    assert forall|fuel: int|
                        0 <= fuel && #[trigger] search_may_pass::<E, F>(
                            idx,
                            src,
                            self.inner_iterator.data@,
                            self.inner_iterator.range.start,
                            self.inner_iterator.range.end,
                            self.inner_iterator.position,
                            compare,
                            fuel,
                        ) implies search_may_pass::<E, F>(
                        idx,
                        src,
                        root,
                        0,
                        root_end,
                        root_position,
                        compare,
                        fuel + depth,
                    ) by {
                        assert(search_may_pass::<E, F>(idx, src, d0, s0, e0, p0, compare, fuel));
                    }
                }
            }
            if descend {
                let vcn = match subnode_vcn {
                    None => {
                        proof {
                            assert(search_may_pass_below::<E, F>(idx, src, b, p0, compare, 0));
                            assert(search_may_pass::<E, F>(idx, src, d0, s0, e0, p0, compare, 0));
                            assert(search_may_pass::<E, F>(
                                idx,
                                src,
                                root,
                                0,
                                root_end,
                                root_position,
                                compare,
                                depth,
                            ));
                        }
                        return None;
                    },
                    Some(Err(e)) => {
                        proof {
                            if !descended {
                                assert(search_may_fail::<E, F>(root, s0, root_end, p0, compare, e));
                            }
                        }
                        return Some(Err(e));
                    },
                    Some(Ok(vcn)) => vcn,
                };
                self.inner_iterator = match self.index.read_subnode(fs, vcn, &mut budget) {
                    Ok(subnode_iter) => subnode_iter,
                    Err(e) => return Some(Err(e)),
                };
                proof {
                    descended = true;
                    assert forall|fuel: int|
                        0 <= fuel && #[trigger] search_may_pass::<E, F>(
                            idx,
                            src,
                            self.inner_iterator.data@,
                            self.inner_iterator.range.start,
                            self.inner_iterator.range.end,
                            self.inner_iterator.position,
                            compare,
                            fuel,
                        ) implies search_may_pass::<E, F>(
                        idx,
                        src,
                        root,
                        0,
                        root_end,
                        root_position,
                        compare,
                        fuel + depth + 1,
                    ) by {
                        assert(search_may_pass_below::<E, F>(idx, src, b, p0, compare, fuel + 1));
                        assert(search_may_pass::<E, F>(idx, src, d0, s0, e0, p0, compare, fuel + 1));
                    }
                    depth = depth + 1;
                }
            }
        }
    }
}

impl<'n> NtfsFile<'n> {
    /// Returns an [`NtfsIndex`] to iterate this directory and look up files in it,
    /// or [`NtfsError::NotADirectory`] if this file is no directory.
    pub fn directory_index<'f, T>(&'f self, fs: &mut T) -> (r: Result<NtfsIndex<'n, 'f, NtfsFileNameIndex>>) where
        T: Read + Seek,
        requires
            self.wf(),
        ensures
            final(fs).source() == old(fs).source(),
            !self.spec_is_directory() ==> r == Err::<NtfsIndex<'n, 'f, NtfsFileNameIndex>, NtfsError>(
                NtfsError::NotADirectory { position: self.spec_position() },
            ),
            r matches Ok(ix) ==> ix.spec_allocation_item() matches Some(item) ==> item.spec_attribute_file()
                == *self,
    {
        if !self.is_directory() {
            return Err(NtfsError::NotADirectory { position: self.position() });
        }
        // A File Record may contain multiple indexes, so we have to match the name of the directory index.
        let directory_index_name = "$I30";
        // The IndexRoot attribute is always resident and has to exist for every directory.
        let index_root_item = match self.find_attribute(fs, NtfsAttributeType::IndexRoot, Some(directory_index_name)) {
            Ok(item) => item,
            Err(e) => return Err(e),
        };
        let is_large_index = {
            let index_root_attribute = match index_root_item.to_attribute() {
                Ok(attribute) => attribute,
                Err(e) => return Err(e),
            };
            let index_root = match index_root_attribute.resident_structured_value::<NtfsIndexRoot>() {
                Ok(index_root) => index_root,
                Err(e) => return Err(e),
            };
            index_root.is_large_index()
        };
        // The IndexAllocation attribute is only required for "large" indexes.
        // It is always non-resident and may even be in an Attribute List.
        let mut index_allocation_item = None;
        if is_large_index {
            index_allocation_item = match self.find_attribute(
                fs,
                NtfsAttributeType::IndexAllocation,
                Some(directory_index_name),
            ) {
                Ok(item) => Some(item),
                Err(e) => return Err(e),
            };
        }
        NtfsIndex::<NtfsFileNameIndex>::new(index_root_item, index_allocation_item)
    }
}

} // verus!
