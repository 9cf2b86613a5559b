//! The label of a history tree node, and the per-epoch state of a node
//! and of its children.
//!
//! A node label is a binary string: since it may carry any number of
//! leading zeros, a bare integer cannot represent it, so the label keeps
//! the bits in a word together with an explicit length.

use crate::types::{bytes_equal, clone_bytes};
use vstd::prelude::*;

verus! {

/// Number of children of an interior node of the history tree.
pub const ARITY: usize = 2;

/// Direction of one label with respect to another: the next bit below the
/// prefix, or nothing when there is no such bit.
pub type Direction = Option<usize>;

/// The label of a history tree node: a binary string of `len` bits stored
/// in the low end of `val`, most significant bit first.
#[derive(Debug, Copy, Clone, PartialEq, Eq, Hash, Structural)]
pub struct NodeLabel {
    /// The bits of the binary string, as an unsigned word.
    pub val: u64,
    /// How many bits of the string are significant.
    pub len: u32,
}

impl NodeLabel {
    /// A label fits the word it is stored in.
    pub open spec fn fits(self) -> bool {
        self.len <= 64
    }

    /// The bit of the label at `index`, most significant first; positions
    /// at or past the length read as zero.
    pub open spec fn spec_bit_at(self, index: u32) -> u64
        recommends
            self.fits(),
    {
        if index >= self.len {
            0
        } else {
            (self.val >> ((self.len - index - 1) as u64)) & 1
        }
    }

    /// The label's first `prefix_len` bits; the whole label when
    /// `prefix_len` is out of range.
    pub open spec fn spec_prefix(self, prefix_len: u32) -> NodeLabel
        recommends
            self.fits(),
    {
        if prefix_len >= self.len {
            self
        } else if prefix_len == 0 {
            NodeLabel { val: 0, len: 0 }
        } else {
            NodeLabel { val: self.val >> ((self.len - prefix_len) as u64), len: prefix_len }
        }
    }

    /// The shorter of the two labels' lengths.
    pub open spec fn spec_shorter_len(self, other: NodeLabel) -> u32 {
        if self.len < other.len {
            self.len
        } else {
            other.len
        }
    }

    /// Where the bitwise walk of the two labels first stops, starting
    /// from position `k`: the first position, up to one past the shorter
    /// length, whose (zero-padded) bits differ.
    pub open spec fn spec_common_len_from(self, other: NodeLabel, k: nat) -> nat
        recommends
            self.fits(),
            other.fits(),
            k <= self.spec_shorter_len(other) + 1,
        decreases self.spec_shorter_len(other) + 1 - k,
    {
        if k <= self.spec_shorter_len(other) && self.spec_bit_at(k as u32) == other.spec_bit_at(
            k as u32,
        ) {
            self.spec_common_len_from(other, k + 1)
        } else {
            k
        }
    }

    /// The direction of `other` with respect to `self`: the bit of
    /// `other` just below `self`'s length when `self` is a proper prefix
    /// of `other`, and nothing otherwise.
    pub open spec fn spec_dir(self, other: NodeLabel) -> Direction
        recommends
            self.fits(),
            other.fits(),
    {
        if self.len >= other.len {
            None
        } else if other.spec_prefix(self.len) != self {
            None
        } else {
            Some(other.spec_bit_at(self.len) as usize)
        }
    }

    /// Creates a new label with the given bits and length.
    pub fn new(val: u64, len: u32) -> (r: Self)
        ensures
            r.val == val,
            r.len == len,
    {
        NodeLabel { val, len }
    }

    /// The length of the label, in bits.
    pub fn get_len(&self) -> (r: u32)
        ensures
            r == self.len,
    {
        self.len
    }

    /// The bits of the label, as an unsigned word.
    pub fn get_val(&self) -> (r: u64)
        ensures
            r == self.val,
    {
        self.val
    }

    /// The bit at the given index, and 0 on an out-of-range index.
    pub fn get_bit_at(&self, index: u32) -> (r: u64)
        requires
            self.fits(),
        ensures
            r == self.spec_bit_at(index),
            r == 0 || r == 1,
    {
        if index >= self.len {
            return 0;
        }
        let r = (self.val >> ((self.len - index - 1) as u64)) & 1;
        proof {
            let v = self.val;
            let shift = (self.len - index - 1) as u64;
            assert((v >> shift) & 1 < 2) by (bit_vector);
        }
        r
    }

    /// The prefix of the given length, and the entire label on an
    /// out-of-range length.
    pub fn get_prefix(&self, len: u32) -> (r: Self)
        requires
            self.fits(),
        ensures
            r == self.spec_prefix(len),
            r.fits(),
    {
        if len >= self.get_len() {
            return *self;
        }
        if len == 0 {
            return Self::new(0, 0);
        }
        Self::new(self.val >> ((self.len - len) as u64), len)
    }

    /// The longest common prefix of the two labels, as the bitwise walk
    /// computes it: the walk pads both labels with zeros one position past
    /// the shorter length, so a longer label whose next bits are zero can
    /// contribute them to the result.
    pub fn get_longest_common_prefix(&self, other: Self) -> (r: Self)
        requires
            self.fits(),
            other.fits(),
        ensures
            r == self.spec_prefix(self.spec_common_len_from(other, 0) as u32),
            r.fits(),
    {
        let shorter_len = if self.get_len() < other.get_len() {
            self.get_len()
        } else {
            other.get_len()
        };

        let mut prefix_len: u32 = 0;
        while prefix_len <= shorter_len && self.get_bit_at(prefix_len) == other.get_bit_at(
            prefix_len,
        )
            invariant
                self.fits(),
                other.fits(),
                shorter_len == self.spec_shorter_len(other),
                prefix_len <= shorter_len + 1,
                self.spec_common_len_from(other, 0) == self.spec_common_len_from(
                    other,
                    prefix_len as nat,
                ),
            decreases shorter_len + 1 - prefix_len,
        {
            prefix_len = prefix_len + 1;
        }

        self.get_prefix(prefix_len)
    }

    /// The longest common prefix of the two labels, together with the
    /// direction of `other` and of `self` with respect to it.
    pub fn get_longest_common_prefix_and_dirs(&self, other: Self) -> (r: (
        Self,
        Direction,
        Direction,
    ))
        requires
            self.fits(),
            other.fits(),
        ensures
            ({
                let lcp = self.spec_prefix(self.spec_common_len_from(other, 0) as u32);
                &&& r.0 == lcp
                &&& r.1 == lcp.spec_dir(other)
                &&& r.2 == lcp.spec_dir(*self)
            }),
    {
        let lcp_label = self.get_longest_common_prefix(other);
        let dir_other = lcp_label.get_dir(other);
        let dir_self = lcp_label.get_dir(*self);
        (lcp_label, dir_other, dir_self)
    }

    /// The direction of `other` with respect to `self`, if `self` is a
    /// proper prefix of `other`, and nothing otherwise.
    pub fn get_dir(&self, other: Self) -> (r: Direction)
        requires
            self.fits(),
            other.fits(),
        ensures
            r == self.spec_dir(other),
    {
        if self.get_len() >= other.get_len() {
            return None;
        }
        if !(other.get_prefix(self.get_len()) == *self) {
            return None;
        }
        let bit = other.get_bit_at(self.get_len());
        Some(bit as usize)
    }
}

/// The kind of record a storage key addresses.
#[derive(Debug, Copy, Clone, PartialEq, Eq, Structural)]
pub enum StorageType {
    /// The append-only tree itself.
    Azks,
    /// A node of the history tree.
    HistoryTreeNode,
    /// The state of a history tree node at one epoch.
    HistoryNodeState,
    /// The state of a stored value at one epoch.
    ValueState,
}

/// The byte tag a storage type is written under.
pub open spec fn spec_storage_type_byte(storage_type: StorageType) -> u8 {
    match storage_type {
        StorageType::Azks => 1,
        StorageType::HistoryTreeNode => 2,
        StorageType::HistoryNodeState => 3,
        StorageType::ValueState => 4,
    }
}

/// The byte tag a storage type is written under.
pub fn storage_type_byte(storage_type: StorageType) -> (r: u8)
    ensures
        r == spec_storage_type_byte(storage_type),
{
    match storage_type {
        StorageType::Azks => 1,
        StorageType::HistoryTreeNode => 2,
        StorageType::HistoryNodeState => 3,
        StorageType::ValueState => 4,
    }
}

/// The big-endian bytes of a 32-bit word.
pub open spec fn u32_be_bytes(x: u32) -> Seq<u8> {
    seq![(x >> 24) as u8, (x >> 16) as u8, (x >> 8) as u8, x as u8]
}

/// The big-endian bytes of a 64-bit word.
pub open spec fn u64_be_bytes(x: u64) -> Seq<u8> {
    seq![
        (x >> 56) as u8,
        (x >> 48) as u8,
        (x >> 40) as u8,
        (x >> 32) as u8,
        (x >> 24) as u8,
        (x >> 16) as u8,
        (x >> 8) as u8,
        x as u8,
    ]
}

/// Appends the big-endian bytes of a 32-bit word.
fn push_u32_be(out: &mut Vec<u8>, x: u32)
    ensures
        final(out)@ == old(out)@ + u32_be_bytes(x),
{
    out.push((x >> 24) as u8);
    out.push((x >> 16) as u8);
    out.push((x >> 8) as u8);
    out.push(x as u8);
    proof {
        assert(out@ =~= old(out)@ + u32_be_bytes(x));
    }
}

/// Appends the big-endian bytes of a 64-bit word.
fn push_u64_be(out: &mut Vec<u8>, x: u64)
    ensures
        final(out)@ == old(out)@ + u64_be_bytes(x),
{
    out.push((x >> 56) as u8);
    out.push((x >> 48) as u8);
    out.push((x >> 40) as u8);
    out.push((x >> 32) as u8);
    out.push((x >> 24) as u8);
    out.push((x >> 16) as u8);
    out.push((x >> 8) as u8);
    out.push(x as u8);
    proof {
        assert(out@ =~= old(out)@ + u64_be_bytes(x));
    }
}

/// Storage key of a node state: the node label and the epoch.
#[derive(Copy, Clone, PartialEq, Eq, Hash, Debug, Structural)]
pub struct NodeStateKey(pub NodeLabel, pub u64);

/// Whether a child state is a real child or a placeholder, as under the
/// children of a leaf.
#[derive(Debug, Clone, Copy, PartialEq, Eq, Structural)]
pub enum DummyChildState {
    /// A placeholder child, as under a leaf.
    Dummy,
    /// A real child.
    Real,
}

/// The state of the child of a node at a given epoch: everything its
/// parent needs about it in an operation.
#[derive(Debug)]
pub struct HistoryChildState {
    /// Whether this child is a placeholder.
    pub dummy_marker: DummyChildState,
    /// Where the child node with this label is located.
    pub location: usize,
    /// The child node's label.
    pub label: NodeLabel,
    /// The child node's hash value.
    pub hash_val: Vec<u8>,
    /// The child node's state epoch pointed to here.
    pub epoch_version: u64,
}

/// Field-for-field equality of two child states.
pub open spec fn child_state_equal(a: HistoryChildState, b: HistoryChildState) -> bool {
    &&& a.dummy_marker == b.dummy_marker
    &&& a.location == b.location
    &&& a.label == b.label
    &&& a.hash_val@ == b.hash_val@
    &&& a.epoch_version == b.epoch_version
}

/// A child state standing for the absence of a child, holding the given
/// hash of the empty payload.
pub open spec fn dummy_child_state_with(c: HistoryChildState, hash: Seq<u8>) -> bool {
    &&& c.dummy_marker == DummyChildState::Dummy
    &&& c.location == 0
    &&& c.label == (NodeLabel { val: 0, len: 0 })
    &&& c.hash_val@ == hash
    &&& c.epoch_version == 0
}

impl HistoryChildState {
    /// Instantiates a new child state with the given label and hash value.
    pub fn new(loc: usize, label: NodeLabel, hash_val: Vec<u8>, ep: u64) -> (r: Self)
        ensures
            r.dummy_marker == DummyChildState::Real,
            r.location == loc,
            r.label == label,
            r.hash_val@ == hash_val@,
            r.epoch_version == ep,
    {
        HistoryChildState {
            dummy_marker: DummyChildState::Real,
            location: loc,
            label,
            hash_val,
            epoch_version: ep,
        }
    }

    /// Creates a placeholder child state signifying a node without
    /// children, holding the given hash of the empty payload.
    pub fn new_dummy(empty_hash: Vec<u8>) -> (r: Self)
        ensures
            dummy_child_state_with(r, empty_hash@),
    {
        HistoryChildState {
            dummy_marker: DummyChildState::Dummy,
            location: 0,
            label: NodeLabel::new(0, 0),
            hash_val: empty_hash,
            epoch_version: 0,
        }
    }
}

impl Clone for HistoryChildState {
    /// Copies every field of the child state.
    fn clone(&self) -> (r: Self)
        ensures
            child_state_equal(r, *self),
    {
        Self {
            dummy_marker: self.dummy_marker,
            location: self.location,
            label: self.label,
            hash_val: clone_bytes(&self.hash_val),
            epoch_version: self.epoch_version,
        }
    }
}

impl PartialEq for HistoryChildState {
    fn eq(&self, other: &Self) -> (r: bool) {
        self.dummy_marker == other.dummy_marker && self.location == other.location && self.label
            == other.label && bytes_equal(&self.hash_val, &other.hash_val) && self.epoch_version
            == other.epoch_version
    }
}

impl vstd::std_specs::cmp::PartialEqSpecImpl for HistoryChildState {
    open spec fn obeys_eq_spec() -> bool {
        true
    }

    open spec fn eq_spec(&self, other: &Self) -> bool {
        child_state_equal(*self, *other)
    }
}

/// Storage key of a child state: serialized tree identifier, node
/// location, epoch and child index.
#[derive(Clone, PartialEq, Eq, Hash)]
pub struct ChildStateKey(
    pub(crate) Vec<u8>,
    pub(crate) usize,
    pub(crate) usize,
    pub(crate) usize,
);

/// The state of a history tree node at a given epoch: its own hash, the
/// states of its children, and its storage key.  With these at hand the
/// tree algorithms can build proofs for any epoch without walking the
/// history tree for siblings.
#[derive(Debug)]
pub struct HistoryNodeState {
    /// The hash at this node state.
    pub value: Vec<u8>,
    /// The states of the children at this epoch.
    pub child_states: Vec<HistoryChildState>,
    /// The unique storage key of this state.
    pub key: NodeStateKey,
}

/// Field-for-field equality of two node states.
pub open spec fn node_state_equal(a: HistoryNodeState, b: HistoryNodeState) -> bool {
    &&& a.value@ == b.value@
    &&& a.key == b.key
    &&& a.child_states@.len() == b.child_states@.len()
    &&& forall|i: int|
        0 <= i < a.child_states@.len() ==> child_state_equal(
            #[trigger] a.child_states@[i],
            b.child_states@[i],
        )
}

impl HistoryNodeState {
    /// Creates a new node state under the given key.  The hash of the
    /// empty leaf payload comes from the caller's hash configuration; it
    /// becomes the node's value and fills one placeholder child per
    /// direction.
    pub fn new(empty_hash: Vec<u8>, key: NodeStateKey) -> (r: Self)
        ensures
            r.value@ == empty_hash@,
            r.key == key,
            r.child_states@.len() == ARITY,
            forall|i: int|
                0 <= i < ARITY ==> dummy_child_state_with(
                    #[trigger] r.child_states@[i],
                    empty_hash@,
                ),
    {
        let mut children: Vec<HistoryChildState> = Vec::new();
        let mut i: usize = 0;
        while i < ARITY
            invariant
                i <= ARITY,
                children@.len() == i,
                forall|j: int|
                    0 <= j < i ==> dummy_child_state_with(
                        #[trigger] children@[j],
                        empty_hash@,
                    ),
        decreases ARITY - i,
        {
            children.push(HistoryChildState::new_dummy(clone_bytes(&empty_hash)));
            i = i + 1;
        }
        HistoryNodeState { value: empty_hash, child_states: children, key }
    }

    /// The kind of storage record a node state is kept under.
    pub fn data_type() -> (r: StorageType)
        ensures
            r == StorageType::HistoryNodeState,
    {
        StorageType::HistoryNodeState
    }

    /// The storage key of this state.
    pub fn get_id(&self) -> (r: NodeStateKey)
        ensures
            r == self.key,
    {
        self.key
    }

    /// The full binary storage key of a node state: the storage type tag,
    /// then the label length, the label bits and the epoch, big-endian.
    pub fn get_full_binary_key_id(key: &NodeStateKey) -> (r: Vec<u8>)
        ensures
            r@ == seq![spec_storage_type_byte(StorageType::HistoryNodeState)] + u32_be_bytes(
                key.0.len,
            ) + u64_be_bytes(key.0.val) + u64_be_bytes(key.1),
    {
        let mut result: Vec<u8> = Vec::new();
        result.push(storage_type_byte(StorageType::HistoryNodeState));
        push_u32_be(&mut result, key.0.len);
        push_u64_be(&mut result, key.0.val);
        push_u64_be(&mut result, key.1);
        proof {
            assert(result@ =~= seq![
                spec_storage_type_byte(StorageType::HistoryNodeState),
            ] + u32_be_bytes(key.0.len) + u64_be_bytes(key.0.val) + u64_be_bytes(key.1));
        }
        result
    }

    /// A copy of the child state of this node in the given direction.
    pub fn get_child_state_in_dir(&self, dir: usize) -> (r: HistoryChildState)
        requires
            dir < self.child_states@.len(),
        ensures
            child_state_equal(r, self.child_states@[dir as int]),
    {
        self.child_states[dir].clone()
    }
}

impl Clone for HistoryNodeState {
    /// Copies the node state, child states included.
    fn clone(&self) -> (r: Self)
        ensures
            node_state_equal(r, *self),
    {
        let mut children: Vec<HistoryChildState> = Vec::new();
        let mut i: usize = 0;
        while i < self.child_states.len()
            invariant
                i <= self.child_states@.len(),
                children@.len() == i,
                forall|j: int|
                    0 <= j < i ==> child_state_equal(
                        #[trigger] children@[j],
                        self.child_states@[j],
                    ),
            decreases self.child_states@.len() - i,
        {
            children.push(self.child_states[i].clone());
            i = i + 1;
        }
        Self { value: clone_bytes(&self.value), child_states: children, key: self.key }
    }
}

} // verus!
