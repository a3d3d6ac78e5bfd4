//! Fixed-stride views over compact contact records. They guarantee
//! structural validity (whole records, exact entry lengths) and leave the
//! address and port bytes uninterpreted for consumers.

use vstd::prelude::*;

verus! {

/// Width of one compact node record: a 20-byte node id, a 4-byte address and
/// a 2-byte port.
pub const COMPACT_NODE_RECORD_LEN: usize = 26;

/// Width of one compact peer record: a 4-byte address and a 2-byte port.
pub const COMPACT_PEER_RECORD_LEN: usize = 6;

/// A view over concatenated compact node records: a byte string whose length
/// is a whole number of records.
#[derive(Debug, Clone, PartialEq, Eq)]
pub struct CompactNodeInfo {
    nodes: Vec<u8>,
}

impl View for CompactNodeInfo {
    type V = Seq<u8>;

    closed spec fn view(&self) -> Seq<u8> {
        self.nodes@
    }
}

impl CompactNodeInfo {
    /// Structural validity: the bytes hold a whole number of records.
    pub open spec fn wf(&self) -> bool {
        self@.len() % (COMPACT_NODE_RECORD_LEN as nat) == 0
    }

    pub(crate) fn from_vec(nodes: Vec<u8>) -> (r: CompactNodeInfo)
        requires
            nodes@.len() % (COMPACT_NODE_RECORD_LEN as nat) == 0,
        ensures
            r@ == nodes@,
            r.wf(),
    {
        CompactNodeInfo { nodes }
    }

    /// The underlying concatenated record bytes.
    pub fn nodes(&self) -> (r: &[u8])
        ensures
            r@ == self@,
    {
        self.nodes.as_slice()
    }

    /// How many whole records the bytes hold.
    pub fn record_count(&self) -> (r: usize)
        ensures
            r == self@.len() / (COMPACT_NODE_RECORD_LEN as nat),
    {
        self.nodes.len() / COMPACT_NODE_RECORD_LEN
    }
}

/// A view over validated peer contact records: byte strings of exactly one
/// record each.
#[derive(Debug, Clone, PartialEq, Eq)]
pub struct CompactValueInfo {
    values: Vec<Vec<u8>>,
}

impl View for CompactValueInfo {
    type V = Seq<Seq<u8>>;

    closed spec fn view(&self) -> Seq<Seq<u8>> {
        self.values.deep_view()
    }
}

impl CompactValueInfo {
    /// Structural validity: every entry is exactly one record long.
    pub open spec fn wf(&self) -> bool {
        forall|i: int|
            0 <= i < self@.len() ==> (#[trigger] self@[i]).len() == COMPACT_PEER_RECORD_LEN as nat
    }

    pub(crate) fn from_vec(values: Vec<Vec<u8>>) -> (r: CompactValueInfo)
        requires
            forall|i: int|
                0 <= i < values.deep_view().len() ==> (#[trigger] values.deep_view()[i]).len()
                    == COMPACT_PEER_RECORD_LEN as nat,
        ensures
            r@ == values.deep_view(),
            r.wf(),
    {
        CompactValueInfo { values }
    }

    /// The underlying list of validated record entries.
    pub fn values(&self) -> (r: &Vec<Vec<u8>>)
        ensures
            r.deep_view() == self@,
    {
        &self.values
    }

    /// How many records the list holds.
    pub fn value_count(&self) -> (r: usize)
        ensures
            r == self@.len(),
    {
        self.values.len()
    }
}

} // verus!
