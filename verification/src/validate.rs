//! The validation helper shared by the two message directions: dictionary
//! lookup with type coercion, and length-checked field validation. Every
//! function takes the transaction id of the message, which ends up in any
//! error it produces.

use vstd::prelude::*;
use vstd::pervasive::unreached;

use crate::bencode::{clone_bytes, spec_lookup, BencodeDict, BencodeValue};
use crate::compact::{
    CompactNodeInfo, CompactValueInfo, COMPACT_NODE_RECORD_LEN, COMPACT_PEER_RECORD_LEN,
};
use crate::error::{DhtError, DhtErrorKind, ErrorKindModel, ErrorModel};

verus! {

/// Required length of a node id or content hash.
pub const NODE_ID_LEN: usize = 20;

/// The byte string bound to `key`, or the error the lookup produces: missing
/// key, or a value of another shape.
pub open spec fn spec_lookup_bytes(
    s: Seq<(Vec<u8>, BencodeValue)>,
    key: Seq<u8>,
    trans_id: Seq<u8>,
) -> Result<Seq<u8>, ErrorModel> {
    match spec_lookup(s, key) {
        Option::None => Err(
            ErrorModel { kind: ErrorKindModel::MissingKey { key }, trans_id },
        ),
        Option::Some(v) => match v {
            BencodeValue::Bytes(b) => Ok(b@),
            _ => Err(ErrorModel { kind: ErrorKindModel::WrongType { key }, trans_id }),
        },
    }
}

/// The list bound to `key`, or the error the lookup produces.
pub open spec fn spec_lookup_list(
    s: Seq<(Vec<u8>, BencodeValue)>,
    key: Seq<u8>,
    trans_id: Seq<u8>,
) -> Result<Seq<BencodeValue>, ErrorModel> {
    match spec_lookup(s, key) {
        Option::None => Err(
            ErrorModel { kind: ErrorKindModel::MissingKey { key }, trans_id },
        ),
        Option::Some(v) => match v {
            BencodeValue::List(l) => Ok(l@),
            _ => Err(ErrorModel { kind: ErrorKindModel::WrongType { key }, trans_id }),
        },
    }
}

/// An identifier is valid exactly when it is [`NODE_ID_LEN`] bytes long.
pub open spec fn spec_validate_node_id(id: Seq<u8>, trans_id: Seq<u8>) -> Result<(), ErrorModel> {
    if id.len() == NODE_ID_LEN as nat {
        Ok(())
    } else {
        Err(
            ErrorModel {
                kind: ErrorKindModel::InvalidIdentifierLength {
                    expected: NODE_ID_LEN as int,
                    actual: id.len() as int,
                },
                trans_id,
            },
        )
    }
}

/// A "nodes" byte string is valid exactly when it is a whole number of
/// compact node records.
pub open spec fn spec_validate_nodes(nodes: Seq<u8>, trans_id: Seq<u8>) -> Result<
    Seq<u8>,
    ErrorModel,
> {
    if nodes.len() % (COMPACT_NODE_RECORD_LEN as nat) == 0 {
        Ok(nodes)
    } else {
        Err(ErrorModel { kind: ErrorKindModel::InvalidNodesEncoding, trans_id })
    }
}

/// One "values" entry is acceptable exactly when it is a byte string of one
/// compact peer record.
pub open spec fn value_entry_ok(v: BencodeValue) -> bool {
    v matches BencodeValue::Bytes(b) && b@.len() == COMPACT_PEER_RECORD_LEN as nat
}

/// Every entry of the list is acceptable.
pub open spec fn spec_values_ok(s: Seq<BencodeValue>) -> bool {
    forall|i: int| 0 <= i < s.len() ==> value_entry_ok(#[trigger] s[i])
}

/// The position of the first unacceptable entry.
pub open spec fn spec_first_bad_value(s: Seq<BencodeValue>) -> int
    decreases s.len(),
{
    if s.len() == 0 {
        0
    } else if !value_entry_ok(s[0]) {
        0
    } else {
        1 + spec_first_bad_value(s.skip(1))
    }
}

/// The byte content of one entry (empty for an entry of another shape).
pub open spec fn spec_bytes_of(v: BencodeValue) -> Seq<u8> {
    match v {
        BencodeValue::Bytes(b) => b@,
        _ => Seq::<u8>::empty(),
    }
}

/// The byte contents of all entries.
pub open spec fn spec_value_bytes(s: Seq<BencodeValue>) -> Seq<Seq<u8>> {
    s.map_values(|v: BencodeValue| spec_bytes_of(v))
}

/// A "values" list is valid exactly when every entry is a byte string of one
/// record; otherwise the first offending position is reported.
pub open spec fn spec_validate_values(s: Seq<BencodeValue>, trans_id: Seq<u8>) -> Result<
    Seq<Seq<u8>>,
    ErrorModel,
> {
    if spec_values_ok(s) {
        Ok(spec_value_bytes(s))
    } else {
        Err(
            ErrorModel {
                kind: ErrorKindModel::InvalidValueEncoding { index: spec_first_bad_value(s) },
                trans_id,
            },
        )
    }
}

proof fn lemma_first_bad_value(s: Seq<BencodeValue>, i: int)
    requires
        0 <= i < s.len(),
        !value_entry_ok(s[i]),
        forall|j: int| 0 <= j < i ==> value_entry_ok(#[trigger] s[j]),
    ensures
        spec_first_bad_value(s) == i,
    decreases i,
{
    if i > 0 {
        assert(value_entry_ok(s[0]));
        assert forall|j: int| 0 <= j < i - 1 implies value_entry_ok(#[trigger] s.skip(1)[j]) by {
            assert(s.skip(1)[j] == s[j + 1]);
        }
        assert(s.skip(1)[i - 1] == s[i]);
        lemma_first_bad_value(s.skip(1), i - 1);
    }
}

/// Returns the byte string bound to `key`, or fails with the missing-key or
/// wrong-type error.
pub fn lookup_and_convert_bytes<'x>(
    dict: &'x BencodeDict,
    key: &[u8],
    trans_id: &[u8],
) -> (r: Result<&'x Vec<u8>, DhtError>)
    ensures
        r matches Ok(b) ==> spec_lookup_bytes(dict.entries@, key@, trans_id@) == Ok::<
            Seq<u8>,
            ErrorModel,
        >(b@),
        r matches Err(e) ==> spec_lookup_bytes(dict.entries@, key@, trans_id@) == Err::<
            Seq<u8>,
            ErrorModel,
        >(e@),
{
    match dict.lookup(key) {
        Option::Some(v) => match v {
            BencodeValue::Bytes(b) => Ok(b),
            _ => Err(
                DhtError {
                    kind: DhtErrorKind::WrongType { key: clone_bytes(key) },
                    trans_id: clone_bytes(trans_id),
                },
            ),
        },
        Option::None => Err(
            DhtError {
                kind: DhtErrorKind::MissingKey { key: clone_bytes(key) },
                trans_id: clone_bytes(trans_id),
            },
        ),
    }
}

/// Returns the list bound to `key`, or fails with the missing-key or
/// wrong-type error.
pub fn lookup_and_convert_list<'x>(
    dict: &'x BencodeDict,
    key: &[u8],
    trans_id: &[u8],
) -> (r: Result<&'x Vec<BencodeValue>, DhtError>)
    ensures
        r matches Ok(l) ==> spec_lookup_list(dict.entries@, key@, trans_id@) == Ok::<
            Seq<BencodeValue>,
            ErrorModel,
        >(l@),
        r matches Err(e) ==> spec_lookup_list(dict.entries@, key@, trans_id@) == Err::<
            Seq<BencodeValue>,
            ErrorModel,
        >(e@),
{
    match dict.lookup(key) {
        Option::Some(v) => match v {
            BencodeValue::List(l) => Ok(l),
            _ => Err(
                DhtError {
                    kind: DhtErrorKind::WrongType { key: clone_bytes(key) },
                    trans_id: clone_bytes(trans_id),
                },
            ),
        },
        Option::None => Err(
            DhtError {
                kind: DhtErrorKind::MissingKey { key: clone_bytes(key) },
                trans_id: clone_bytes(trans_id),
            },
        ),
    }
}

/// Succeeds exactly when the identifier is [`NODE_ID_LEN`] bytes long;
/// otherwise fails with the invalid-identifier-length error carrying the
/// expected and the actual length.
pub fn validate_node_id(node_id: &[u8], trans_id: &[u8]) -> (r: Result<(), DhtError>)
    ensures
        r is Ok <==> node_id@.len() == NODE_ID_LEN as nat,
        r matches Err(e) ==> spec_validate_node_id(node_id@, trans_id@) == Err::<
            (),
            ErrorModel,
        >(e@),
{
    if node_id.len() == NODE_ID_LEN {
        Ok(())
    } else {
        Err(
            DhtError {
                kind: DhtErrorKind::InvalidIdentifierLength {
                    expected: NODE_ID_LEN,
                    actual: node_id.len(),
                },
                trans_id: clone_bytes(trans_id),
            },
        )
    }
}

/// Succeeds, with a record view over the bytes, exactly when the byte string
/// is a whole number of compact node records; otherwise fails with the
/// invalid-nodes-encoding error.
pub fn validate_nodes(nodes: &[u8], trans_id: &[u8]) -> (r: Result<CompactNodeInfo, DhtError>)
    ensures
        r is Ok <==> nodes@.len() % (COMPACT_NODE_RECORD_LEN as nat) == 0,
        r matches Ok(n) ==> n@ == nodes@ && n.wf(),
        r matches Err(e) ==> spec_validate_nodes(nodes@, trans_id@) == Err::<
            Seq<u8>,
            ErrorModel,
        >(e@),
{
    if nodes.len() % COMPACT_NODE_RECORD_LEN == 0 {
        Ok(CompactNodeInfo::from_vec(clone_bytes(nodes)))
    } else {
        Err(
            DhtError {
                kind: DhtErrorKind::InvalidNodesEncoding,
                trans_id: clone_bytes(trans_id),
            },
        )
    }
}

/// Succeeds, with the validated record entries, exactly when every list
/// entry is a byte string of one compact peer record; otherwise fails with
/// the invalid-value-encoding error carrying the first offending position.
pub fn validate_values(values: &Vec<BencodeValue>, trans_id: &[u8]) -> (r: Result<
    CompactValueInfo,
    DhtError,
>)
    ensures
        r is Ok <==> spec_values_ok(values@),
        r matches Ok(v) ==> v@ == spec_value_bytes(values@) && v.wf(),
        r matches Err(e) ==> spec_validate_values(values@, trans_id@) == Err::<
            Seq<Seq<u8>>,
            ErrorModel,
        >(e@),
{
    let entries = values.as_slice();
    let mut out: Vec<Vec<u8>> = Vec::new();
    let mut i: usize = 0;
    while i < entries.len()
        invariant
            i <= entries@.len(),
            entries@ == values@,
            out@.len() == i as nat,
            forall|j: int| 0 <= j < i ==> value_entry_ok(#[trigger] values@[j]),
            forall|j: int| 0 <= j < i ==> (#[trigger] out@[j])@ == spec_bytes_of(values@[j]),
        decreases entries@.len() - i,
    {
        let entry = &entries[i];
        let good = match entry {
            BencodeValue::Bytes(b) => b.len() == COMPACT_PEER_RECORD_LEN,
            _ => false,
        };
        proof {
            assert(good == value_entry_ok(values@[i as int]));
        }
        if !good {
            proof {
                lemma_first_bad_value(values@, i as int);
            }
            return Err(
                DhtError {
                    kind: DhtErrorKind::InvalidValueEncoding { index: i },
                    trans_id: clone_bytes(trans_id),
                },
            );
        }
        match entry {
            BencodeValue::Bytes(b) => {
                let copied = clone_bytes(b.as_slice());
                out.push(copied);
                proof {
                    assert(out@[i as int]@ == spec_bytes_of(values@[i as int]));
                }
            },
            _ => {
                unreached::<()>();
            },
        };
        i += 1;
    }
    proof {
        assert forall|j: int| 0 <= j < values@.len() implies out.deep_view()[j]
            == spec_value_bytes(values@)[j] by {
            assert(out.deep_view()[j] == out@[j].deep_view());
            assert(out@[j].deep_view() =~= out@[j]@);
        }
        assert(out.deep_view() =~= spec_value_bytes(values@));
    }
    Ok(CompactValueInfo::from_vec(out))
}

} // verus!
