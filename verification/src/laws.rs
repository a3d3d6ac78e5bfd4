//! The laws this layer obeys, proved once and for all: encoded messages
//! parse back to the value they came from, a response needs a payload, and
//! each payload shape is resolved as the present keys dictate.

use vstd::prelude::*;

use crate::bencode::{spec_lookup, BencodeValue};
use crate::compact::{COMPACT_NODE_RECORD_LEN, COMPACT_PEER_RECORD_LEN};
use crate::error::{ErrorKindModel, ErrorModel};
use crate::get_peers::{
    is_bytes_value, is_request_args, is_response_args, is_values_value, payload_entries_at,
    spec_info_wf, spec_lookup_bytes_opt, spec_lookup_list_opt, spec_parse_request,
    spec_parse_response, InfoTypeModel, RequestModel, ResponseModel,
};
use crate::message::{
    spec_info_hash_key, spec_node_id_key, spec_nodes_key, spec_token_key, spec_values_key,
};
use crate::validate::{
    spec_lookup_bytes, spec_validate_values, spec_value_bytes, value_entry_ok, NODE_ID_LEN,
};

verus! {

/// The list entries of a dictionary value (empty for another shape).
spec fn spec_list_of(v: BencodeValue) -> Seq<BencodeValue> {
    match v {
        BencodeValue::List(l) => l@,
        _ => Seq::<BencodeValue>::empty(),
    }
}

proof fn lemma_lookup_at(s: Seq<(Vec<u8>, BencodeValue)>, k: Seq<u8>, i: int)
    requires
        0 <= i < s.len(),
        s[i].0@ == k,
        forall|j: int| 0 <= j < i ==> (#[trigger] s[j]).0@ != k,
    ensures
        spec_lookup(s, k) == Some(s[i].1),
    decreases i,
{
    if i > 0 {
        assert(s.skip(1)[i - 1] == s[i]);
        assert forall|j: int| 0 <= j < i - 1 implies (#[trigger] s.skip(1)[j]).0@ != k by {
            assert(s.skip(1)[j] == s[j + 1]);
        }
        lemma_lookup_at(s.skip(1), k, i - 1);
    }
}

proof fn lemma_lookup_absent(s: Seq<(Vec<u8>, BencodeValue)>, k: Seq<u8>)
    requires
        forall|j: int| 0 <= j < s.len() ==> (#[trigger] s[j]).0@ != k,
    ensures
        spec_lookup(s, k) is None,
    decreases s.len(),
{
    if s.len() > 0 {
        assert forall|j: int| 0 <= j < s.skip(1).len() implies (#[trigger] s.skip(1)[j]).0@
            != k by {
            assert(s.skip(1)[j] == s[j + 1]);
        }
        lemma_lookup_absent(s.skip(1), k);
    }
}

/// The five dictionary keys this layer reads are pairwise distinct.
proof fn lemma_keys_distinct()
    ensures
        spec_node_id_key() != spec_info_hash_key(),
        spec_node_id_key() != spec_token_key(),
        spec_node_id_key() != spec_nodes_key(),
        spec_node_id_key() != spec_values_key(),
        spec_token_key() != spec_nodes_key(),
        spec_token_key() != spec_values_key(),
        spec_nodes_key() != spec_values_key(),
{
    assert(spec_node_id_key().len() == 2);
    assert(spec_info_hash_key().len() == 9);
    assert(spec_token_key().len() == 5);
    assert(spec_nodes_key().len() == 5);
    assert(spec_values_key().len() == 6);
    assert(spec_token_key()[0] == 116);
    assert(spec_nodes_key()[0] == 110);
}

proof fn lemma_values_validate(l: Seq<BencodeValue>, vb: Seq<Seq<u8>>, t: Seq<u8>)
    requires
        l.len() == vb.len(),
        forall|k: int| 0 <= k < vb.len() ==> is_bytes_value(#[trigger] l[k], vb[k]),
        forall|k: int| 0 <= k < vb.len() ==> (#[trigger] vb[k]).len() == COMPACT_PEER_RECORD_LEN
            as nat,
    ensures
        spec_validate_values(l, t) == Ok::<Seq<Seq<u8>>, ErrorModel>(vb),
{
    assert forall|k: int| 0 <= k < l.len() implies value_entry_ok(#[trigger] l[k]) by {
        assert(is_bytes_value(l[k], vb[k]));
    }
    assert forall|k: int| 0 <= k < l.len() implies spec_value_bytes(l)[k] == vb[k] by {
        assert(is_bytes_value(l[k], vb[k]));
    }
    assert(spec_value_bytes(l) =~= vb);
}

/// Round trip of a request: the arguments dictionary assembled from a valid
/// request parses back to exactly that request.
pub proof fn lemma_request_round_trip(s: Seq<(Vec<u8>, BencodeValue)>, m: RequestModel)
    requires
        is_request_args(s, m),
        m.node_id.len() == NODE_ID_LEN as nat,
        m.info_hash.len() == NODE_ID_LEN as nat,
    ensures
        spec_parse_request(s, m.trans_id) == Ok::<RequestModel, ErrorModel>(m),
{
    lemma_keys_distinct();
    lemma_lookup_at(s, spec_node_id_key(), 0);
    lemma_lookup_at(s, spec_info_hash_key(), 1);
}

/// Round trip of a response: the arguments dictionary assembled from a valid
/// response parses back to exactly that response, whatever the token and the
/// payload shape.
pub proof fn lemma_response_round_trip(s: Seq<(Vec<u8>, BencodeValue)>, m: ResponseModel)
    requires
        is_response_args(s, m),
        m.node_id.len() == NODE_ID_LEN as nat,
        spec_info_wf(m.info_type),
    ensures
        spec_parse_response(s, m.trans_id) == Ok::<ResponseModel, ErrorModel>(m),
{
    lemma_keys_distinct();
    let t = m.trans_id;
    lemma_lookup_at(s, spec_node_id_key(), 0);
    let base: int = match m.token {
        Option::Some(_) => {
            lemma_lookup_at(s, spec_token_key(), 1);
            2
        },
        Option::None => 1,
    };
    assert(payload_entries_at(s, base, m.info_type));
    match m.info_type {
        InfoTypeModel::Nodes(_) => {
            lemma_lookup_at(s, spec_nodes_key(), base);
            lemma_lookup_absent(s, spec_values_key());
            if m.token is None {
                lemma_lookup_absent(s, spec_token_key());
            }
        },
        InfoTypeModel::Values(vb) => {
            lemma_lookup_at(s, spec_values_key(), base);
            lemma_lookup_absent(s, spec_nodes_key());
            if m.token is None {
                lemma_lookup_absent(s, spec_token_key());
            }
            let l = spec_list_of(s[base].1);
            lemma_values_validate(l, vb, t);
        },
        InfoTypeModel::Both(nb, vb) => {
            lemma_lookup_at(s, spec_nodes_key(), base);
            lemma_lookup_at(s, spec_values_key(), base + 1);
            if m.token is None {
                lemma_lookup_absent(s, spec_token_key());
            }
            let l = spec_list_of(s[base + 1].1);
            lemma_values_validate(l, vb, t);
        },
    }
}

/// A response lacking both the "nodes" and the "values" key is invalid,
/// whatever else it carries.
pub proof fn lemma_response_requires_payload(
    s: Seq<(Vec<u8>, BencodeValue)>,
    t: Seq<u8>,
    id: Seq<u8>,
)
    requires
        spec_lookup_bytes(s, spec_node_id_key(), t) == Ok::<Seq<u8>, ErrorModel>(id),
        spec_lookup_bytes_opt(s, spec_nodes_key()) is None,
        spec_lookup_list_opt(s, spec_values_key()) is None,
    ensures
        spec_parse_response(s, t) matches Err(e) && e.kind == ErrorKindModel::InvalidResponse
            && e.trans_id == t,
{
}

/// A response whose dictionary offers only a valid "nodes" key resolves to
/// the nodes-only payload.
pub proof fn lemma_payload_shape_nodes_only(
    s: Seq<(Vec<u8>, BencodeValue)>,
    t: Seq<u8>,
    id: Seq<u8>,
    nb: Seq<u8>,
)
    requires
        spec_lookup_bytes(s, spec_node_id_key(), t) == Ok::<Seq<u8>, ErrorModel>(id),
        id.len() == NODE_ID_LEN as nat,
        spec_lookup_bytes_opt(s, spec_nodes_key()) == Some(nb),
        nb.len() % (COMPACT_NODE_RECORD_LEN as nat) == 0,
        spec_lookup_list_opt(s, spec_values_key()) is None,
    ensures
        spec_parse_response(s, t) matches Ok(m) && m == (ResponseModel {
            trans_id: t,
            node_id: id,
            token: spec_lookup_bytes_opt(s, spec_token_key()),
            info_type: InfoTypeModel::Nodes(nb),
        }),
{
}

/// A response whose dictionary offers only a valid "values" key resolves to
/// the values-only payload.
pub proof fn lemma_payload_shape_values_only(
    s: Seq<(Vec<u8>, BencodeValue)>,
    t: Seq<u8>,
    id: Seq<u8>,
    vl: Seq<BencodeValue>,
)
    requires
        spec_lookup_bytes(s, spec_node_id_key(), t) == Ok::<Seq<u8>, ErrorModel>(id),
        id.len() == NODE_ID_LEN as nat,
        spec_lookup_bytes_opt(s, spec_nodes_key()) is None,
        spec_lookup_list_opt(s, spec_values_key()) == Some(vl),
        spec_validate_values(vl, t) is Ok,
    ensures
        spec_parse_response(s, t) matches Ok(m) && m == (ResponseModel {
            trans_id: t,
            node_id: id,
            token: spec_lookup_bytes_opt(s, spec_token_key()),
            info_type: InfoTypeModel::Values(spec_value_bytes(vl)),
        }),
{
}

/// A response whose dictionary offers both keys, each valid, resolves to the
/// combined payload, preserving both parts unchanged.
pub proof fn lemma_payload_shape_both(
    s: Seq<(Vec<u8>, BencodeValue)>,
    t: Seq<u8>,
    id: Seq<u8>,
    nb: Seq<u8>,
    vl: Seq<BencodeValue>,
)
    requires
        spec_lookup_bytes(s, spec_node_id_key(), t) == Ok::<Seq<u8>, ErrorModel>(id),
        id.len() == NODE_ID_LEN as nat,
        spec_lookup_bytes_opt(s, spec_nodes_key()) == Some(nb),
        nb.len() % (COMPACT_NODE_RECORD_LEN as nat) == 0,
        spec_lookup_list_opt(s, spec_values_key()) == Some(vl),
        spec_validate_values(vl, t) is Ok,
    ensures
        spec_parse_response(s, t) matches Ok(m) && m == (ResponseModel {
            trans_id: t,
            node_id: id,
            token: spec_lookup_bytes_opt(s, spec_token_key()),
            info_type: InfoTypeModel::Both(nb, spec_value_bytes(vl)),
        }),
{
}

/// The arguments dictionary of a response constructed without a token holds
/// no "token" key at all.
pub proof fn lemma_no_token_key_when_absent(s: Seq<(Vec<u8>, BencodeValue)>, m: ResponseModel)
    requires
        is_response_args(s, m),
        m.token is None,
    ensures
        forall|j: int| 0 <= j < s.len() ==> (#[trigger] s[j]).0@ != spec_token_key(),
{
    lemma_keys_distinct();
    assert(payload_entries_at(s, 1, m.info_type));
}

/// Parsing back a response that was assembled without a token yields a
/// response without a token.
pub proof fn lemma_token_round_trip_none(s: Seq<(Vec<u8>, BencodeValue)>, m: ResponseModel)
    requires
        is_response_args(s, m),
        m.token is None,
        m.node_id.len() == NODE_ID_LEN as nat,
        spec_info_wf(m.info_type),
    ensures
        spec_parse_response(s, m.trans_id) matches Ok(p) && p.token is None,
{
    lemma_response_round_trip(s, m);
}

} // verus!
