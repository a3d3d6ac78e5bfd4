//! The dictionary keys and fixed values of the wire format.

use vstd::prelude::*;

verus! {

/// The key of the transaction id: `"t"`.
pub open spec fn spec_transaction_id_key() -> Seq<u8> {
    seq![116u8]
}

/// The key of the transaction id: `"t"`.
pub fn transaction_id_key() -> (r: &'static [u8])
    ensures
        r@ == spec_transaction_id_key(),
{
    let r: &'static [u8] = &[116u8];
    proof {
        assert(r@ =~= spec_transaction_id_key());
    }
    r
}

/// The key of the message type: `"y"`.
pub open spec fn spec_message_type_key() -> Seq<u8> {
    seq![121u8]
}

/// The key of the message type: `"y"`.
pub fn message_type_key() -> (r: &'static [u8])
    ensures
        r@ == spec_message_type_key(),
{
    let r: &'static [u8] = &[121u8];
    proof {
        assert(r@ =~= spec_message_type_key());
    }
    r
}

/// The key of the query name; also the message-type value of a query: `"q"`.
pub open spec fn spec_request_type_key() -> Seq<u8> {
    seq![113u8]
}

/// The key of the query name; also the message-type value of a query: `"q"`.
pub fn request_type_key() -> (r: &'static [u8])
    ensures
        r@ == spec_request_type_key(),
{
    let r: &'static [u8] = &[113u8];
    proof {
        assert(r@ =~= spec_request_type_key());
    }
    r
}

/// The message-type value of a response: `"r"`.
pub open spec fn spec_response_type_key() -> Seq<u8> {
    seq![114u8]
}

/// The message-type value of a response: `"r"`.
pub fn response_type_key() -> (r: &'static [u8])
    ensures
        r@ == spec_response_type_key(),
{
    let r: &'static [u8] = &[114u8];
    proof {
        assert(r@ =~= spec_response_type_key());
    }
    r
}

/// The key of a query's arguments dictionary: `"a"`.
pub open spec fn spec_request_args_key() -> Seq<u8> {
    seq![97u8]
}

/// The key of a query's arguments dictionary: `"a"`.
pub fn request_args_key() -> (r: &'static [u8])
    ensures
        r@ == spec_request_args_key(),
{
    let r: &'static [u8] = &[97u8];
    proof {
        assert(r@ =~= spec_request_args_key());
    }
    r
}

/// The key of a response's arguments dictionary: `"r"`.
pub open spec fn spec_response_args_key() -> Seq<u8> {
    seq![114u8]
}

/// The key of a response's arguments dictionary: `"r"`.
pub fn response_args_key() -> (r: &'static [u8])
    ensures
        r@ == spec_response_args_key(),
{
    let r: &'static [u8] = &[114u8];
    proof {
        assert(r@ =~= spec_response_args_key());
    }
    r
}

/// The key of the sender or responder node id: `"id"`.
pub open spec fn spec_node_id_key() -> Seq<u8> {
    seq![105u8, 100u8]
}

/// The key of the sender or responder node id: `"id"`.
pub fn node_id_key() -> (r: &'static [u8])
    ensures
        r@ == spec_node_id_key(),
{
    let r: &'static [u8] = &[105u8, 100u8];
    proof {
        assert(r@ =~= spec_node_id_key());
    }
    r
}

/// The key of the target content hash: `"info_hash"`.
pub open spec fn spec_info_hash_key() -> Seq<u8> {
    seq![105u8, 110u8, 102u8, 111u8, 95u8, 104u8, 97u8, 115u8, 104u8]
}

/// The key of the target content hash: `"info_hash"`.
pub fn info_hash_key() -> (r: &'static [u8])
    ensures
        r@ == spec_info_hash_key(),
{
    let r: &'static [u8] = &[105u8, 110u8, 102u8, 111u8, 95u8, 104u8, 97u8, 115u8, 104u8];
    proof {
        assert(r@ =~= spec_info_hash_key());
    }
    r
}

/// The key of the continuation token: `"token"`.
pub open spec fn spec_token_key() -> Seq<u8> {
    seq![116u8, 111u8, 107u8, 101u8, 110u8]
}

/// The key of the continuation token: `"token"`.
pub fn token_key() -> (r: &'static [u8])
    ensures
        r@ == spec_token_key(),
{
    let r: &'static [u8] = &[116u8, 111u8, 107u8, 101u8, 110u8];
    proof {
        assert(r@ =~= spec_token_key());
    }
    r
}

/// The key of the compact node records: `"nodes"`.
pub open spec fn spec_nodes_key() -> Seq<u8> {
    seq![110u8, 111u8, 100u8, 101u8, 115u8]
}

/// The key of the compact node records: `"nodes"`.
pub fn nodes_key() -> (r: &'static [u8])
    ensures
        r@ == spec_nodes_key(),
{
    let r: &'static [u8] = &[110u8, 111u8, 100u8, 101u8, 115u8];
    proof {
        assert(r@ =~= spec_nodes_key());
    }
    r
}

/// The key of the peer contact records: `"values"`.
pub open spec fn spec_values_key() -> Seq<u8> {
    seq![118u8, 97u8, 108u8, 117u8, 101u8, 115u8]
}

/// The key of the peer contact records: `"values"`.
pub fn values_key() -> (r: &'static [u8])
    ensures
        r@ == spec_values_key(),
{
    let r: &'static [u8] = &[118u8, 97u8, 108u8, 117u8, 101u8, 115u8];
    proof {
        assert(r@ =~= spec_values_key());
    }
    r
}

/// The query name of this exchange: `"get_peers"`.
pub open spec fn spec_get_peers_type_key() -> Seq<u8> {
    seq![103u8, 101u8, 116u8, 95u8, 112u8, 101u8, 101u8, 114u8, 115u8]
}

/// The query name of this exchange: `"get_peers"`.
pub fn get_peers_type_key() -> (r: &'static [u8])
    ensures
        r@ == spec_get_peers_type_key(),
{
    let r: &'static [u8] = &[103u8, 101u8, 116u8, 95u8, 112u8, 101u8, 101u8, 114u8, 115u8];
    proof {
        assert(r@ =~= spec_get_peers_type_key());
    }
    r
}

} // verus!
