//! The typed request and response values of the "get peers" exchange: their
//! construction and validation from a received dictionary, and their
//! assembly into an outbound message dictionary.

use vstd::prelude::*;

use crate::bencode::{bencode_encode, clone_bytes, spec_lookup, wire_of, BencodeDict, BencodeValue};
use crate::compact::{CompactNodeInfo, CompactValueInfo, COMPACT_NODE_RECORD_LEN, COMPACT_PEER_RECORD_LEN};
use crate::error::{DhtError, DhtErrorKind, ErrorModel};
use crate::message::{
    get_peers_type_key, info_hash_key, message_type_key, node_id_key, nodes_key, request_args_key,
    request_type_key, response_args_key, response_type_key, spec_get_peers_type_key,
    spec_info_hash_key, spec_message_type_key, spec_node_id_key, spec_nodes_key,
    spec_request_args_key, spec_request_type_key, spec_response_args_key, spec_response_type_key,
    spec_token_key, spec_transaction_id_key, spec_values_key, token_key, transaction_id_key,
    values_key,
};
use crate::validate::{
    lookup_and_convert_bytes, lookup_and_convert_list, spec_lookup_bytes,
    spec_validate_node_id, spec_validate_nodes, spec_validate_values, validate_node_id,
    validate_nodes, validate_values, NODE_ID_LEN,
};

verus! {

// ------------------------------------------------------------------
// Mathematical models
// ------------------------------------------------------------------

/// The mathematical shape of a [`GetPeersRequest`].
pub ghost struct RequestModel {
    pub trans_id: Seq<u8>,
    pub node_id: Seq<u8>,
    pub info_hash: Seq<u8>,
}

/// The mathematical shape of a [`CompactInfoType`].
pub ghost enum InfoTypeModel {
    Nodes(Seq<u8>),
    Values(Seq<Seq<u8>>),
    Both(Seq<u8>, Seq<Seq<u8>>),
}

/// The mathematical shape of a [`GetPeersResponse`].
pub ghost struct ResponseModel {
    pub trans_id: Seq<u8>,
    pub node_id: Seq<u8>,
    pub token: Option<Seq<u8>>,
    pub info_type: InfoTypeModel,
}

/// Structural validity of a payload model: whole node records, exact peer
/// record lengths.
pub open spec fn spec_info_wf(info: InfoTypeModel) -> bool {
    match info {
        InfoTypeModel::Nodes(nb) => nb.len() % (COMPACT_NODE_RECORD_LEN as nat) == 0,
        InfoTypeModel::Values(vb) => forall|i: int|
            0 <= i < vb.len() ==> (#[trigger] vb[i]).len() == COMPACT_PEER_RECORD_LEN as nat,
        InfoTypeModel::Both(nb, vb) => nb.len() % (COMPACT_NODE_RECORD_LEN as nat) == 0 && (
        forall|i: int|
            0 <= i < vb.len() ==> (#[trigger] vb[i]).len() == COMPACT_PEER_RECORD_LEN as nat),
    }
}

/// The token field as a mathematical value.
pub open spec fn spec_token_model(t: Option<Vec<u8>>) -> Option<Seq<u8>> {
    match t {
        Option::Some(b) => Some(b@),
        Option::None => None,
    }
}

// ------------------------------------------------------------------
// Parsing, as a mathematical function
// ------------------------------------------------------------------

/// What construction of a request from its three fields yields: the fields,
/// or the first identifier-length failure (sender id checked first).
pub open spec fn spec_new_request(t: Seq<u8>, id: Seq<u8>, hash: Seq<u8>) -> Result<
    RequestModel,
    ErrorModel,
> {
    match spec_validate_node_id(id, t) {
        Result::Err(e) => Err(e),
        Result::Ok(_) => match spec_validate_node_id(hash, t) {
            Result::Err(e) => Err(e),
            Result::Ok(_) => Ok(RequestModel { trans_id: t, node_id: id, info_hash: hash }),
        },
    }
}

/// What parsing a request arguments dictionary yields: the typed request, or
/// the first lookup or validation failure.
pub open spec fn spec_parse_request(s: Seq<(Vec<u8>, BencodeValue)>, t: Seq<u8>) -> Result<
    RequestModel,
    ErrorModel,
> {
    match spec_lookup_bytes(s, spec_node_id_key(), t) {
        Result::Err(e) => Err(e),
        Result::Ok(id) => match spec_lookup_bytes(s, spec_info_hash_key(), t) {
            Result::Err(e) => Err(e),
            Result::Ok(hash) => spec_new_request(t, id, hash),
        },
    }
}

/// The byte string bound to `key`, where absence and a value of another
/// shape both count as "not present".
pub open spec fn spec_lookup_bytes_opt(s: Seq<(Vec<u8>, BencodeValue)>, key: Seq<u8>) -> Option<
    Seq<u8>,
> {
    match spec_lookup(s, key) {
        Option::Some(BencodeValue::Bytes(b)) => Some(b@),
        _ => None,
    }
}

/// The list bound to `key`, where absence and a value of another shape both
/// count as "not present".
pub open spec fn spec_lookup_list_opt(s: Seq<(Vec<u8>, BencodeValue)>, key: Seq<u8>) -> Option<
    Seq<BencodeValue>,
> {
    match spec_lookup(s, key) {
        Option::Some(BencodeValue::List(l)) => Some(l@),
        _ => None,
    }
}

/// What construction of a response from its fields yields: the fields, or
/// the identifier-length failure. Any token and any payload are accepted.
pub open spec fn spec_new_response(
    t: Seq<u8>,
    id: Seq<u8>,
    token: Option<Seq<u8>>,
    info: InfoTypeModel,
) -> Result<ResponseModel, ErrorModel> {
    match spec_validate_node_id(id, t) {
        Result::Err(e) => Err(e),
        Result::Ok(_) => Ok(
            ResponseModel { trans_id: t, node_id: id, token, info_type: info },
        ),
    }
}

/// What parsing a response arguments dictionary yields. The responder id is
/// required; the token is optional; the payload shape follows from which of
/// the "nodes" and "values" keys are present with the right bencode shape,
/// and a present key whose content fails validation is an error, never
/// treated as absent. A response with neither key is invalid.
pub open spec fn spec_parse_response(s: Seq<(Vec<u8>, BencodeValue)>, t: Seq<u8>) -> Result<
    ResponseModel,
    ErrorModel,
> {
    match spec_lookup_bytes(s, spec_node_id_key(), t) {
        Result::Err(e) => Err(e),
        Result::Ok(id) => {
            let token = spec_lookup_bytes_opt(s, spec_token_key());
            match (spec_lookup_bytes_opt(s, spec_nodes_key()), spec_lookup_list_opt(
                s,
                spec_values_key(),
            )) {
                (Option::Some(nb), Option::Some(vl)) => match spec_validate_nodes(nb, t) {
                    Result::Err(e) => Err(e),
                    Result::Ok(_) => match spec_validate_values(vl, t) {
                        Result::Err(e) => Err(e),
                        Result::Ok(vb) => spec_new_response(
                            t,
                            id,
                            token,
                            InfoTypeModel::Both(nb, vb),
                        ),
                    },
                },
                (Option::Some(nb), Option::None) => match spec_validate_nodes(nb, t) {
                    Result::Err(e) => Err(e),
                    Result::Ok(_) => spec_new_response(t, id, token, InfoTypeModel::Nodes(nb)),
                },
                (Option::None, Option::Some(vl)) => match spec_validate_values(vl, t) {
                    Result::Err(e) => Err(e),
                    Result::Ok(vb) => spec_new_response(t, id, token, InfoTypeModel::Values(vb)),
                },
                (Option::None, Option::None) => Err(
                    ErrorModel {
                        kind: crate::error::ErrorKindModel::InvalidResponse,
                        trans_id: t,
                    },
                ),
            }
        },
    }
}

// ------------------------------------------------------------------
// The assembled message dictionaries, as predicates
// ------------------------------------------------------------------

/// The entry binds `key` to the byte string `content`.
pub open spec fn is_bytes_entry(
    e: (Vec<u8>, BencodeValue),
    key: Seq<u8>,
    content: Seq<u8>,
) -> bool {
    &&& e.0@ == key
    &&& e.1 matches BencodeValue::Bytes(b) && b@ == content
}

/// The value is the byte string `content`.
pub open spec fn is_bytes_value(v: BencodeValue, content: Seq<u8>) -> bool {
    v matches BencodeValue::Bytes(b) && b@ == content
}

/// The value is a list of exactly the byte strings `contents`.
pub open spec fn is_values_value(v: BencodeValue, contents: Seq<Seq<u8>>) -> bool {
    &&& v matches BencodeValue::List(l) && l@.len() == contents.len() && (forall|k: int|
        0 <= k < contents.len() ==> is_bytes_value(#[trigger] l@[k], contents[k]))
}

/// The arguments dictionary of an encoded request: the sender id, then the
/// target hash.
pub open spec fn is_request_args(s: Seq<(Vec<u8>, BencodeValue)>, m: RequestModel) -> bool {
    &&& s.len() == 2
    &&& is_bytes_entry(s[0], spec_node_id_key(), m.node_id)
    &&& is_bytes_entry(s[1], spec_info_hash_key(), m.info_hash)
}

/// The envelope of an encoded request: transaction id, message type "q",
/// query name, and the arguments dictionary.
pub open spec fn is_request_message(s: Seq<(Vec<u8>, BencodeValue)>, m: RequestModel) -> bool {
    &&& s.len() == 4
    &&& is_bytes_entry(s[0], spec_transaction_id_key(), m.trans_id)
    &&& is_bytes_entry(s[1], spec_message_type_key(), spec_request_type_key())
    &&& is_bytes_entry(s[2], spec_request_type_key(), spec_get_peers_type_key())
    &&& s[3].0@ == spec_request_args_key()
    &&& s[3].1 matches BencodeValue::Dict(d) && is_request_args(d.entries@, m)
}

/// The payload entries of an encoded response, starting at position `at`:
/// "nodes" and/or "values" according to the payload shape, and nothing else.
pub open spec fn payload_entries_at(
    s: Seq<(Vec<u8>, BencodeValue)>,
    at: int,
    info: InfoTypeModel,
) -> bool {
    match info {
        InfoTypeModel::Nodes(nb) => s.len() == at + 1 && is_bytes_entry(
            s[at],
            spec_nodes_key(),
            nb,
        ),
        InfoTypeModel::Values(vb) => s.len() == at + 1 && s[at].0@ == spec_values_key()
            && is_values_value(s[at].1, vb),
        InfoTypeModel::Both(nb, vb) => s.len() == at + 2 && is_bytes_entry(
            s[at],
            spec_nodes_key(),
            nb,
        ) && s[at + 1].0@ == spec_values_key() && is_values_value(s[at + 1].1, vb),
    }
}

/// The arguments dictionary of an encoded response: the responder id, the
/// token only when one is present, then the payload entries.
pub open spec fn is_response_args(s: Seq<(Vec<u8>, BencodeValue)>, m: ResponseModel) -> bool {
    &&& s.len() >= 1
    &&& is_bytes_entry(s[0], spec_node_id_key(), m.node_id)
    &&& match m.token {
        Option::Some(tk) => s.len() >= 2 && is_bytes_entry(s[1], spec_token_key(), tk)
            && payload_entries_at(s, 2, m.info_type),
        Option::None => payload_entries_at(s, 1, m.info_type),
    }
}

/// The envelope of an encoded response: transaction id, message type "r",
/// query name echo, and the arguments dictionary.
pub open spec fn is_response_message(s: Seq<(Vec<u8>, BencodeValue)>, m: ResponseModel) -> bool {
    &&& s.len() == 4
    &&& is_bytes_entry(s[0], spec_transaction_id_key(), m.trans_id)
    &&& is_bytes_entry(s[1], spec_message_type_key(), spec_response_type_key())
    &&& is_bytes_entry(s[2], spec_request_type_key(), spec_get_peers_type_key())
    &&& s[3].0@ == spec_response_args_key()
    &&& s[3].1 matches BencodeValue::Dict(d) && is_response_args(d.entries@, m)
}

// ------------------------------------------------------------------
// The request value
// ------------------------------------------------------------------

/// A validated "get peers" query: who asks, and for which content hash.
#[derive(Debug, Clone, PartialEq, Eq)]
pub struct GetPeersRequest {
    trans_id: Vec<u8>,
    node_id: Vec<u8>,
    info_hash: Vec<u8>,
}

impl View for GetPeersRequest {
    type V = RequestModel;

    closed spec fn view(&self) -> RequestModel {
        RequestModel {
            trans_id: self.trans_id@,
            node_id: self.node_id@,
            info_hash: self.info_hash@,
        }
    }
}

impl GetPeersRequest {
    /// Both identifiers are exactly [`NODE_ID_LEN`] bytes.
    pub open spec fn wf(&self) -> bool {
        self@.node_id.len() == NODE_ID_LEN as nat && self@.info_hash.len() == NODE_ID_LEN as nat
    }

    /// Builds a request after validating both identifiers; fails with the
    /// invalid-identifier-length error otherwise (sender id checked first).
    pub fn new(trans_id: Vec<u8>, node_id: Vec<u8>, info_hash: Vec<u8>) -> (r: Result<
        GetPeersRequest,
        DhtError,
    >)
        ensures
            r is Ok <==> (node_id@.len() == NODE_ID_LEN as nat && info_hash@.len()
                == NODE_ID_LEN as nat),
            r matches Ok(q) ==> Ok::<RequestModel, ErrorModel>(q@) == spec_new_request(
                trans_id@,
                node_id@,
                info_hash@,
            ) && q.wf(),
            r matches Err(e) ==> Err::<RequestModel, ErrorModel>(e@) == spec_new_request(
                trans_id@,
                node_id@,
                info_hash@,
            ),
    {
        match validate_node_id(node_id.as_slice(), trans_id.as_slice()) {
            Result::Ok(_) => (),
            Result::Err(e) => {
                return Err(e);
            },
        };
        match validate_node_id(info_hash.as_slice(), trans_id.as_slice()) {
            Result::Ok(_) => (),
            Result::Err(e) => {
                return Err(e);
            },
        };
        Ok(GetPeersRequest { trans_id, node_id, info_hash })
    }

    /// Parses a request from its arguments dictionary: looks up the sender
    /// id and the target hash, then validates them as [`Self::new`] does.
    pub fn from_parts(rqst_root: &BencodeDict, trans_id: &[u8]) -> (r: Result<
        GetPeersRequest,
        DhtError,
    >)
        ensures
            r matches Ok(q) ==> Ok::<RequestModel, ErrorModel>(q@) == spec_parse_request(
                rqst_root.entries@,
                trans_id@,
            ) && q.wf(),
            r matches Err(e) ==> Err::<RequestModel, ErrorModel>(e@) == spec_parse_request(
                rqst_root.entries@,
                trans_id@,
            ),
    {
        let node_id = match lookup_and_convert_bytes(rqst_root, node_id_key(), trans_id) {
            Result::Ok(b) => b,
            Result::Err(e) => {
                return Err(e);
            },
        };
        let info_hash = match lookup_and_convert_bytes(rqst_root, info_hash_key(), trans_id) {
            Result::Ok(b) => b,
            Result::Err(e) => {
                return Err(e);
            },
        };
        GetPeersRequest::new(
            clone_bytes(trans_id),
            clone_bytes(node_id.as_slice()),
            clone_bytes(info_hash.as_slice()),
        )
    }

    /// The transaction id this query correlates on.
    pub fn transaction_id(&self) -> (r: &[u8])
        ensures
            r@ == self@.trans_id,
    {
        self.trans_id.as_slice()
    }

    /// The sender's node id.
    pub fn node_id(&self) -> (r: &[u8])
        ensures
            r@ == self@.node_id,
    {
        self.node_id.as_slice()
    }

    /// The content hash peers are sought for.
    pub fn info_hash(&self) -> (r: &[u8])
        ensures
            r@ == self@.info_hash,
    {
        self.info_hash.as_slice()
    }

    /// Assembles the full message dictionary for this query.
    pub fn to_message(&self) -> (r: BencodeDict)
        ensures
            is_request_message(r.entries@, self@),
    {
        let mut args: Vec<(Vec<u8>, BencodeValue)> = Vec::new();
        args.push(
            (
                clone_bytes(node_id_key()),
                BencodeValue::Bytes(clone_bytes(self.node_id.as_slice())),
            ),
        );
        args.push(
            (
                clone_bytes(info_hash_key()),
                BencodeValue::Bytes(clone_bytes(self.info_hash.as_slice())),
            ),
        );
        let mut root: Vec<(Vec<u8>, BencodeValue)> = Vec::new();
        root.push(
            (
                clone_bytes(transaction_id_key()),
                BencodeValue::Bytes(clone_bytes(self.trans_id.as_slice())),
            ),
        );
        root.push(
            (clone_bytes(message_type_key()), BencodeValue::Bytes(clone_bytes(request_type_key()))),
        );
        root.push(
            (
                clone_bytes(request_type_key()),
                BencodeValue::Bytes(clone_bytes(get_peers_type_key())),
            ),
        );
        root.push(
            (clone_bytes(request_args_key()), BencodeValue::Dict(BencodeDict { entries: args })),
        );
        BencodeDict { entries: root }
    }

    /// Serializes the assembled message dictionary into its bencoding.
    pub fn encode(&self) -> (r: Vec<u8>)
        ensures
            exists|d: BencodeDict|
                #[trigger] is_request_message(d.entries@, self@) && r@ == wire_of(
                    BencodeValue::Dict(d),
                ),
    {
        let value = BencodeValue::Dict(self.to_message());
        let r = bencode_encode(&value);
        proof {
            assert(value matches BencodeValue::Dict(d) && is_request_message(d.entries@, self@)
                && r@ == wire_of(BencodeValue::Dict(d)));
        }
        r
    }
}

// ------------------------------------------------------------------
// The response value
// ------------------------------------------------------------------

/// The payload of a response: node records, peer records, or both. A
/// response always carries at least one of the two.
#[derive(Debug, Clone, PartialEq, Eq)]
pub enum CompactInfoType {
    Nodes(CompactNodeInfo),
    Values(CompactValueInfo),
    Both(CompactNodeInfo, CompactValueInfo),
}

impl View for CompactInfoType {
    type V = InfoTypeModel;

    open spec fn view(&self) -> InfoTypeModel {
        match self {
            CompactInfoType::Nodes(n) => InfoTypeModel::Nodes(n@),
            CompactInfoType::Values(v) => InfoTypeModel::Values(v@),
            CompactInfoType::Both(n, v) => InfoTypeModel::Both(n@, v@),
        }
    }
}

/// A validated "get peers" reply: who answers, an optional continuation
/// token, and the payload.
#[derive(Debug, Clone, PartialEq, Eq)]
pub struct GetPeersResponse {
    trans_id: Vec<u8>,
    node_id: Vec<u8>,
    token: Option<Vec<u8>>,
    info_type: CompactInfoType,
}

impl View for GetPeersResponse {
    type V = ResponseModel;

    closed spec fn view(&self) -> ResponseModel {
        ResponseModel {
            trans_id: self.trans_id@,
            node_id: self.node_id@,
            token: spec_token_model(self.token),
            info_type: self.info_type@,
        }
    }
}

impl GetPeersResponse {
    /// The responder id is exactly [`NODE_ID_LEN`] bytes.
    pub open spec fn wf(&self) -> bool {
        self@.node_id.len() == NODE_ID_LEN as nat
    }

    /// Builds a response after validating the responder id; any token and
    /// any payload variant are accepted.
    pub fn new(
        trans_id: Vec<u8>,
        node_id: Vec<u8>,
        token: Option<Vec<u8>>,
        info_type: CompactInfoType,
    ) -> (r: Result<GetPeersResponse, DhtError>)
        ensures
            r is Ok <==> node_id@.len() == NODE_ID_LEN as nat,
            r matches Ok(resp) ==> Ok::<ResponseModel, ErrorModel>(resp@) == spec_new_response(
                trans_id@,
                node_id@,
                spec_token_model(token),
                info_type@,
            ) && resp.wf(),
            r matches Err(e) ==> Err::<ResponseModel, ErrorModel>(e@) == spec_new_response(
                trans_id@,
                node_id@,
                spec_token_model(token),
                info_type@,
            ),
    {
        match validate_node_id(node_id.as_slice(), trans_id.as_slice()) {
            Result::Ok(_) => (),
            Result::Err(e) => {
                return Err(e);
            },
        };
        Ok(GetPeersResponse { trans_id, node_id, token, info_type })
    }

    /// Parses a response from its arguments dictionary: requires the
    /// responder id, takes the token best-effort, and resolves the payload
    /// shape from the "nodes" and "values" keys, failing when both are
    /// absent and propagating any validation failure of a present key.
    pub fn from_parts(rsp_root: &BencodeDict, trans_id: &[u8]) -> (r: Result<
        GetPeersResponse,
        DhtError,
    >)
        ensures
            r matches Ok(resp) ==> Ok::<ResponseModel, ErrorModel>(resp@) == spec_parse_response(
                rsp_root.entries@,
                trans_id@,
            ) && resp.wf(),
            r matches Err(e) ==> Err::<ResponseModel, ErrorModel>(e@) == spec_parse_response(
                rsp_root.entries@,
                trans_id@,
            ),
    {
        let node_id = match lookup_and_convert_bytes(rsp_root, node_id_key(), trans_id) {
            Result::Ok(b) => clone_bytes(b.as_slice()),
            Result::Err(e) => {
                return Err(e);
            },
        };
        let token: Option<Vec<u8>> = match lookup_and_convert_bytes(
            rsp_root,
            token_key(),
            trans_id,
        ) {
            Result::Ok(b) => Some(clone_bytes(b.as_slice())),
            Result::Err(_) => None,
        };
        let maybe_nodes = lookup_and_convert_bytes(rsp_root, nodes_key(), trans_id);
        let maybe_values = lookup_and_convert_list(rsp_root, values_key(), trans_id);
        let info_type: CompactInfoType = match (maybe_nodes, maybe_values) {
            (Result::Ok(nodes), Result::Ok(values)) => {
                let nodes_info = match validate_nodes(nodes.as_slice(), trans_id) {
                    Result::Ok(n) => n,
                    Result::Err(e) => {
                        return Err(e);
                    },
                };
                let values_info = match validate_values(values, trans_id) {
                    Result::Ok(v) => v,
                    Result::Err(e) => {
                        return Err(e);
                    },
                };
                CompactInfoType::Both(nodes_info, values_info)
            },
            (Result::Ok(nodes), Result::Err(_)) => {
                let nodes_info = match validate_nodes(nodes.as_slice(), trans_id) {
                    Result::Ok(n) => n,
                    Result::Err(e) => {
                        return Err(e);
                    },
                };
                CompactInfoType::Nodes(nodes_info)
            },
            (Result::Err(_), Result::Ok(values)) => {
                let values_info = match validate_values(values, trans_id) {
                    Result::Ok(v) => v,
                    Result::Err(e) => {
                        return Err(e);
                    },
                };
                CompactInfoType::Values(values_info)
            },
            (Result::Err(_), Result::Err(_)) => {
                return Err(
                    DhtError {
                        kind: DhtErrorKind::InvalidResponse,
                        trans_id: clone_bytes(trans_id),
                    },
                );
            },
        };
        GetPeersResponse::new(clone_bytes(trans_id), node_id, token, info_type)
    }

    /// The transaction id this reply correlates on.
    pub fn transaction_id(&self) -> (r: &[u8])
        ensures
            r@ == self@.trans_id,
    {
        self.trans_id.as_slice()
    }

    /// The responder's node id.
    pub fn node_id(&self) -> (r: &[u8])
        ensures
            r@ == self@.node_id,
    {
        self.node_id.as_slice()
    }

    /// The continuation token, when the responder sent one.
    pub fn token(&self) -> (r: Option<&[u8]>)
        ensures
            r matches Some(tk) ==> self@.token == Some(tk@),
            r is None <==> self@.token is None,
    {
        match &self.token {
            Option::Some(t) => Some(t.as_slice()),
            Option::None => None,
        }
    }

    /// The payload: node records, peer records, or both.
    pub fn info_type(&self) -> (r: &CompactInfoType)
        ensures
            r@ == self@.info_type,
    {
        &self.info_type
    }

    /// Assembles the full message dictionary for this reply. The token key
    /// appears only when a token is present.
    pub fn to_message(&self) -> (r: BencodeDict)
        ensures
            is_response_message(r.entries@, self@),
    {
        let mut args: Vec<(Vec<u8>, BencodeValue)> = Vec::new();
        args.push(
            (
                clone_bytes(node_id_key()),
                BencodeValue::Bytes(clone_bytes(self.node_id.as_slice())),
            ),
        );
        match &self.token {
            Option::Some(tok) => {
                args.push(
                    (clone_bytes(token_key()), BencodeValue::Bytes(clone_bytes(tok.as_slice()))),
                );
            },
            Option::None => (),
        };
        match &self.info_type {
            CompactInfoType::Nodes(nodes) => {
                args.push(
                    (clone_bytes(nodes_key()), BencodeValue::Bytes(clone_bytes(nodes.nodes()))),
                );
            },
            CompactInfoType::Values(values) => {
                args.push((clone_bytes(values_key()), values_list(values)));
            },
            CompactInfoType::Both(nodes, values) => {
                args.push(
                    (clone_bytes(nodes_key()), BencodeValue::Bytes(clone_bytes(nodes.nodes()))),
                );
                args.push((clone_bytes(values_key()), values_list(values)));
            },
        };
        let mut root: Vec<(Vec<u8>, BencodeValue)> = Vec::new();
        root.push(
            (
                clone_bytes(transaction_id_key()),
                BencodeValue::Bytes(clone_bytes(self.trans_id.as_slice())),
            ),
        );
        root.push(
            (
                clone_bytes(message_type_key()),
                BencodeValue::Bytes(clone_bytes(response_type_key())),
            ),
        );
        root.push(
            (
                clone_bytes(request_type_key()),
                BencodeValue::Bytes(clone_bytes(get_peers_type_key())),
            ),
        );
        root.push(
            (clone_bytes(response_args_key()), BencodeValue::Dict(BencodeDict { entries: args })),
        );
        BencodeDict { entries: root }
    }

    /// Serializes the assembled message dictionary into its bencoding.
    pub fn encode(&self) -> (r: Vec<u8>)
        ensures
            exists|d: BencodeDict|
                #[trigger] is_response_message(d.entries@, self@) && r@ == wire_of(
                    BencodeValue::Dict(d),
                ),
    {
        let value = BencodeValue::Dict(self.to_message());
        let r = bencode_encode(&value);
        proof {
            assert(value matches BencodeValue::Dict(d) && is_response_message(d.entries@, self@)
                && r@ == wire_of(BencodeValue::Dict(d)));
        }
        r
    }
}

/// Builds the list value for the "values" key from the validated entries.
fn values_list(values: &CompactValueInfo) -> (r: BencodeValue)
    ensures
        is_values_value(r, values@),
{
    let vec_ref = values.values();
    let vs = vec_ref.as_slice();
    proof {
        assert forall|j: int| 0 <= j < vs@.len() implies (#[trigger] vs@[j])@ == values@[j] by {
            assert(values@[j] == vec_ref@[j].deep_view());
            assert(vec_ref@[j].deep_view() =~= vec_ref@[j]@);
        }
        assert(vs@.len() == values@.len());
    }
    let mut items: Vec<BencodeValue> = Vec::new();
    let mut k: usize = 0;
    while k < vs.len()
        invariant
            k <= vs@.len(),
            vs@.len() == values@.len(),
            forall|j: int| 0 <= j < vs@.len() ==> (#[trigger] vs@[j])@ == values@[j],
            items@.len() == k as nat,
            forall|j: int| 0 <= j < k ==> is_bytes_value(#[trigger] items@[j], values@[j]),
        decreases vs@.len() - k,
    {
        let item = BencodeValue::Bytes(clone_bytes(vs[k].as_slice()));
        items.push(item);
        k += 1;
    }
    BencodeValue::List(items)
}

} // verus!
