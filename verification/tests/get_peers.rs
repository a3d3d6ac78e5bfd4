//! End-to-end behavior of the get_peers message layer, with the real
//! bencode serializer linked.

use bip_bencode::{BDecodeOpt, BRefAccess, BencodeRef};

use dht_message::bencode::{BencodeDict, BencodeValue};
use dht_message::error::DhtErrorKind;
use dht_message::get_peers::{CompactInfoType, GetPeersRequest, GetPeersResponse};
use dht_message::validate::{
    lookup_and_convert_bytes, validate_node_id, validate_nodes, validate_values,
};

fn to_value(b: &BencodeRef) -> BencodeValue {
    if let Some(bytes) = b.bytes() {
        BencodeValue::Bytes(bytes.to_vec())
    } else if let Some(list) = b.list() {
        let mut items = Vec::new();
        for i in 0..list.len() {
            items.push(to_value(list.get(i).unwrap()));
        }
        BencodeValue::List(items)
    } else if let Some(dict) = b.dict() {
        let mut entries = Vec::new();
        for (k, v) in dict.to_list() {
            entries.push(((*k).to_vec(), to_value(v)));
        }
        BencodeValue::Dict(BencodeDict { entries })
    } else {
        panic!("unexpected bencode shape in a message")
    }
}

fn decoded_dict(bytes: &[u8]) -> BencodeDict {
    let bencode = BencodeRef::decode(bytes, BDecodeOpt::default()).unwrap();
    match to_value(&bencode) {
        BencodeValue::Dict(d) => d,
        _ => panic!("message root is not a dictionary"),
    }
}

fn dict_get<'a>(d: &'a BencodeDict, key: &[u8]) -> &'a BencodeValue {
    d.lookup(key).expect("key absent")
}

fn args_of(bytes: &[u8], args_key: &[u8]) -> BencodeDict {
    let root = decoded_dict(bytes);
    for (k, v) in root.entries {
        if k == args_key {
            match v {
                BencodeValue::Dict(d) => return d,
                _ => panic!("arguments value is not a dictionary"),
            }
        }
    }
    panic!("arguments key absent")
}

fn bytes_of(v: &BencodeValue) -> Vec<u8> {
    match v {
        BencodeValue::Bytes(b) => b.clone(),
        _ => panic!("value is not a byte string"),
    }
}

#[test]
fn request_concrete_scenario() {
    let req = GetPeersRequest::new(b"aa".to_vec(), vec![0x11; 20], vec![0x22; 20]).unwrap();
    let encoded = req.encode();

    let mut expected = Vec::new();
    expected.extend_from_slice(b"d1:ad2:id20:");
    expected.extend_from_slice(&[0x11; 20]);
    expected.extend_from_slice(b"9:info_hash20:");
    expected.extend_from_slice(&[0x22; 20]);
    expected.extend_from_slice(b"e1:q9:get_peers1:t2:aa1:y1:qe");
    assert_eq!(encoded, expected);

    let root = decoded_dict(&encoded);
    assert_eq!(bytes_of(dict_get(&root, b"t")), b"aa".to_vec());
    assert_eq!(bytes_of(dict_get(&root, b"y")), b"q".to_vec());
    assert_eq!(bytes_of(dict_get(&root, b"q")), b"get_peers".to_vec());
    let args = args_of(&encoded, b"a");
    assert_eq!(bytes_of(dict_get(&args, b"id")), vec![0x11; 20]);
    assert_eq!(bytes_of(dict_get(&args, b"info_hash")), vec![0x22; 20]);
}

#[test]
fn request_round_trip() {
    let req = GetPeersRequest::new(b"xy".to_vec(), vec![0xab; 20], vec![0xcd; 20]).unwrap();
    let encoded = req.encode();
    let args = args_of(&encoded, b"a");
    let parsed = GetPeersRequest::from_parts(&args, b"xy").unwrap();
    assert_eq!(parsed.transaction_id(), b"xy");
    assert_eq!(parsed.node_id(), &[0xab; 20][..]);
    assert_eq!(parsed.info_hash(), &[0xcd; 20][..]);
    assert_eq!(parsed, req);
}

#[test]
fn request_rejects_short_node_id() {
    let err = GetPeersRequest::new(b"aa".to_vec(), vec![0x11; 19], vec![0x22; 20]).unwrap_err();
    assert_eq!(err.kind, DhtErrorKind::InvalidIdentifierLength { expected: 20, actual: 19 });
    assert_eq!(err.trans_id, b"aa".to_vec());
}

#[test]
fn request_rejects_long_info_hash() {
    let err = GetPeersRequest::new(b"aa".to_vec(), vec![0x11; 20], vec![0x22; 21]).unwrap_err();
    assert_eq!(err.kind, DhtErrorKind::InvalidIdentifierLength { expected: 20, actual: 21 });
}

#[test]
fn request_missing_key() {
    let dict = BencodeDict {
        entries: vec![(b"id".to_vec(), BencodeValue::Bytes(vec![0x11; 20]))],
    };
    let err = GetPeersRequest::from_parts(&dict, b"aa").unwrap_err();
    assert_eq!(err.kind, DhtErrorKind::MissingKey { key: b"info_hash".to_vec() });
    assert_eq!(err.trans_id, b"aa".to_vec());
}

#[test]
fn request_wrong_type() {
    let dict = BencodeDict {
        entries: vec![
            (b"id".to_vec(), BencodeValue::List(Vec::new())),
            (b"info_hash".to_vec(), BencodeValue::Bytes(vec![0x22; 20])),
        ],
    };
    let err = GetPeersRequest::from_parts(&dict, b"aa").unwrap_err();
    assert_eq!(err.kind, DhtErrorKind::WrongType { key: b"id".to_vec() });
}

fn response_args(entries: Vec<(Vec<u8>, BencodeValue)>) -> BencodeDict {
    BencodeDict { entries }
}

fn id_entry() -> (Vec<u8>, BencodeValue) {
    (b"id".to_vec(), BencodeValue::Bytes(vec![0x33; 20]))
}

#[test]
fn nodes_stride_accepted() {
    let dict = response_args(vec![
        id_entry(),
        (b"nodes".to_vec(), BencodeValue::Bytes(vec![0x44; 52])),
    ]);
    let resp = GetPeersResponse::from_parts(&dict, b"tt").unwrap();
    match resp.info_type() {
        CompactInfoType::Nodes(nodes) => {
            assert_eq!(nodes.nodes(), &[0x44; 52][..]);
            assert_eq!(nodes.record_count(), 2);
        },
        _ => panic!("expected a nodes-only payload"),
    }
}

#[test]
fn nodes_stride_rejected() {
    let dict = response_args(vec![
        id_entry(),
        (b"nodes".to_vec(), BencodeValue::Bytes(vec![0x44; 27])),
    ]);
    let err = GetPeersResponse::from_parts(&dict, b"tt").unwrap_err();
    assert_eq!(err.kind, DhtErrorKind::InvalidNodesEncoding);
    assert_eq!(err.trans_id, b"tt".to_vec());
}

#[test]
fn values_entry_rejected() {
    let dict = response_args(vec![
        id_entry(),
        (
            b"values".to_vec(),
            BencodeValue::List(vec![
                BencodeValue::Bytes(vec![1; 6]),
                BencodeValue::Bytes(vec![2; 5]),
            ]),
        ),
    ]);
    let err = GetPeersResponse::from_parts(&dict, b"tt").unwrap_err();
    assert_eq!(err.kind, DhtErrorKind::InvalidValueEncoding { index: 1 });
}

#[test]
fn values_non_bytes_entry_rejected() {
    let dict = response_args(vec![
        id_entry(),
        (
            b"values".to_vec(),
            BencodeValue::List(vec![BencodeValue::List(Vec::new())]),
        ),
    ]);
    let err = GetPeersResponse::from_parts(&dict, b"tt").unwrap_err();
    assert_eq!(err.kind, DhtErrorKind::InvalidValueEncoding { index: 0 });
}

#[test]
fn response_missing_both_payload_keys() {
    let dict = response_args(vec![
        id_entry(),
        (b"token".to_vec(), BencodeValue::Bytes(b"tok".to_vec())),
    ]);
    let err = GetPeersResponse::from_parts(&dict, b"tt").unwrap_err();
    assert_eq!(err.kind, DhtErrorKind::InvalidResponse);
    assert_eq!(err.trans_id, b"tt".to_vec());
}

#[test]
fn payload_shape_values_only() {
    let dict = response_args(vec![
        id_entry(),
        (
            b"values".to_vec(),
            BencodeValue::List(vec![
                BencodeValue::Bytes(vec![5; 6]),
                BencodeValue::Bytes(vec![6; 6]),
            ]),
        ),
    ]);
    let resp = GetPeersResponse::from_parts(&dict, b"tt").unwrap();
    match resp.info_type() {
        CompactInfoType::Values(values) => {
            assert_eq!(values.values(), &vec![vec![5; 6], vec![6; 6]]);
        },
        _ => panic!("expected a values-only payload"),
    }
}

#[test]
fn payload_shape_both() {
    let dict = response_args(vec![
        id_entry(),
        (b"nodes".to_vec(), BencodeValue::Bytes(vec![0x44; 26])),
        (
            b"values".to_vec(),
            BencodeValue::List(vec![BencodeValue::Bytes(vec![5; 6])]),
        ),
    ]);
    let resp = GetPeersResponse::from_parts(&dict, b"tt").unwrap();
    match resp.info_type() {
        CompactInfoType::Both(nodes, values) => {
            assert_eq!(nodes.nodes(), &[0x44; 26][..]);
            assert_eq!(values.values(), &vec![vec![5; 6]]);
        },
        _ => panic!("expected a combined payload"),
    }
}

#[test]
fn response_round_trip_with_token() {
    let nodes = validate_nodes(&[0x44; 52], b"bb").unwrap();
    let values = validate_values(
        &vec![
            BencodeValue::Bytes(vec![7; 6]),
            BencodeValue::Bytes(vec![8; 6]),
        ],
        b"bb",
    )
    .unwrap();
    let resp = GetPeersResponse::new(
        b"bb".to_vec(),
        vec![0x55; 20],
        Some(b"tok".to_vec()),
        CompactInfoType::Both(nodes, values),
    )
    .unwrap();

    let encoded = resp.encode();
    let root = decoded_dict(&encoded);
    assert_eq!(bytes_of(dict_get(&root, b"t")), b"bb".to_vec());
    assert_eq!(bytes_of(dict_get(&root, b"y")), b"r".to_vec());
    assert_eq!(bytes_of(dict_get(&root, b"q")), b"get_peers".to_vec());

    let args = args_of(&encoded, b"r");
    let parsed = GetPeersResponse::from_parts(&args, b"bb").unwrap();
    assert_eq!(parsed.transaction_id(), b"bb");
    assert_eq!(parsed.node_id(), &[0x55; 20][..]);
    assert_eq!(parsed.token(), Some(&b"tok"[..]));
    match parsed.info_type() {
        CompactInfoType::Both(nodes, values) => {
            assert_eq!(nodes.nodes(), &[0x44; 52][..]);
            assert_eq!(values.values(), &vec![vec![7; 6], vec![8; 6]]);
        },
        _ => panic!("expected a combined payload"),
    }
    assert_eq!(parsed, resp);
}

#[test]
fn token_omitted_on_encode_and_round_trip() {
    let nodes = validate_nodes(&[0x44; 26], b"cc").unwrap();
    let resp = GetPeersResponse::new(
        b"cc".to_vec(),
        vec![0x66; 20],
        None,
        CompactInfoType::Nodes(nodes),
    )
    .unwrap();

    let encoded = resp.encode();
    let args = args_of(&encoded, b"r");
    assert!(args.lookup(b"token").is_none());

    let parsed = GetPeersResponse::from_parts(&args, b"cc").unwrap();
    assert_eq!(parsed.token(), None);
}

#[test]
fn response_rejects_short_node_id() {
    let nodes = validate_nodes(&[0x44; 26], b"dd").unwrap();
    let err = GetPeersResponse::new(
        b"dd".to_vec(),
        vec![0x66; 19],
        None,
        CompactInfoType::Nodes(nodes),
    )
    .unwrap_err();
    assert_eq!(err.kind, DhtErrorKind::InvalidIdentifierLength { expected: 20, actual: 19 });
}

#[test]
fn validate_helpers_direct() {
    assert!(validate_node_id(&[0; 20], b"aa").is_ok());
    let err = validate_node_id(&[0; 21], b"aa").unwrap_err();
    assert_eq!(err.kind, DhtErrorKind::InvalidIdentifierLength { expected: 20, actual: 21 });

    assert!(validate_nodes(&[], b"aa").is_ok());
    assert_eq!(validate_nodes(&[9; 78], b"aa").unwrap().record_count(), 3);

    let dict = BencodeDict {
        entries: vec![(b"k".to_vec(), BencodeValue::Bytes(b"v".to_vec()))],
    };
    assert_eq!(
        lookup_and_convert_bytes(&dict, b"k", b"aa").unwrap(),
        &b"v".to_vec()
    );
    let err = lookup_and_convert_bytes(&dict, b"missing", b"aa").unwrap_err();
    assert_eq!(err.kind, DhtErrorKind::MissingKey { key: b"missing".to_vec() });
}
