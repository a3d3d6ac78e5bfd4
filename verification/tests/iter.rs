//! Behavior of the metainfo cursors.

use dht_message::iter::{Paths, Pieces};

#[test]
fn paths_walks_in_order() {
    let parts = vec!["dir".to_string(), "sub".to_string(), "file.bin".to_string()];
    let mut cursor = Paths::new(&parts);
    assert_eq!(cursor.next(), Some("dir"));
    assert_eq!(cursor.next(), Some("sub"));
    assert_eq!(cursor.next(), Some("file.bin"));
    assert_eq!(cursor.next(), None);
    assert_eq!(cursor.next(), None);
}

#[test]
fn paths_empty() {
    let parts: Vec<String> = Vec::new();
    let mut cursor = Paths::new(&parts);
    assert_eq!(cursor.next(), None);
}

#[test]
fn pieces_walks_in_order() {
    let hashes = [[0x01u8; 20], [0x02u8; 20]];
    let mut cursor = Pieces::new(&hashes);
    assert_eq!(cursor.next(), Some(&[0x01u8; 20][..]));
    assert_eq!(cursor.next(), Some(&[0x02u8; 20][..]));
    assert_eq!(cursor.next(), None);
}
