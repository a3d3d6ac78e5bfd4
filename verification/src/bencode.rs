//! The bencode value tree as this message layer sees it, and the trusted
//! bridge to the `bip_bencode` serializer.

use vstd::prelude::*;
use vstd::slice::slice_subrange;

use std::borrow::Cow;

use bip_bencode::{BMutAccess, BencodeMut};

verus! {

/// One bencoded value: a byte string, a list of values, or a dictionary
/// mapping byte-string keys to values.
#[derive(Debug, PartialEq, Eq)]
pub enum BencodeValue {
    Bytes(Vec<u8>),
    List(Vec<BencodeValue>),
    Dict(BencodeDict),
}

/// A bencoded dictionary: key/value pairs in insertion order.
#[derive(Debug, PartialEq, Eq)]
pub struct BencodeDict {
    pub entries: Vec<(Vec<u8>, BencodeValue)>,
}

/// The value bound to `k`: the first entry of `s` whose key is `k`, if any.
pub open spec fn spec_lookup(s: Seq<(Vec<u8>, BencodeValue)>, k: Seq<u8>) -> Option<BencodeValue>
    decreases s.len(),
{
    if s.len() == 0 {
        None
    } else if s[0].0@ == k {
        Some(s[0].1)
    } else {
        spec_lookup(s.skip(1), k)
    }
}

/// Compares two byte strings for equality of their contents.
pub fn bytes_equal(a: &[u8], b: &[u8]) -> (r: bool)
    ensures
        r == (a@ == b@),
{
    if a.len() != b.len() {
        assert(a@ != b@) by {
            assert(a@.len() != b@.len());
        }
        return false;
    }
    let mut i: usize = 0;
    while i < a.len()
        invariant
            i <= a@.len(),
            a@.len() == b@.len(),
            forall|j: int| 0 <= j < i ==> a@[j] == b@[j],
        decreases a@.len() - i,
    {
        if a[i] != b[i] {
            return false;
        }
        i += 1;
    }
    proof {
        assert(a@ =~= b@);
    }
    true
}

/// Copies a byte string into an owned buffer.
pub fn clone_bytes(b: &[u8]) -> (r: Vec<u8>)
    ensures
        r@ == b@,
{
    let mut out: Vec<u8> = Vec::new();
    let mut i: usize = 0;
    while i < b.len()
        invariant
            i <= b@.len(),
            out@ == b@.take(i as int),
        decreases b@.len() - i,
    {
        out.push(b[i]);
        proof {
            assert(out@ =~= b@.take(i + 1));
        }
        i += 1;
    }
    proof {
        assert(b@.take(b@.len() as int) =~= b@);
    }
    out
}

fn lookup_in<'x>(entries: &'x [(Vec<u8>, BencodeValue)], key: &[u8]) -> (r: Option<
    &'x BencodeValue,
>)
    ensures
        r matches Some(v) ==> spec_lookup(entries@, key@) == Some(*v),
        r is None ==> spec_lookup(entries@, key@) is None,
    decreases entries@.len(),
{
    if entries.len() == 0 {
        None
    } else {
        let head = &entries[0];
        if bytes_equal(head.0.as_slice(), key) {
            Some(&head.1)
        } else {
            let rest = slice_subrange(entries, 1, entries.len());
            proof {
                assert(rest@ =~= entries@.skip(1));
            }
            lookup_in(rest, key)
        }
    }
}

impl BencodeDict {
    /// The value bound to `key`, if the dictionary has such an entry.
    pub fn lookup(&self, key: &[u8]) -> (r: Option<&BencodeValue>)
        ensures
            r matches Some(v) ==> spec_lookup(self.entries@, key@) == Some(*v),
            r is None ==> spec_lookup(self.entries@, key@) is None,
    {
        lookup_in(self.entries.as_slice(), key)
    }
}

/// Declares bip_bencode's `BencodeMut`, the value type its serializer takes.
#[verifier::external_type_specification]
#[verifier::external_body]
pub struct ExBencodeMut<'a>(BencodeMut<'a>);

/// The bencoding of a value, as `bip_bencode` produces it. The serializer
/// sorts dictionary keys, so the result is a function of the value alone.
pub uninterp spec fn wire_of(v: BencodeValue) -> Seq<u8>;

/// Relies on bip_bencode's `BencodeMut` value constructors: rebuilds the same
/// value tree, borrowing the byte strings, so that it can be serialized.
#[verifier::external_body]
fn to_bencode_mut<'a>(v: &'a BencodeValue) -> BencodeMut<'a> {
    match v {
        BencodeValue::Bytes(b) => BencodeMut::new_bytes(Cow::Borrowed(b.as_slice())),
        BencodeValue::List(items) => items.iter().fold(
            BencodeMut::new_list(),
            |mut out, i| { out.list_mut().unwrap().push(to_bencode_mut(i)); out },
        ),
        BencodeValue::Dict(d) => d.entries.iter().fold(
            BencodeMut::new_dict(),
            |mut out, e| { out.dict_mut().unwrap().insert(Cow::Borrowed(e.0.as_slice()), to_bencode_mut(&e.1)); out },
        ),
    }
}

/// Relies on bip_bencode's `BencodeMut::encode`: serializes the value tree
/// into its bencoding, a pure function of the value (keys are sorted).
#[verifier::external_body]
pub(crate) fn bencode_encode(v: &BencodeValue) -> (r: Vec<u8>)
    ensures
        r@ == wire_of(*v),
{
    to_bencode_mut(v).encode()
}

} // verus!
