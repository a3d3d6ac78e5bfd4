//! Bounds-checked cursors over torrent-metadata fields: piece hashes and
//! file path components. Each hands out its elements in order, one per call.

use vstd::prelude::*;

verus! {

/// Length of one piece hash.
pub const PIECE_HASH_LEN: usize = 20;

/// Cursor over each piece hash within a metainfo file.
pub struct Pieces<'a> {
    index: usize,
    pieces: &'a [[u8; PIECE_HASH_LEN]],
}

impl<'a> Pieces<'a> {
    /// The hashes this cursor walks.
    pub closed spec fn spec_pieces(&self) -> Seq<[u8; PIECE_HASH_LEN]> {
        self.pieces@
    }

    /// The position of the next hash to hand out.
    pub closed spec fn spec_index(&self) -> int {
        self.index as int
    }

    pub fn new(pieces: &'a [[u8; PIECE_HASH_LEN]]) -> (r: Pieces<'a>)
        ensures
            r.spec_pieces() == pieces@,
            r.spec_index() == 0,
    {
        Pieces { index: 0, pieces }
    }

    /// The next piece hash, until all have been handed out.
    pub fn next(&mut self) -> (r: Option<&'a [u8]>)
        ensures
            old(self).spec_index() < old(self).spec_pieces().len() ==> {
                &&& r matches Some(h) && h@ == old(self).spec_pieces()[old(self).spec_index()]@
                &&& final(self).spec_index() == old(self).spec_index() + 1
            },
            old(self).spec_index() >= old(self).spec_pieces().len() ==> r is None && *final(self)
                == *old(self),
            final(self).spec_pieces() == old(self).spec_pieces(),
    {
        if self.index < self.pieces.len() {
            let hash: &'a [u8; PIECE_HASH_LEN] = &self.pieces[self.index];
            self.index += 1;
            Some(vstd::array::array_as_slice(hash))
        } else {
            None
        }
    }
}

/// Cursor over each file path component within a metainfo file.
pub struct Paths<'a> {
    paths: &'a [String],
    index: usize,
}

impl<'a> Paths<'a> {
    /// The path components this cursor walks.
    pub closed spec fn spec_paths(&self) -> Seq<String> {
        self.paths@
    }

    /// The position of the next component to hand out.
    pub closed spec fn spec_index(&self) -> int {
        self.index as int
    }

    pub fn new(paths: &'a [String]) -> (r: Paths<'a>)
        ensures
            r.spec_paths() == paths@,
            r.spec_index() == 0,
    {
        Paths { index: 0, paths }
    }

    /// The next path component, until all have been handed out.
    pub fn next(&mut self) -> (r: Option<&'a str>)
        ensures
            old(self).spec_index() < old(self).spec_paths().len() ==> {
                &&& r matches Some(s) && s@ == old(self).spec_paths()[old(self).spec_index()]@
                &&& final(self).spec_index() == old(self).spec_index() + 1
            },
            old(self).spec_index() >= old(self).spec_paths().len() ==> r is None && *final(self)
                == *old(self),
            final(self).spec_paths() == old(self).spec_paths(),
    {
        if self.index < self.paths.len() {
            let s: &'a String = &self.paths[self.index];
            self.index += 1;
            Some(s.as_str())
        } else {
            None
        }
    }
}

} // verus!
