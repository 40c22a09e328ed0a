//! The `index=value` arguments a command line uses to change a label or a
//! route.
use crate::text::{chars_of, find_char, find_char_in, parse_decimal, parse_decimal_in, string_of_range};
use vstd::prelude::*;

verus! {

#[derive(Clone, Copy, Debug, PartialEq, Eq, Structural)]
pub enum Error {
    /// An index that is not a decimal fitting in `usize`, or a missing one.
    ParseIntError,
}

/// `index=text`, such as `1=my new label`.
#[derive(Clone, Debug, PartialEq, Eq)]
pub struct IndexAndStr {
    pub index: usize,
    pub value: String,
}

/// `a=b`, such as `15=40`.
#[derive(Clone, Copy, Debug, PartialEq, Eq, Structural)]
pub struct IndexAndIndex {
    pub a: usize,
    pub b: usize,
}

/// What `index=text` holds: the index before the first `=`, and the text
/// after it (empty when there is no `=`).
pub open spec fn index_and_str(s: Seq<char>) -> Option<(usize, Seq<char>)> {
    let e = find_char(s, 0, '=');
    match parse_decimal(s.subrange(0, e)) {
        None => None,
        Some(i) => Some(
            (i, if e < s.len() {
                s.subrange(e + 1, s.len() as int)
            } else {
                Seq::empty()
            }),
        ),
    }
}

/// What `a=b` holds: the numbers before the first `=` and between it and the
/// next `=` (or the end).
pub open spec fn index_and_index(s: Seq<char>) -> Option<(usize, usize)> {
    let e = find_char(s, 0, '=');
    let f = find_char(s, e + 1, '=');
    if e >= s.len() {
        None
    } else {
        match (parse_decimal(s.subrange(0, e)), parse_decimal(s.subrange(e + 1, f))) {
            (Some(a), Some(b)) => Some((a, b)),
            _ => None,
        }
    }
}

impl IndexAndStr {
    pub fn parse(s: &str) -> (r: Result<IndexAndStr, Error>)
        ensures
            match index_and_str(s@) {
                Some((i, v)) => r is Ok && r->Ok_0.index == i && r->Ok_0.value@ == v,
                None => r == Err::<IndexAndStr, Error>(Error::ParseIntError),
            },
    {
        let cs = chars_of(s);
        assert(cs@.subrange(0, cs@.len() as int) =~= cs@);
        let e = find_char_in(&cs, 0, cs.len(), '=');
        match parse_decimal_in(&cs, 0, e) {
            None => Err(Error::ParseIntError),
            Some(index) => {
                let value = if e < cs.len() {
                    string_of_range(&cs, e + 1, cs.len())
                } else {
                    String::new()
                };
                Ok(IndexAndStr { index, value })
            },
        }
    }
}

impl IndexAndIndex {
    pub fn parse(s: &str) -> (r: Result<IndexAndIndex, Error>)
        ensures
            match index_and_index(s@) {
                Some((a, b)) => r == Ok::<IndexAndIndex, Error>(IndexAndIndex { a, b }),
                None => r == Err::<IndexAndIndex, Error>(Error::ParseIntError),
            },
    {
        let cs = chars_of(s);
        assert(cs@.subrange(0, cs@.len() as int) =~= cs@);
        let e = find_char_in(&cs, 0, cs.len(), '=');
        if e == cs.len() {
            return Err(Error::ParseIntError);
        }
        let f = find_char_in(&cs, e + 1, cs.len(), '=');
        proof {
            let t = s@.subrange(e + 1, s@.len() as int);
            assert(find_char(t, 0, '=') + e + 1 == find_char(s@, e + 1, '=')) by {
                lemma_find_char_shift(s@, e + 1, 0, '=');
            }
        }
        let a = parse_decimal_in(&cs, 0, e);
        let b = parse_decimal_in(&cs, e + 1, f);
        match (a, b) {
            (Some(a), Some(b)) => Ok(IndexAndIndex { a, b }),
            _ => Err(Error::ParseIntError),
        }
    }
}

/// Searching a suffix of `s` is searching `s` from where the suffix starts.
proof fn lemma_find_char_shift(s: Seq<char>, off: int, i: int, c: char)
    requires
        0 <= off <= s.len(),
        0 <= i <= s.len() - off,
    ensures
        find_char(s.subrange(off, s.len() as int), i, c) + off == find_char(s, i + off, c),
    decreases s.len() - off - i,
{
    if i < s.len() - off {
        lemma_find_char_shift(s, off, i + 1, c);
    }
}

} // verus!
