//! Reads facts out of the engine's own info listing.
//!
//! The listing is line-oriented `Key => value` text; [`PHPInfo`] wraps one
//! capture of it and answers which API version the engine speaks and which
//! build switches are on. Obtaining the listing means running the engine
//! binary, which is the caller's business; everything here is pure.

use vstd::prelude::*;

use crate::bytes_util::bytes_eq;
use crate::bytes_util::dec_value;
use crate::bytes_util::find_byte;
use crate::bytes_util::find_subslice;
use crate::bytes_util::is_dec_digits;
use crate::bytes_util::matches_at;
use crate::bytes_util::parse_u64;
use crate::bytes_util::push_all;
use crate::bytes_util::to_vec;

verus! {

/// The separator between a key and its value in the engine's info listing.
pub const KEY_SEPARATOR: [u8; 4] = [32u8, 61u8, 62u8, 32u8];

/// ASCII for `PHP API`.
pub const PHP_API_KEY: [u8; 7] = [80u8, 72u8, 80u8, 32u8, 65u8, 80u8, 73u8];

/// ASCII for `Thread Safety`.
pub const THREAD_SAFETY_KEY: [u8; 13] = [84u8, 104u8, 114u8, 101u8, 97u8, 100u8, 32u8, 83u8, 97u8, 102u8, 101u8, 116u8, 121u8];

/// ASCII for `Zend Max Execution Timers`.
pub const ZEND_TIMERS_KEY: [u8; 25] = [90u8, 101u8, 110u8, 100u8, 32u8, 77u8, 97u8, 120u8, 32u8, 69u8, 120u8, 101u8, 99u8, 117u8, 116u8, 105u8, 111u8, 110u8, 32u8, 84u8, 105u8, 109u8, 101u8, 114u8, 115u8];

/// ASCII for `enabled`.
pub const ENABLED_TEXT: [u8; 7] = [101u8, 110u8, 97u8, 98u8, 108u8, 101u8, 100u8];

/// `needle` occurs somewhere in `haystack`.
pub open spec fn has_match(haystack: Seq<u8>, needle: Seq<u8>) -> bool {
    exists|i: int| matches_at(haystack, needle, i)
}

/// The first offset at which `needle` occurs in `haystack`.
pub open spec fn least_match(haystack: Seq<u8>, needle: Seq<u8>) -> int {
    choose|i: int|
        matches_at(haystack, needle, i) && (forall|j: int|
            0 <= j < i ==> !matches_at(haystack, needle, j))
}

/// A witness of the first occurrence pins down `least_match`.
proof fn lemma_least_match(haystack: Seq<u8>, needle: Seq<u8>, i: int)
    requires
        matches_at(haystack, needle, i),
        forall|j: int| 0 <= j < i ==> !matches_at(haystack, needle, j),
    ensures
        has_match(haystack, needle),
        least_match(haystack, needle) == i,
{
    assert(has_match(haystack, needle));
    assert(exists|k: int|
        matches_at(haystack, needle, k) && (forall|j: int|
            0 <= j < k ==> !matches_at(haystack, needle, j))) by {
        assert(matches_at(haystack, needle, i) && (forall|j: int|
            0 <= j < i ==> !matches_at(haystack, needle, j)));
    }
    let w = least_match(haystack, needle);
    assert(matches_at(haystack, needle, w) && (forall|j: int|
        0 <= j < w ==> !matches_at(haystack, needle, j)));
    if w < i {
        assert(!matches_at(haystack, needle, w));
    }
    if i < w {
        assert(!matches_at(haystack, needle, i));
    }
}

/// `s` holds a line break.
pub open spec fn has_newline(s: Seq<u8>) -> bool {
    exists|i: int| 0 <= i < s.len() && s[i] == 10
}

/// Offset of the first line break in `s`.
pub open spec fn first_newline(s: Seq<u8>) -> int {
    choose|i: int| 0 <= i < s.len() && s[i] == 10 && (forall|j: int| 0 <= j < i ==> s[j] != 10)
}

/// A witness of the first line break pins down `first_newline`.
proof fn lemma_first_newline(s: Seq<u8>, i: int)
    requires
        0 <= i < s.len(),
        s[i] == 10,
        forall|j: int| 0 <= j < i ==> s[j] != 10,
    ensures
        has_newline(s),
        first_newline(s) == i,
{
    assert(has_newline(s));
    assert(exists|k: int|
        0 <= k < s.len() && s[k] == 10 && (forall|j: int| 0 <= j < k ==> s[j] != 10)) by {
        assert(0 <= i < s.len() && s[i] == 10 && (forall|j: int| 0 <= j < i ==> s[j] != 10));
    }
    let w = first_newline(s);
    assert(0 <= w < s.len() && s[w] == 10 && (forall|j: int| 0 <= j < w ==> s[j] != 10));
}

/// Everything up to the first line break, or all of `s` without one.
pub open spec fn line_at(s: Seq<u8>) -> Seq<u8> {
    if has_newline(s) {
        s.take(first_newline(s))
    } else {
        s
    }
}

/// The value listed for `key`: on the line of the first `key => `
/// occurrence, the text between that separator and the next occurrence on
/// the same line, or the line end.
pub open spec fn spec_get_key(info: Seq<u8>, key: Seq<u8>) -> Option<Seq<u8>> {
    let pat = key + KEY_SEPARATOR@;
    if has_match(info, pat) {
        let tail = info.skip(least_match(info, pat) + pat.len());
        let line = line_at(tail);
        if has_match(line, pat) {
            Option::Some(line.take(least_match(line, pat)))
        } else {
            Option::Some(line)
        }
    } else {
        Option::None
    }
}

/// One capture of the engine's info listing.
pub struct PHPInfo {
    info: Vec<u8>,
}

impl View for PHPInfo {
    type V = Seq<u8>;

    closed spec fn view(&self) -> Seq<u8> {
        self.info@
    }
}

impl PHPInfo {
    /// Wraps a captured info listing.
    pub fn new(info: Vec<u8>) -> (r: PHPInfo)
        ensures
            r@ == info@,
    {
        PHPInfo { info }
    }

    /// Looks up the value listed for `key`.
    pub fn get_key(&self, key: &[u8]) -> (r: Option<Vec<u8>>)
        ensures
            (match r {
                Option::Some(v) => spec_get_key(self@, key@) == Option::Some(v@),
                Option::None => spec_get_key(self@, key@) is None,
            }),
    {
        let mut pat = to_vec(key);
        push_all(&mut pat, KEY_SEPARATOR.as_slice());
        let info = self.info.as_slice();
        let info_len = info.len();
        match find_subslice(info, pat.as_slice()) {
            None => {
                proof {
                    if has_match(self@, pat@) {
                        let i = choose|i: int| matches_at(self@, pat@, i);
                        assert(false);
                    }
                }
                None
            },
            Some(i) => {
                proof {
                    lemma_least_match(self@, pat@, i as int);
                    assert(i + pat@.len() <= info_len);
                }
                let start = i + pat.len();
                let tail = vstd::slice::slice_subrange(info, start, info.len());
                proof {
                    assert(tail@ =~= self@.skip(least_match(self@, pat@) + pat@.len()));
                }
                let line_end = match find_byte(tail, 10) {
                    Some(j) => {
                        proof {
                            lemma_first_newline(tail@, j as int);
                        }
                        j
                    },
                    None => {
                        proof {
                            if has_newline(tail@) {
                                let k = choose|k: int| 0 <= k < tail@.len() && tail@[k] == 10;
                                assert(false);
                            }
                        }
                        tail.len()
                    },
                };
                let line = vstd::slice::slice_subrange(tail, 0, line_end);
                proof {
                    assert(line@ =~= line_at(tail@));
                }
                match find_subslice(line, pat.as_slice()) {
                    Some(j) => {
                        proof {
                            lemma_least_match(line@, pat@, j as int);
                        }
                        let v = to_vec(vstd::slice::slice_subrange(line, 0, j));
                        proof {
                            assert(v@ =~= line_at(tail@).take(least_match(line@, pat@)));
                        }
                        Some(v)
                    },
                    None => {
                        proof {
                            if has_match(line@, pat@) {
                                let k = choose|k: int| matches_at(line@, pat@, k);
                                assert(false);
                            }
                        }
                        Some(to_vec(line))
                    },
                }
            },
        }
    }

    /// The engine API version the listing reports, as a number: the decimal
    /// value of the `PHP API` entry, if it is listed as a plain number that
    /// fits.
    pub fn zend_version(&self) -> (r: Option<u32>)
        ensures
            (match spec_get_key(self@, PHP_API_KEY@) {
                Option::Some(v) => if is_dec_digits(v) && dec_value(v) <= u32::MAX {
                    r == Option::Some(dec_value(v) as u32)
                } else {
                    r is None
                },
                Option::None => r is None,
            }),
    {
        match self.get_key(PHP_API_KEY.as_slice()) {
            Some(v) => match parse_u64(v.as_slice()) {
                Some(n) => if n <= u32::MAX as u64 {
                    Some(n as u32)
                } else {
                    None
                },
                None => None,
            },
            None => None,
        }
    }

    /// Whether the engine build is thread safe: the `Thread Safety` entry
    /// reads `enabled`. `None` when the listing lacks the entry.
    pub fn thread_safety(&self) -> (r: Option<bool>)
        ensures
            (match spec_get_key(self@, THREAD_SAFETY_KEY@) {
                Option::Some(v) => r == Option::Some(v == ENABLED_TEXT@),
                Option::None => r is None,
            }),
    {
        match self.get_key(THREAD_SAFETY_KEY.as_slice()) {
            Some(v) => Some(bytes_eq(v.as_slice(), ENABLED_TEXT.as_slice())),
            None => None,
        }
    }

    /// Whether the engine build counts execution time with per-thread
    /// timers: the `Zend Max Execution Timers` entry reads `enabled`.
    /// `None` when the listing lacks the entry.
    pub fn zend_max_execution_timers(&self) -> (r: Option<bool>)
        ensures
            (match spec_get_key(self@, ZEND_TIMERS_KEY@) {
                Option::Some(v) => r == Option::Some(v == ENABLED_TEXT@),
                Option::None => r is None,
            }),
    {
        match self.get_key(ZEND_TIMERS_KEY.as_slice()) {
            Some(v) => Some(bytes_eq(v.as_slice(), ENABLED_TEXT.as_slice())),
            None => None,
        }
    }
}

} // verus!
