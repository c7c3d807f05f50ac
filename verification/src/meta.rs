//! The metadata record published by a primary instance.
//!
//! The record is one text file: the primary's process id in decimal, one
//! newline, then the free-form info string. Parsing splits on the first
//! newline only; a record without a newline yields no process id and the
//! whole content as info, so a truncated or foreign file degrades gracefully
//! instead of failing a secondary.

use crate::digits::{dec_parse, dec_rep, lemma_dec_rep_digits, lemma_dec_rep_no_newline,
    lemma_dec_rep_round_trip, parse_u32, encode_u32};
use vstd::prelude::*;
use vstd::string::{StrSliceExecFns, StringExecFns};

verus! {

/// Whether `i` is the index of the first newline of `s`.
pub open spec fn is_first_nl(s: Seq<char>, i: int) -> bool {
    &&& 0 <= i < s.len()
    &&& s[i] == '\n'
    &&& forall|j: int| 0 <= j < i ==> s[j] != '\n'
}

/// Whether `s` contains a newline.
pub open spec fn has_nl(s: Seq<char>) -> bool {
    exists|i: int| is_first_nl(s, i)
}

/// The index of the first newline of `s` (meaningful only when `has_nl(s)`).
pub open spec fn first_nl(s: Seq<char>) -> int {
    choose|i: int| is_first_nl(s, i)
}

/// The process id recovered from metadata content `s`: the decimal value of
/// everything before the first newline, or nothing when no newline or no
/// valid number is there.
pub open spec fn meta_pid(s: Seq<char>) -> Option<u32> {
    if has_nl(s) {
        dec_parse(s.subrange(0, first_nl(s)))
    } else {
        None
    }
}

/// The info string recovered from metadata content `s`: everything after the
/// first newline, or all of `s` when no newline is there.
pub open spec fn meta_info(s: Seq<char>) -> Seq<char> {
    if has_nl(s) {
        s.subrange(first_nl(s) + 1, s.len() as int)
    } else {
        s
    }
}

/// The exact content a primary with id `pid` and info `info` publishes.
pub open spec fn meta_content(pid: u32, info: Seq<char>) -> Seq<char> {
    dec_rep(pid as nat) + seq!['\n'] + info
}

/// The first newline index is unique.
proof fn lemma_first_nl_at(s: Seq<char>, i: int)
    requires
        is_first_nl(s, i),
    ensures
        has_nl(s),
        first_nl(s) == i,
{
    assert(has_nl(s));
    let c = first_nl(s);
    if c < i {
        assert(s[c] == '\n');
        assert(false);
    } else if c > i {
        assert(s[i] == '\n');
        assert(false);
    }
}

/// Encodes the metadata record for a primary: decimal pid, newline, info.
pub fn encode_meta(pid: u32, info: &str) -> (r: String)
    ensures
        r@ == meta_content(pid, info@),
{
    let mut s = encode_u32(pid);
    s.append("\n");
    s.append(info);
    proof {
        reveal_strlit("\n");
        assert(s@ =~= meta_content(pid, info@));
    }
    s
}

/// Parses a metadata record: the decimal value before the first newline as
/// the pid, everything after it as the info string; without a newline, no
/// pid and the whole content as info.
pub fn parse_meta(content: &str) -> (r: (Option<u32>, String))
    ensures
        r.0 == meta_pid(content@),
        r.1@ == meta_info(content@),
{
    let n = content.unicode_len();
    let mut i: usize = 0;
    while i < n
        invariant
            0 <= i <= n,
            n == content@.len(),
            forall|j: int| 0 <= j < i ==> content@[j] != '\n',
        decreases n - i,
    {
        let c = content.get_char(i);
        if c == '\n' {
            proof {
                lemma_first_nl_at(content@, i as int);
            }
            let pid_part = content.substring_char(0, i);
            let info_part = content.substring_char(i + 1, n);
            let pid = parse_u32(pid_part);
            return (pid, info_part.to_owned());
        }
        i = i + 1;
    }
    assert(!has_nl(content@));
    (None, content.to_owned())
}

/// What a primary publishes, a secondary reads back exactly: parsing the
/// encoded record recovers the pid and the info string unchanged, whatever
/// the info string holds.
pub proof fn lemma_publish_read_exact(pid: u32, info: Seq<char>)
    ensures
        meta_pid(meta_content(pid, info)) == Some(pid),
        meta_info(meta_content(pid, info)) == info,
{
    let s = meta_content(pid, info);
    let rep = dec_rep(pid as nat);
    let k = rep.len() as int;
    lemma_dec_rep_digits(pid as nat);
    lemma_dec_rep_no_newline(pid as nat);
    assert(s[k] == '\n');
    assert(forall|j: int| 0 <= j < k ==> s[j] == rep[j]);
    assert(is_first_nl(s, k));
    lemma_first_nl_at(s, k);
    assert(s.subrange(0, k) =~= rep);
    lemma_dec_rep_round_trip(pid);
    assert(s.subrange(k + 1, s.len() as int) =~= info);
}

} // verus!
