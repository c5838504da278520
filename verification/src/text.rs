//! Text payloads.
//!
//! A clipboard text payload is a zero-terminated byte string. The watcher
//! itself never captures text — only bitmaps — but the utility that reads the
//! clipboard's text needs the same split as the bitmap path: the driver copies
//! the locked payload, and the decoding of its bytes is done and verified
//! here: the bytes before the first terminating zero, read as UTF-8.

use vstd::prelude::*;
use vstd::utf8::{encode_utf8, valid_utf8};

verus! {

/// How many bytes precede the first zero (the whole length when none
/// occurs).
pub open spec fn nul_prefix_len(b: Seq<u8>) -> int
    decreases b.len(),
{
    if b.len() == 0 {
        0
    } else if b[0] == 0 {
        0
    } else {
        1 + nul_prefix_len(b.drop_first())
    }
}

/// The prefix of bytes before position `i` is zero-free and `i` carries the
/// first zero (or is the end), exactly when the zero-free prefix is `i` bytes
/// long.
proof fn lemma_nul_prefix_len_at(b: Seq<u8>, i: int)
    requires
        0 <= i <= b.len(),
        forall|j: int| 0 <= j < i ==> b[j] != 0,
        i < b.len() ==> b[i] == 0,
    ensures
        nul_prefix_len(b) == i,
    decreases i,
{
    if i > 0 {
        lemma_nul_prefix_len_at(b.drop_first(), i - 1);
    }
}

/// Relies on `String::from_utf8`: it succeeds exactly on valid UTF-8 and
/// returns the string those bytes encode.
#[verifier::external_body]
fn utf8_string(bytes: Vec<u8>) -> (r: Option<String>)
    ensures
        r is Some <==> valid_utf8(bytes@),
        r matches Some(s) ==> encode_utf8(s@) == bytes@,
{
    match String::from_utf8(bytes) {
        Ok(s) => Some(s),
        Err(_) => None,
    }
}

/// The position of the payload's first zero byte, if it has one.
fn find_nul(payload: &Vec<u8>) -> (r: Option<usize>)
    ensures
        r matches Some(i) ==> i == nul_prefix_len(payload@) && i < payload@.len(),
        r is None ==> nul_prefix_len(payload@) == payload@.len(),
{
    let mut i: usize = 0;
    while i < payload.len()
        invariant
            i <= payload@.len(),
            forall|j: int| 0 <= j < i ==> payload@[j] != 0,
        decreases payload@.len() - i,
    {
        if payload[i] == 0 {
            proof {
                lemma_nul_prefix_len_at(payload@, i as int);
            }
            return Some(i);
        }
        i = i + 1;
    }
    proof {
        lemma_nul_prefix_len_at(payload@, payload@.len() as int);
    }
    None
}

/// The text in a clipboard text payload: the bytes before the first
/// terminating zero, decoded as UTF-8. Nothing comes back for a payload with
/// no terminator or with bytes that are not UTF-8.
pub fn clipboard_text(payload: &Vec<u8>) -> (r: Option<String>)
    ensures
        r is Some <==> nul_prefix_len(payload@) < payload@.len() && valid_utf8(
            payload@.subrange(0, nul_prefix_len(payload@)),
        ),
        r matches Some(s) ==> encode_utf8(s@) == payload@.subrange(
            0,
            nul_prefix_len(payload@),
        ),
{
    let end = match find_nul(payload) {
        Some(i) => i,
        None => {
            return None;
        },
    };
    let mut prefix: Vec<u8> = Vec::new();
    let mut j: usize = 0;
    while j < end
        invariant
            j <= end,
            end < payload@.len(),
            prefix@ == payload@.subrange(0, j as int),
        decreases end - j,
    {
        prefix.push(payload[j]);
        assert(prefix@ =~= payload@.subrange(0, j + 1));
        j = j + 1;
    }
    utf8_string(prefix)
}

} // verus!
