//! Small helpers: URLs under the configured prefix, and usernames made safe
//! to log.

use crate::credentials::{alphanumeric, is_alphanumeric};
use crate::text::{concat, push_char, push_str};
use vstd::prelude::*;
use vstd::utf8::{encode_utf8, is_char_boundary};

verus! {

/// `url` under the prefix: unchanged for an empty prefix, else `/<prefix><url>`.
pub open spec fn url_under(prefix: Seq<char>, url: Seq<char>) -> Seq<char> {
    if prefix.len() == 0 {
        url
    } else {
        seq!['/'] + prefix + url
    }
}

/// Places `url` under the configured URL prefix.
pub fn make_url(url_prefix: &str, url: &str) -> (r: String)
    ensures
        r@ == url_under(url_prefix@, url@),
{
    if url_prefix.unicode_len() == 0 {
        url.to_string()
    } else {
        proof {
            reveal_strlit("/");
        }
        let mut s = concat("/", url_prefix);
        push_str(&mut s, url);
        s
    }
}

/// The characters of `s` that are alphanumeric, in order.
pub open spec fn alphanumerics(s: Seq<char>) -> Seq<char> {
    s.filter(|c: char| alphanumeric(c))
}

/// `p` is the part of `username` that is kept for display: the text of its
/// first `max_bytes` bytes where the cut falls on a character boundary, else
/// all of `username`.
pub open spec fn is_display_part(username: Seq<char>, max_bytes: nat, p: Seq<char>) -> bool {
    if max_bytes <= encode_utf8(username).len() && is_char_boundary(encode_utf8(username), max_bytes as int) {
        encode_utf8(p) == encode_utf8(username).subrange(0, max_bytes as int)
    } else {
        p == username
    }
}

/// A username made safe to log or display: cut to `max_username` bytes
/// where that falls on a character boundary, then stripped of everything
/// that is not alphanumeric.
pub fn sanitize_user(username: &str, max_username: u8) -> (r: String)
    ensures
        exists|p: Seq<char>| is_display_part(username@, max_username as nat, p) && r@ == alphanumerics(p),
        forall|i: int| 0 <= i < r@.len() ==> alphanumeric(#[trigger] r@[i]),
{
    let m = max_username as usize;
    let part = if m <= username.as_bytes().len() && username.is_char_boundary(m) {
        let p = username.split_at(m).0;
        proof {
            assert(encode_utf8(p@) == encode_utf8(username@).subrange(0, m as int));
        }
        p
    } else {
        username
    };
    let n = part.unicode_len();
    let mut out = String::new();
    let mut i: usize = 0;
    while i < n
        invariant
            i <= n,
            n == part@.len(),
            out@ == alphanumerics(part@.take(i as int)),
        decreases n - i,
    {
        let c = part.get_char(i);
        proof {
            let t = part@.take(i as int + 1);
            assert(t.drop_last() == part@.take(i as int));
            assert(t.last() == c);
            reveal(Seq::filter);
        }
        if is_alphanumeric(c) {
            push_char(&mut out, c);
        }
        i += 1;
    }
    proof {
        assert(part@.take(i as int) == part@);
        broadcast use vstd::seq_lib::group_filter_ensures;
        assert(is_display_part(username@, max_username as nat, part@));
    }
    out
}

} // verus!
