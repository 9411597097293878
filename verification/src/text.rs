//! Text helpers shared by the renderers: joining, searching, filtering and
//! comparing strings, each specified over `Seq<char>`.

use vstd::prelude::*;
use vstd::string::*;
use vstd::utf8::{encode_utf8, encode_utf8_decode_utf8};

verus! {

/// The first `count` entries of `parts`, each but the first preceded by `sep`.
pub open spec fn joined_prefix(parts: Seq<Seq<char>>, sep: Seq<char>, count: nat) -> Seq<char>
    decreases count,
{
    if count == 0 {
        Seq::empty()
    } else if count == 1 {
        parts[0]
    } else {
        joined_prefix(parts, sep, (count - 1) as nat) + sep + parts[count - 1]
    }
}

/// All of `parts`, with `sep` between neighbours.
pub open spec fn joined(parts: Seq<Seq<char>>, sep: Seq<char>) -> Seq<char> {
    joined_prefix(parts, sep, parts.len())
}

/// Number of characters of `s` that come before the first `stop`
/// (all of them when `stop` does not occur).
pub open spec fn stop_index(s: Seq<char>, stop: char) -> nat
    decreases s.len(),
{
    if s.len() == 0 || s.first() == stop {
        0
    } else {
        1 + stop_index(s.drop_first(), stop)
    }
}

/// The part of `s` in front of the first `stop`.
pub open spec fn prefix_before(s: Seq<char>, stop: char) -> Seq<char> {
    s.subrange(0, stop_index(s, stop) as int)
}

/// Whether `c` may start an identifier: an ASCII letter or an underscore.
pub open spec fn identifier_start(c: char) -> bool {
    ('a' <= c && c <= 'z') || ('A' <= c && c <= 'Z') || c == '_'
}

/// Whether `c` may stand inside an identifier: what may start one, or an
/// ASCII digit.
pub open spec fn identifier_part(c: char) -> bool {
    identifier_start(c) || ('0' <= c && c <= '9')
}

/// Whether `s` is an identifier: not empty, made of ASCII letters, digits
/// and underscores, and not starting with a digit.
pub open spec fn valid_identifier(s: Seq<char>) -> bool {
    &&& s.len() > 0
    &&& identifier_start(s[0])
    &&& forall|i: int| 0 < i < s.len() ==> identifier_part(#[trigger] s[i])
}

/// The lowercase form of a string as `str::to_lowercase` computes it from
/// the Unicode tables. It depends on the string alone; what it is on a
/// given string is not stated here.
pub uninterp spec fn lowercased(s: Seq<char>) -> Seq<char>;

/// Whether a character is alphabetic or numeric by its Unicode properties,
/// as `char::is_alphanumeric` decides it. What it is on a given character
/// is not stated here.
pub uninterp spec fn alphanumeric(c: char) -> bool;

/// The alphanumeric characters among the first `count` of `s`, in order.
pub open spec fn alphanumeric_prefix(s: Seq<char>, count: nat) -> Seq<char>
    decreases count,
{
    if count == 0 {
        Seq::empty()
    } else if alphanumeric(s[count - 1]) {
        alphanumeric_prefix(s, (count - 1) as nat).push(s[count - 1])
    } else {
        alphanumeric_prefix(s, (count - 1) as nat)
    }
}

/// `s` without the characters that are not alphanumeric.
pub open spec fn alphanumeric_only(s: Seq<char>) -> Seq<char> {
    alphanumeric_prefix(s, s.len())
}

/// Whether `a` and `b` hold the same characters. Their encodings are
/// compared byte by byte; equal encodings mean equal characters because
/// decoding undoes encoding.
pub fn same_text(a: &str, b: &str) -> (same: bool)
    ensures
        same == (a@ == b@),
{
    let left = a.as_bytes();
    let right = b.as_bytes();
    proof {
        encode_utf8_decode_utf8(a@);
        encode_utf8_decode_utf8(b@);
    }
    if left.len() != right.len() {
        return false;
    }
    let mut i: usize = 0;
    while i < left.len()
        invariant
            i <= left.len(),
            left.len() == right.len(),
            forall|k: int| 0 <= k < i ==> left@[k] == right@[k],
            left@ == encode_utf8(a@),
            right@ == encode_utf8(b@),
        decreases left.len() - i,
    {
        if left[i] != right[i] {
            return false;
        }
        i = i + 1;
    }
    assert(left@ =~= right@);
    true
}

/// Calls `str::to_lowercase`. Trusted, not proved: the call returns the
/// lowercase form of `s`, which contracts name [`lowercased`].
#[verifier::external_body]
pub(crate) fn lowercase(s: &str) -> (lower: String)
    ensures
        lower@ == lowercased(s@),
{
    s.to_lowercase()
}

/// Calls `char::is_alphanumeric`. Trusted, not proved: the call says
/// whether `c` is alphabetic or numeric, which contracts name
/// [`alphanumeric`].
#[verifier::external_body]
pub(crate) fn is_alphanumeric(c: char) -> (yes: bool)
    ensures
        yes == alphanumeric(c),
{
    c.is_alphanumeric()
}

/// Calls `String::push`. Trusted, not proved: afterwards `s` holds the
/// characters it held before, followed by `c`.
#[verifier::external_body]
pub(crate) fn push_char(s: &mut String, c: char)
    ensures
        final(s)@ == old(s)@.push(c),
{
    s.push(c)
}

/// `stop_index` is the one position that ends a run free of `stop`.
pub proof fn lemma_stop_index_is(s: Seq<char>, stop: char, n: int)
    requires
        0 <= n <= s.len(),
        forall|i: int| 0 <= i < n ==> s[i] != stop,
        n < s.len() ==> s[n] == stop,
    ensures
        stop_index(s, stop) == n,
    decreases s.len(),
{
    if s.len() == 0 || s.first() == stop {
    } else {
        let rest = s.drop_first();
        assert forall|i: int| 0 <= i < n - 1 implies rest[i] != stop by {
            assert(rest[i] == s[i + 1]);
        }
        lemma_stop_index_is(rest, stop, n - 1);
    }
}

/// Joins `parts` with `sep` between neighbours.
pub fn join(parts: &Vec<String>, sep: &str) -> (out: String)
    ensures
        out@ == joined(parts.deep_view(), sep@),
{
    let mut out = String::new();
    let mut i: usize = 0;
    while i < parts.len()
        invariant
            i <= parts.len(),
            out@ == joined_prefix(parts.deep_view(), sep@, i as nat),
        decreases parts.len() - i,
    {
        if i > 0 {
            out.append(sep);
        }
        out.append(parts[i].as_str());
        i = i + 1;
    }
    out
}

/// The part of `s` in front of its first `stop`; all of `s` when there is none.
pub fn leading_part(s: &str, stop: char) -> (head: &str)
    ensures
        head@ == prefix_before(s@, stop),
{
    let total: usize = s.unicode_len();
    let mut n: usize = 0;
    let mut found = false;
    for ch in it: s.chars()
        invariant
            total == s@.len(),
            it.seq() == s@,
            n <= it.index() <= total,
            forall|i: int| 0 <= i < n ==> s@[i] != stop,
            found ==> n < s@.len() && s@[n as int] == stop,
            !found ==> n == it.index(),
    {
        if !found {
            if ch == stop {
                found = true;
            } else {
                n = n + 1;
            }
        }
    }
    proof {
        lemma_stop_index_is(s@, stop, n as int);
    }
    s.substring_char(0, n)
}

/// The alphanumeric characters of `s`, in order.
pub fn keep_alphanumeric(s: &str) -> (kept: String)
    ensures
        kept@ == alphanumeric_only(s@),
{
    let mut kept = String::new();
    for ch in it: s.chars()
        invariant
            it.seq() == s@,
            kept@ == alphanumeric_prefix(s@, it.index() as nat),
    {
        if is_alphanumeric(ch) {
            push_char(&mut kept, ch);
        }
    }
    kept
}

/// Whether `s` is an identifier.
pub fn is_valid_identifier(s: &str) -> (valid: bool)
    ensures
        valid == valid_identifier(s@),
{
    let mut valid = true;
    let mut seen = false;
    for ch in it: s.chars()
        invariant
            it.seq() == s@,
            seen == (it.index() > 0),
            valid == (it.index() == 0 || (identifier_start(s@[0]) && forall|i: int|
                0 < i < it.index() ==> identifier_part(#[trigger] s@[i]))),
    {
        let letter = ('a' <= ch && ch <= 'z') || ('A' <= ch && ch <= 'Z') || ch == '_';
        if !seen {
            valid = letter;
            seen = true;
        } else if !(letter || ('0' <= ch && ch <= '9')) {
            valid = false;
        }
    }
    valid && seen
}

/// Whether one of `items` is exactly `wanted`.
pub fn contains_text(items: &Vec<String>, wanted: &str) -> (found: bool)
    ensures
        found == items.deep_view().contains(wanted@),
{
    let mut i: usize = 0;
    while i < items.len()
        invariant
            i <= items.len(),
            forall|k: int| 0 <= k < i ==> items.deep_view()[k] != wanted@,
        decreases items.len() - i,
    {
        if same_text(items[i].as_str(), wanted) {
            assert(items.deep_view()[i as int] == wanted@);
            return true;
        }
        i = i + 1;
    }
    false
}

} // verus!
