use vstd::prelude::*;
use vstd::utf8::{decode_utf8, encode_utf8, valid_utf8};

verus! {

/// What `String::from_utf8_lossy` makes of a byte sequence: the text that
/// the bytes encode, with U+FFFD in place of what is not UTF-8.
pub uninterp spec fn utf8_lossy(bytes: Seq<u8>) -> Seq<char>;

/// The text of a body: the text that the bytes encode where they are UTF-8,
/// and what the lossy conversion makes of them where they are not.
pub open spec fn body_text(bytes: Seq<u8>) -> Seq<char> {
    if valid_utf8(bytes) {
        decode_utf8(bytes)
    } else {
        utf8_lossy(bytes)
    }
}

/// Calls `String::from_utf8_lossy` and takes the result as a `String`. On
/// valid UTF-8 the conversion replaces nothing and hands back the text that
/// the bytes encode; on other bytes the result is what `utf8_lossy` names.
#[verifier::external_body]
pub(crate) fn lossy_text(bytes: &[u8]) -> (text: String)
    ensures
        valid_utf8(bytes@) ==> text@ == decode_utf8(bytes@),
        !valid_utf8(bytes@) ==> text@ == utf8_lossy(bytes@),
{
    String::from_utf8_lossy(bytes).into_owned()
}

/// The body that encodes a text reads back as that text.
pub proof fn lemma_body_text_of_encoding(text: Seq<char>)
    ensures
        body_text(encode_utf8(text)) == text,
{
    vstd::utf8::encode_utf8_valid_utf8(text);
    vstd::utf8::encode_utf8_decode_utf8(text);
}

/// The ten decimal digits in order.
pub open spec fn digits() -> Seq<char> {
    seq!['0', '1', '2', '3', '4', '5', '6', '7', '8', '9']
}

/// The decimal writing of `n`, most significant digit first, without sign
/// or leading zeros.
pub open spec fn decimal(n: nat) -> Seq<char>
    decreases n,
{
    if n < 10 {
        seq![digits()[n as int]]
    } else {
        decimal(n / 10).push(digits()[(n % 10) as int])
    }
}

fn digit_str(d: u32) -> (s: &'static str)
    requires
        d < 10,
    ensures
        s@ == seq![digits()[d as int]],
{
    proof {
        reveal_strlit("0");
        reveal_strlit("1");
        reveal_strlit("2");
        reveal_strlit("3");
        reveal_strlit("4");
        reveal_strlit("5");
        reveal_strlit("6");
        reveal_strlit("7");
        reveal_strlit("8");
        reveal_strlit("9");
    }
    let s = match d {
        0 => "0",
        1 => "1",
        2 => "2",
        3 => "3",
        4 => "4",
        5 => "5",
        6 => "6",
        7 => "7",
        8 => "8",
        _ => "9",
    };
    assert(s@ =~= seq![digits()[d as int]]);
    s
}

/// Appends the decimal writing of `n` to `out`.
pub fn push_decimal(out: &mut String, n: u32)
    ensures
        final(out)@ == old(out)@ + decimal(n as nat),
    decreases n,
{
    if n >= 10 {
        push_decimal(out, n / 10);
    }
    out.append(digit_str(n % 10));
    proof {
        if n >= 10 {
            assert(old(out)@ + decimal((n / 10) as nat) + seq![digits()[(n % 10) as int]]
                =~= old(out)@ + decimal(n as nat));
        }
    }
}

/// The decimal writing of `n` as a string.
pub fn decimal_string(n: u32) -> (s: String)
    ensures
        s@ == decimal(n as nat),
{
    let mut s = String::new();
    push_decimal(&mut s, n);
    assert(Seq::<char>::empty() + decimal(n as nat) =~= decimal(n as nat));
    s
}

/// The part of `s` before its first `/`; all of `s` where it has none.
pub open spec fn leading_segment(s: Seq<char>) -> Seq<char> {
    match s.index_of_first('/') {
        Some(i) => s.take(i),
        None => s,
    }
}

/// The part of `s` after its first `/`, further `/` included; empty where
/// `s` has none.
pub open spec fn after_segment(s: Seq<char>) -> Seq<char> {
    match s.index_of_first('/') {
        Some(i) => s.skip(i + 1),
        None => Seq::empty(),
    }
}

/// The first `/` of `s` is the one at `i`.
pub open spec fn first_slash_at(s: Seq<char>, i: int) -> bool {
    &&& 0 <= i < s.len()
    &&& s[i] == '/'
    &&& forall|j: int| 0 <= j < i ==> s[j] != '/'
}

/// The first `/` is where `index_of_first` finds it, and only there.
pub proof fn lemma_first_slash(s: Seq<char>, i: int)
    requires
        first_slash_at(s, i),
    ensures
        s.index_of_first('/') == Some(i),
{
    s.index_of_first_ensures('/');
    assert(s.contains('/'));
}

/// A sequence without `/` has no first one.
pub proof fn lemma_no_slash(s: Seq<char>)
    requires
        forall|j: int| 0 <= j < s.len() ==> s[j] != '/',
    ensures
        s.index_of_first('/') is None,
{
    s.index_of_first_ensures('/');
}

/// A text that is put together of a first part without `/`, a `/` and a
/// rest splits into that first part and that rest, whatever the rest holds.
pub proof fn lemma_split_of_joined(head: Seq<char>, rest: Seq<char>)
    requires
        forall|j: int| 0 <= j < head.len() ==> head[j] != '/',
    ensures
        leading_segment(head + seq!['/'] + rest) == head,
        after_segment(head + seq!['/'] + rest) == rest,
{
    let s = head + seq!['/'] + rest;
    let i = head.len() as int;
    assert(first_slash_at(s, i));
    lemma_first_slash(s, i);
    assert(s.take(i) =~= head);
    assert(s.skip(i + 1) =~= rest);
}

/// A text without `/` is its own first part, and nothing comes after it.
pub proof fn lemma_split_of_single(s: Seq<char>)
    requires
        forall|j: int| 0 <= j < s.len() ==> s[j] != '/',
    ensures
        leading_segment(s) == s,
        after_segment(s) == Seq::<char>::empty(),
{
    lemma_no_slash(s);
}

/// The two parts of a split, with the `/` between them, make up the text
/// again.
pub proof fn lemma_split_joins(s: Seq<char>)
    requires
        s.index_of_first('/') is Some,
    ensures
        leading_segment(s) + seq!['/'] + after_segment(s) == s,
        forall|j: int| 0 <= j < leading_segment(s).len() ==> leading_segment(s)[j] != '/',
{
    s.index_of_first_ensures('/');
    let i = s.index_of_first('/')->Some_0;
    assert(s.take(i) + seq!['/'] + s.skip(i + 1) =~= s);
}

/// The position, counted in characters, of the first `/` of `s`.
pub fn first_slash(s: &str) -> (found: Option<usize>)
    ensures
        match found {
            Some(i) => first_slash_at(s@, i as int),
            None => forall|j: int| 0 <= j < s@.len() ==> s@[j] != '/',
        },
{
    let n = s.unicode_len();
    let mut i: usize = 0;
    for c in it: s.chars()
        invariant
            i == it.index(),
            it.seq() == s@,
            n == s@.len(),
            forall|j: int| 0 <= j < i ==> s@[j] != '/',
    {
        if c == '/' {
            return Some(i);
        }
        i += 1;
    }
    None
}

/// Splits `s` at its first `/`: what stands before it and what stands
/// after it. Without a `/` the first part is `s` and the second is empty.
pub fn split_first_segment(s: &str) -> (parts: (String, String))
    ensures
        parts.0@ == leading_segment(s@),
        parts.1@ == after_segment(s@),
{
    match first_slash(s) {
        Some(i) => {
            proof {
                lemma_first_slash(s@, i as int);
            }
            let n = s.unicode_len();
            let head = s.substring_char(0, i);
            let tail = s.substring_char(i + 1, n);
            (String::from_str(head), String::from_str(tail))
        },
        None => {
            proof {
                lemma_no_slash(s@);
            }
            (String::from_str(s), String::new())
        },
    }
}

} // verus!
