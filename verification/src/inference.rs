//! The compact flag-name convention: a bare argument written as
//! `-<short>/--<long>` names both forms of one flag.

use vstd::prelude::*;

verus! {

/// An ASCII letter.
pub open spec fn is_letter(c: char) -> bool {
    ('a' <= c && c <= 'z') || ('A' <= c && c <= 'Z')
}

/// A character that may follow the first letter of a long flag name.
pub open spec fn is_long_char(c: char) -> bool {
    is_letter(c) || ('0' <= c && c <= '9') || c == '-'
}

/// Whether `text` has the shape `-<letter>/--<letter>[<letter|digit|hyphen>...]`.
pub open spec fn is_compact_name(text: Seq<char>) -> bool {
    &&& text.len() >= 6
    &&& text[0] == '-'
    &&& is_letter(text[1])
    &&& text[2] == '/'
    &&& text[3] == '-'
    &&& text[4] == '-'
    &&& is_letter(text[5])
    &&& forall|i: int| 6 <= i < text.len() ==> is_long_char(#[trigger] text[i])
}

/// The short and the long name that a compact flag name carries.
pub open spec fn short_long_of(text: Seq<char>) -> Option<(Seq<char>, Seq<char>)> {
    if is_compact_name(text) {
        Some((text.subrange(1, 2), text.subrange(5, text.len() as int)))
    } else {
        None
    }
}

/// The parts of a compact flag name: the short name is one letter, the long
/// name is a letter followed by letters, digits and hyphens, and the text is
/// a hyphen, the short name, `/--` and the long name.
pub proof fn lemma_compact_parts(text: Seq<char>)
    requires
        is_compact_name(text),
    ensures
        short_long_of(text) matches Some((short, long)) && {
            &&& short.len() == 1
            &&& is_letter(short[0])
            &&& long.len() >= 1
            &&& is_letter(long[0])
            &&& forall|i: int| 0 <= i < long.len() ==> is_long_char(#[trigger] long[i])
            &&& text == seq!['-'] + short + seq!['/', '-', '-'] + long
        },
{
    let (short, long) = short_long_of(text)->Some_0;
    assert forall|i: int| 0 <= i < long.len() implies is_long_char(#[trigger] long[i]) by {
        assert(long[i] == text[i + 5]);
    }
    assert(text =~= seq!['-'] + short + seq!['/', '-', '-'] + long);
}

/// What the character at position `at` of a compact flag name must be.
pub open spec fn fits_at(at: int, c: char) -> bool {
    if at == 0 || at == 3 || at == 4 {
        c == '-'
    } else if at == 2 {
        c == '/'
    } else if at == 1 || at == 5 {
        is_letter(c)
    } else {
        is_long_char(c)
    }
}

fn letter(c: char) -> (r: bool)
    ensures
        r == is_letter(c),
{
    (c >= 'a' && c <= 'z') || (c >= 'A' && c <= 'Z')
}

fn fits(at: usize, c: char) -> (r: bool)
    ensures
        r == fits_at(at as int, c),
{
    if at == 0 || at == 3 || at == 4 {
        c == '-'
    } else if at == 2 {
        c == '/'
    } else if at == 1 || at == 5 {
        letter(c)
    } else {
        letter(c) || (c >= '0' && c <= '9') || c == '-'
    }
}

/// A text is a compact flag name exactly when it has six characters or more
/// and each one is what its position asks for.
pub proof fn lemma_compact_by_position(text: Seq<char>)
    ensures
        is_compact_name(text) <==> (text.len() >= 6 && forall|i: int|
            0 <= i < text.len() ==> fits_at(i, #[trigger] text[i])),
{
    if text.len() >= 6 && (forall|i: int| 0 <= i < text.len() ==> fits_at(i, #[trigger] text[i])) {
        assert(fits_at(0, text[0]));
        assert(fits_at(1, text[1]));
        assert(fits_at(2, text[2]));
        assert(fits_at(3, text[3]));
        assert(fits_at(4, text[4]));
        assert(fits_at(5, text[5]));
        assert forall|i: int| 6 <= i < text.len() implies is_long_char(#[trigger] text[i]) by {
            assert(fits_at(i, text[i]));
        }
    }
}

/// Splits a compact flag name into its short and its long name; `None` for
/// any other text.
pub fn extract_short_long_name(haystack: &str) -> (r: Option<(String, String)>)
    ensures
        match r {
            Some((short, long)) => short_long_of(haystack@) == Some((short@, long@)),
            None => short_long_of(haystack@) is None,
        },
{
    let n: usize = haystack.unicode_len();
    if n < 6 {
        return None;
    }
    let mut at: usize = 0;
    let mut ok: bool = true;
    for c in it: haystack.chars()
        invariant
            n == haystack@.len(),
            it.seq() == haystack@,
            at == it.index(),
            ok <==> forall|i: int| 0 <= i < at ==> fits_at(i, #[trigger] haystack@[i]),
    {
        ok = ok && fits(at, c);
        at = at + 1;
    }
    proof {
        lemma_compact_by_position(haystack@);
    }
    if !ok {
        return None;
    }
    let short = haystack.substring_char(1, 2).to_owned();
    let long = haystack.substring_char(5, n).to_owned();
    Some((short, long))
}

} // verus!
