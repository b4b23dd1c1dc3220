//! Strings as sequences of characters: what trimming leaves of one.

use vstd::prelude::*;

verus! {

/// The characters with the Unicode property `White_Space`.
pub open spec fn is_white_space(c: char) -> bool {
    ||| '\u{9}' <= c <= '\u{d}'
    ||| c == ' '
    ||| c == '\u{85}'
    ||| c == '\u{a0}'
    ||| c == '\u{1680}'
    ||| '\u{2000}' <= c <= '\u{200a}'
    ||| c == '\u{2028}'
    ||| c == '\u{2029}'
    ||| c == '\u{202f}'
    ||| c == '\u{205f}'
    ||| c == '\u{3000}'
}

/// `s` from its first character on that is no white space.
pub open spec fn without_leading(s: Seq<char>) -> Seq<char>
    decreases s.len(),
{
    if s.len() > 0 && is_white_space(s.first()) {
        without_leading(s.drop_first())
    } else {
        s
    }
}

/// `s` up to its last character that is no white space.
pub open spec fn without_trailing(s: Seq<char>) -> Seq<char>
    decreases s.len(),
{
    if s.len() > 0 && is_white_space(s.last()) {
        without_trailing(s.drop_last())
    } else {
        s
    }
}

/// `s` without the white space at its two ends.
pub open spec fn trimmed(s: Seq<char>) -> Seq<char> {
    without_trailing(without_leading(s))
}

/// `s` neither begins nor ends with white space.
pub open spec fn is_trimmed(s: Seq<char>) -> bool {
    s.len() > 0 ==> !is_white_space(s.first()) && !is_white_space(s.last())
}

/// `str::trim` removes the leading and trailing white space, as Unicode's `White_Space` property
/// defines it, and keeps everything between.
pub assume_specification[ str::trim ](s: &str) -> (rest: &str)
    ensures
        rest@ == trimmed(s@),
;

/// `String::push` appends one character.
pub assume_specification[ String::push ](s: &mut String, c: char)
    ensures
        final(s)@ == old(s)@.push(c),
;

proof fn lemma_without_leading(s: Seq<char>)
    ensures
        without_leading(s).len() <= s.len(),
        without_leading(s).len() > 0 ==> !is_white_space(without_leading(s).first())
            && without_leading(s).last() == s.last(),
        without_leading(s) == s.skip(s.len() - without_leading(s).len()),
    decreases s.len(),
{
    if s.len() > 0 && is_white_space(s.first()) {
        lemma_without_leading(s.drop_first());
    }
}

proof fn lemma_without_trailing(s: Seq<char>)
    ensures
        without_trailing(s).len() <= s.len(),
        without_trailing(s).len() > 0 ==> !is_white_space(without_trailing(s).last())
            && without_trailing(s).first() == s.first(),
        without_trailing(s) == s.take(without_trailing(s).len() as int),
    decreases s.len(),
{
    if s.len() > 0 && is_white_space(s.last()) {
        lemma_without_trailing(s.drop_last());
    }
}

/// What trimming leaves begins and ends with no white space.
pub proof fn trimming_leaves_no_white_space_at_the_ends(s: Seq<char>)
    ensures
        is_trimmed(trimmed(s)),
{
    lemma_without_leading(s);
    lemma_without_trailing(without_leading(s));
}

/// Trimming takes characters from the two ends only: what is left is a stretch of the string.
pub proof fn trimming_keeps_a_stretch(s: Seq<char>)
    ensures
        exists|from: int|
            0 <= from <= from + trimmed(s).len() <= s.len() && trimmed(s) == #[trigger] s.subrange(
                from,
                from + trimmed(s).len(),
            ),
{
    lemma_without_leading(s);
    lemma_without_trailing(without_leading(s));
    let from = s.len() - without_leading(s).len();
    assert(trimmed(s) =~= s.subrange(from, from + trimmed(s).len()));
}

/// A string with no white space at its ends is left as it is.
pub proof fn trimming_a_trimmed_string_changes_nothing(s: Seq<char>)
    requires
        is_trimmed(s),
    ensures
        trimmed(s) == s,
{
}

/// A space in front of a string makes no difference once it is trimmed.
pub proof fn trimming_drops_a_leading_space(s: Seq<char>)
    ensures
        trimmed(seq![' '] + s) == trimmed(s),
{
    let padded = seq![' '] + s;
    assert(padded.drop_first() =~= s);
}

} // verus!
