//! The two string functions of the standard library that the reading of an
//! operator's answer rests on.

use vstd::prelude::*;

verus! {

/// Whether a character has the Unicode property `White_Space`, which is
/// what `char::is_whitespace` tells and what `str::trim` cuts by. The
/// characters that have it are a table of the Unicode database and are not
/// listed here.
pub uninterp spec fn white_space(c: char) -> bool;

/// What `str::to_lowercase` makes of a text.
pub uninterp spec fn lowercased(text: Seq<char>) -> Seq<char>;

/// How many characters of white space a text begins with.
pub open spec fn leading_white_space(text: Seq<char>) -> nat
    decreases text.len(),
{
    if text.len() == 0 || !white_space(text[0]) {
        0
    } else {
        1 + leading_white_space(text.drop_first())
    }
}

/// How many characters of white space a text ends with.
pub open spec fn trailing_white_space(text: Seq<char>) -> nat
    decreases text.len(),
{
    if text.len() == 0 || !white_space(text.last()) {
        0
    } else {
        1 + trailing_white_space(text.drop_last())
    }
}

/// A text without the white space that it begins and ends with.
pub open spec fn trimmed(text: Seq<char>) -> Seq<char> {
    let rest = text.skip(leading_white_space(text) as int);
    rest.take(rest.len() - trailing_white_space(rest))
}

/// Calls `str::trim`, which returns the text without its leading and
/// trailing white space, white space being the characters with the
/// property `White_Space`. Nothing is proved of it: the contract repeats
/// this, and that what is left neither begins nor ends with white space.
#[verifier::external_body]
pub(crate) fn trim(text: &str) -> (out: &str)
    ensures
        out@ == trimmed(text@),
        out@.len() > 0 ==> !white_space(out@.first()) && !white_space(out@.last()),
{
    text.trim()
}

/// Calls `str::to_lowercase`, which returns the text in lower case.
/// Nothing is proved of it: its result is only given the name `lowercased`.
#[verifier::external_body]
pub(crate) fn to_lowercase(text: &str) -> (out: String)
    ensures
        out@ == lowercased(text@),
{
    text.to_lowercase()
}

/// The white space that a text begins with is white space, and what
/// follows it is not.
pub proof fn lemma_leading_white_space(text: Seq<char>)
    ensures
        leading_white_space(text) <= text.len(),
        forall|i: int| 0 <= i < leading_white_space(text) ==> white_space(#[trigger] text[i]),
        leading_white_space(text) < text.len() ==> !white_space(
            text[leading_white_space(text) as int],
        ),
    decreases text.len(),
{
    if text.len() == 0 || !white_space(text[0]) {
    } else {
        let rest = text.drop_first();
        lemma_leading_white_space(rest);
        assert forall|i: int| 0 <= i < leading_white_space(text) implies white_space(
            #[trigger] text[i],
        ) by {
            if i > 0 {
                assert(text[i] == rest[i - 1]);
            }
        }
        if leading_white_space(text) < text.len() {
            assert(text[leading_white_space(text) as int] == rest[leading_white_space(rest) as int]);
        }
    }
}

/// The white space that a text ends with is white space, and what comes
/// before it is not.
pub proof fn lemma_trailing_white_space(text: Seq<char>)
    ensures
        trailing_white_space(text) <= text.len(),
        forall|i: int|
            text.len() - trailing_white_space(text) <= i < text.len() ==> white_space(
                #[trigger] text[i],
            ),
        trailing_white_space(text) < text.len() ==> !white_space(
            text[text.len() - trailing_white_space(text) - 1],
        ),
    decreases text.len(),
{
    if text.len() == 0 || !white_space(text.last()) {
    } else {
        let rest = text.drop_last();
        lemma_trailing_white_space(rest);
        assert forall|i: int|
            text.len() - trailing_white_space(text) <= i < text.len() implies white_space(
            #[trigger] text[i],
        ) by {
            if i < text.len() - 1 {
                assert(text[i] == rest[i]);
            }
        }
        if trailing_white_space(text) < text.len() {
            assert(text[text.len() - trailing_white_space(text) - 1] == rest[rest.len()
                - trailing_white_space(rest) - 1]);
        }
    }
}

/// What trimming leaves is a stretch of the text. Everything cut off
/// before it and after it is white space, and unless it is empty it
/// neither begins nor ends with white space.
pub proof fn lemma_trimmed_is_cut_at_white_space(text: Seq<char>)
    ensures
        ({
            let from = leading_white_space(text) as int;
            let to = from + trimmed(text).len();
            &&& 0 <= from <= to <= text.len()
            &&& trimmed(text) == text.subrange(from, to)
            &&& forall|i: int| 0 <= i < from ==> white_space(#[trigger] text[i])
            &&& forall|i: int| to <= i < text.len() ==> white_space(#[trigger] text[i])
            &&& from < to ==> !white_space(trimmed(text).first()) && !white_space(
                trimmed(text).last(),
            )
        }),
{
    let from = leading_white_space(text) as int;
    lemma_leading_white_space(text);
    let rest = text.skip(from);
    lemma_trailing_white_space(rest);
    let cut = trimmed(text);
    let to = from + cut.len();
    assert(cut == text.subrange(from, to));
    assert forall|i: int| to <= i < text.len() implies white_space(#[trigger] text[i]) by {
        assert(text[i] == rest[i - from]);
    }
    if from < to {
        assert(rest[0] == text[from]);
        assert(cut.first() == rest[0]);
        assert(cut.last() == rest[rest.len() - trailing_white_space(rest) - 1]);
    }
}

} // verus!
