//! Whitespace trimming over character sequences.
//!
//! User input arrives with incidental surrounding blanks; both the name
//! validator and the consent prompt judge the input after trimming. The spec
//! functions here say what trimming means, and the lemmas let an executable
//! scan (first and last non-blank position) conclude what the trimmed
//! sequence is.

use vstd::prelude::*;

verus! {

/// The characters treated as surrounding whitespace: the Unicode
/// white-space characters, exactly the set `str::trim` strips.
pub open spec fn is_space_char(c: char) -> bool {
    c == ' ' || c == '\t' || c == '\n' || c == '\r' || c == '\u{000B}' || c == '\u{000C}' || c
        == '\u{0085}' || c == '\u{00A0}' || c == '\u{1680}' || ('\u{2000}' <= c && c
        <= '\u{200A}') || c == '\u{2028}' || c == '\u{2029}' || c == '\u{202F}' || c
        == '\u{205F}' || c == '\u{3000}'
}

/// Runtime counterpart of `is_space_char`.
pub fn is_space(c: char) -> (r: bool)
    ensures
        r == is_space_char(c),
{
    c == ' ' || c == '\t' || c == '\n' || c == '\r' || c == '\u{000B}' || c == '\u{000C}' || c
        == '\u{0085}' || c == '\u{00A0}' || c == '\u{1680}' || ('\u{2000}' <= c && c
        <= '\u{200A}') || c == '\u{2028}' || c == '\u{2029}' || c == '\u{202F}' || c
        == '\u{205F}' || c == '\u{3000}'
}

/// `s` without its leading whitespace.
pub open spec fn trim_front(s: Seq<char>) -> Seq<char>
    decreases s.len(),
{
    if s.len() > 0 && is_space_char(s[0]) {
        trim_front(s.drop_first())
    } else {
        s
    }
}

/// `s` without its trailing whitespace.
pub open spec fn trim_back(s: Seq<char>) -> Seq<char>
    decreases s.len(),
{
    if s.len() > 0 && is_space_char(s[s.len() - 1]) {
        trim_back(s.drop_last())
    } else {
        s
    }
}

/// `s` without its surrounding whitespace, as `str::trim` strips it.
pub open spec fn trimmed(s: Seq<char>) -> Seq<char> {
    trim_back(trim_front(s))
}

/// When the first `from` characters are whitespace and the character at
/// `from`, if there is one, is not, trimming the front strips exactly those
/// `from` characters.
pub proof fn lemma_trim_front_at(s: Seq<char>, from: int)
    requires
        0 <= from <= s.len(),
        forall|j: int| 0 <= j < from ==> is_space_char(s[j]),
        from == s.len() || !is_space_char(s[from]),
    ensures
        trim_front(s) == s.subrange(from, s.len() as int),
    decreases from,
{
    if from == 0 {
        assert(s.subrange(0, s.len() as int) =~= s);
    } else {
        assert(is_space_char(s[0]));
        lemma_trim_front_at(s.drop_first(), from - 1);
        assert(s.drop_first().subrange(from - 1, s.drop_first().len() as int) =~= s.subrange(
            from,
            s.len() as int,
        ));
    }
}

/// When the characters from `upto` on are whitespace and the character just
/// before `upto`, if there is one, is not, trimming the back strips exactly
/// them.
pub proof fn lemma_trim_back_at(s: Seq<char>, upto: int)
    requires
        0 <= upto <= s.len(),
        forall|j: int| upto <= j < s.len() ==> is_space_char(s[j]),
        upto == 0 || !is_space_char(s[upto - 1]),
    ensures
        trim_back(s) == s.subrange(0, upto),
    decreases s.len() - upto,
{
    if upto == s.len() {
        assert(s.subrange(0, s.len() as int) =~= s);
    } else {
        assert(is_space_char(s[s.len() - 1]));
        lemma_trim_back_at(s.drop_last(), upto);
        assert(s.drop_last().subrange(0, upto) =~= s.subrange(0, upto));
    }
}

/// A sequence of nothing but whitespace trims to the empty sequence.
pub proof fn lemma_trimmed_all_space(s: Seq<char>)
    requires
        forall|j: int| 0 <= j < s.len() ==> is_space_char(s[j]),
    ensures
        trimmed(s).len() == 0,
{
    lemma_trim_front_at(s, s.len() as int);
    assert(trim_front(s).len() == 0);
}

/// Trimming keeps exactly the span between the first and last non-blank
/// characters: when `from` is the first and `upto - 1` the last, `trimmed(s)`
/// is `s.subrange(from, upto)`.
pub proof fn lemma_trimmed_at(s: Seq<char>, from: int, upto: int)
    requires
        0 <= from < upto <= s.len(),
        forall|j: int| 0 <= j < from ==> is_space_char(s[j]),
        forall|j: int| upto <= j < s.len() ==> is_space_char(s[j]),
        !is_space_char(s[from]),
        !is_space_char(s[upto - 1]),
    ensures
        trimmed(s) == s.subrange(from, upto),
{
    lemma_trim_front_at(s, from);
    let t = s.subrange(from, s.len() as int);
    lemma_trim_back_at(t, upto - from);
    assert(t.subrange(0, upto - from) =~= s.subrange(from, upto));
}

} // verus!
