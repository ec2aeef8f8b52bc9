//! The interactive front end's decision logic.
//!
//! The terminal itself — printing the banner, reading a line — belongs to the
//! embedding program. What the library owns is the one decision the prompt
//! feeds: whether a consent reply agrees to installing the missing tool.

use vstd::prelude::*;
use crate::text::{is_space, is_space_char, lemma_trimmed_all_space, lemma_trimmed_at, trimmed};
use vstd::string::StrSliceExecFns;

verus! {

/// The command-line front end of the generator.
pub struct Cli;

/// Whether a trimmed reply reads as yes: empty (consent defaults to yes),
/// "y", or "yes", in any letter case.
pub open spec fn answers_yes(t: Seq<char>) -> bool {
    ||| t.len() == 0
    ||| t.len() == 1 && (t[0] == 'y' || t[0] == 'Y')
    ||| t.len() == 3 && (t[0] == 'y' || t[0] == 'Y') && (t[1] == 'e' || t[1] == 'E') && (t[2]
        == 's' || t[2] == 'S')
}

/// Whether a raw consent reply is affirmative: after trimming surrounding
/// whitespace it reads as yes.
pub open spec fn affirmative(s: Seq<char>) -> bool {
    answers_yes(trimmed(s))
}

impl Cli {
    /// Decide whether a reply to the install prompt agrees: case-insensitive
    /// "y" or "yes" after trimming, with an empty reply counting as yes.
    pub fn consent_is_affirmative(response: &str) -> (r: bool)
        ensures
            r == affirmative(response@),
    {
        let n = response.unicode_len();
        let mut i: usize = 0;
        let mut first: usize = n;
        let mut last: usize = n;
        while i < n
            invariant
                i <= n,
                n == response@.len(),
                first <= n,
                first == n <==> last == n,
                first == n ==> forall|j: int| 0 <= j < i ==> is_space_char(response@[j]),
                first < n ==> first <= last && last < i && !is_space_char(response@[first as int])
                    && !is_space_char(response@[last as int]) && (forall|j: int|
                    0 <= j < first ==> is_space_char(response@[j])) && (forall|j: int|
                    last < j < i ==> is_space_char(response@[j])),
            decreases n - i,
        {
            let c = response.get_char(i);
            if !is_space(c) {
                if first == n {
                    first = i;
                }
                last = i;
            }
            i += 1;
        }
        if first == n {
            proof {
                lemma_trimmed_all_space(response@);
            }
            true
        } else {
            proof {
                lemma_trimmed_at(response@, first as int, (last + 1) as int);
            }
            let span = last + 1 - first;
            if span == 1 {
                let c = response.get_char(first);
                c == 'y' || c == 'Y'
            } else if span == 3 {
                let c0 = response.get_char(first);
                let c1 = response.get_char(first + 1);
                let c2 = response.get_char(first + 2);
                (c0 == 'y' || c0 == 'Y') && (c1 == 'e' || c1 == 'E') && (c2 == 's' || c2 == 'S')
            } else {
                false
            }
        }
    }
}

} // verus!
