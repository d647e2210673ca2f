//! Which requests the URL protocol class takes over.
use vstd::prelude::*;
use crate::text::{chars_of, contains_chars, has_substring};
use crate::url::{
    epic_domain, epic_domain_str, lemma_epic_mentions, mentions_epic_domain, EPIC_DOMAIN_COUNT,
};

verus! {

/// Whether the protocol takes over a request with absolute URL `url`: it does
/// when the URL names one of the Epic Games services anywhere in it.
pub fn can_init_with_url(url: &str) -> (b: bool)
    ensures
        b == mentions_epic_domain(url@),
{
    let v = chars_of(url);
    let mut i: usize = 0;
    while i < EPIC_DOMAIN_COUNT
        invariant
            i <= EPIC_DOMAIN_COUNT,
            v@ == url@,
            forall|j: int|
                0 <= j < i ==> !has_substring(url@, #[trigger] epic_domain(j)),
        decreases EPIC_DOMAIN_COUNT - i,
    {
        let d = chars_of(epic_domain_str(i));
        if contains_chars(&v, &d) {
            return true;
        }
        i = i + 1;
    }
    false
}

/// Every Epic Games domain counts: a URL that names any one of them, the first
/// included, is taken over, and one that names none of them is not.
pub proof fn lemma_every_domain_taken(u: Seq<char>, i: int)
    requires
        0 <= i < EPIC_DOMAIN_COUNT,
    ensures
        has_substring(u, epic_domain(i)) ==> mentions_epic_domain(u),
        has_substring(u, "game-social.epicgames.com"@) ==> mentions_epic_domain(u),
        mentions_epic_domain(u) ==> exists|j: int|
            0 <= j < EPIC_DOMAIN_COUNT && has_substring(u, #[trigger] epic_domain(j)),
{
    lemma_epic_mentions(u);
}

} // verus!
