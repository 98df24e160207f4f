//! Tier resolution: maps a provider identity payload to the caller's
//! membership tier.
//!
//! The resolver walks the payload's included entries in order; the first
//! membership entry whose campaign identifier equals the configured
//! campaign decides the result, and its title is looked up in the fixed
//! tier-title table after trimming surrounding whitespace. Matching is
//! case-sensitive.

use vstd::prelude::*;
use vstd::string::StringExecFns;

use crate::text::{is_space_char, lemma_trim_ignores_surrounding_whitespace, str_eq, trim_spec, trim_whitespace};
use crate::types::{Identity, Included, Membership, Tier};

verus! {

/// Why tier resolution failed.
#[derive(Debug)]
pub enum TierError {
    /// Network or HTTP failure, or a malformed response body. Produced by
    /// the transport layer outside this library; the resolver itself
    /// never returns it.
    Transport,
    /// A membership entry for the configured campaign was found, but its
    /// trimmed title is not in the tier-title table. Carries the trimmed
    /// title.
    UnknownTitle(String),
    /// No included entry's campaign identifier matched the configured
    /// campaign.
    NoMatch,
}

impl TierError {
    /// The operator-facing description of the failure.
    pub fn message(&self) -> (r: String)
        ensures
            match *self {
                TierError::Transport => r@ == "Identity request failed"@,
                TierError::UnknownTitle(t) => r@ == "Unknown tier: "@ + t@,
                TierError::NoMatch => r@ == "No tier found"@,
            },
    {
        match self {
            TierError::Transport => "Identity request failed".to_owned(),
            TierError::UnknownTitle(t) => {
                let mut m: String = "Unknown tier: ".to_owned();
                m.append(t.as_str());
                m
            },
            TierError::NoMatch => "No tier found".to_owned(),
        }
    }
}

/// The provider's fixed identity endpoint, with the included resources
/// and fields one resolution requests.
pub fn identity_endpoint() -> (r: &'static str)
    ensures
        r@
            == "https://www.patreon.com/api/oauth2/v2/identity?include=memberships.currently_entitled_tiers.campaign&fields[tier]=title"@,
{
    "https://www.patreon.com/api/oauth2/v2/identity?include=memberships.currently_entitled_tiers.campaign&fields[tier]=title"
}

/// The fixed tier-title table, applied to an already-trimmed title.
/// Any other title is unrecognized.
pub open spec fn spec_tier_of_trimmed(t: Seq<char>) -> Option<Tier> {
    if t == "Bronze membership"@ {
        Some(Tier::Bronze)
    } else if t == "Bronze membership (old/unpublished tier)"@ {
        Some(Tier::Bronze)
    } else if t == "Silver membership"@ {
        Some(Tier::Silver)
    } else if t == "Gold membership"@ {
        Some(Tier::Gold)
    } else {
        None
    }
}

/// The tier a raw provider title denotes: the table lookup after trimming
/// surrounding whitespace.
pub open spec fn spec_tier_of_title(t: Seq<char>) -> Option<Tier> {
    spec_tier_of_trimmed(trim_spec(t))
}

/// Title matching is insensitive to surrounding whitespace: two titles
/// that trim to the same characters denote the same tier. (It remains
/// case-sensitive: the table compares the trimmed characters exactly.)
pub proof fn lemma_title_match_trim_insensitive(a: Seq<char>, b: Seq<char>)
    requires
        trim_spec(a) == trim_spec(b),
    ensures
        spec_tier_of_title(a) == spec_tier_of_title(b),
{
}

/// In particular, padding a title with whitespace on either side never
/// changes the tier it denotes.
pub proof fn lemma_title_match_ignores_padding(t: Seq<char>, w1: Seq<char>, w2: Seq<char>)
    requires
        forall|k: int| 0 <= k < w1.len() ==> is_space_char(w1[k]),
        forall|k: int| 0 <= k < w2.len() ==> is_space_char(w2[k]),
    ensures
        spec_tier_of_title(w1 + t + w2) == spec_tier_of_title(t),
{
    lemma_trim_ignores_surrounding_whitespace(t, w1, w2);
}

/// Looks a raw title up in the tier-title table, trimming surrounding
/// whitespace first.
pub fn tier_of_title(title: &str) -> (r: Option<Tier>)
    ensures
        r == spec_tier_of_title(title@),
{
    let t = trim_whitespace(title);
    if str_eq(t, "Bronze membership") {
        Some(Tier::Bronze)
    } else if str_eq(t, "Bronze membership (old/unpublished tier)") {
        Some(Tier::Bronze)
    } else if str_eq(t, "Silver membership") {
        Some(Tier::Silver)
    } else if str_eq(t, "Gold membership") {
        Some(Tier::Gold)
    } else {
        None
    }
}

/// The first membership entry whose campaign identifier equals
/// `campaign_id`, in payload order; entries of other shapes are skipped.
pub open spec fn spec_first_match(entries: Seq<Included>, campaign_id: Seq<char>) -> Option<
    Membership,
>
    decreases entries.len(),
{
    if entries.len() == 0 {
        None
    } else {
        match entries[0] {
            Included::Membership(m) => if m.relationships.campaign.data.id@ == campaign_id {
                Some(m)
            } else {
                spec_first_match(entries.drop_first(), campaign_id)
            },
            Included::Ignored(_) => spec_first_match(entries.drop_first(), campaign_id),
        }
    }
}

/// Resolves the caller's tier from a parsed identity payload: the first
/// membership entry matching the configured campaign decides; its title
/// is mapped through the tier-title table. Entries after the first match
/// are not inspected.
pub fn get_tier(identity: &Identity, campaign_id: &str) -> (r: Result<Tier, TierError>)
    ensures
        match spec_first_match(identity.included@, campaign_id@) {
            Some(m) => match spec_tier_of_title(m.attributes.title@) {
                Some(t) => r == Ok::<Tier, TierError>(t),
                None => r matches Err(TierError::UnknownTitle(u)) && u@ == trim_spec(
                    m.attributes.title@,
                ),
            },
            None => r matches Err(TierError::NoMatch),
        },
{
    let n = identity.included.len();
    let mut i: usize = 0;
    proof {
        assert(identity.included@.subrange(0, n as int) =~= identity.included@);
    }
    while i < n
        invariant
            0 <= i <= n,
            n == identity.included@.len(),
            spec_first_match(identity.included@, campaign_id@) == spec_first_match(
                identity.included@.subrange(i as int, n as int),
                campaign_id@,
            ),
        decreases n - i,
    {
        let entry = &identity.included[i];
        proof {
            let suffix = identity.included@.subrange(i as int, n as int);
            assert(suffix[0] == identity.included@[i as int]);
            assert(suffix.drop_first() =~= identity.included@.subrange(i as int + 1, n as int));
        }
        match entry {
            Included::Membership(m) => {
                if str_eq(m.relationships.campaign.data.id.as_str(), campaign_id) {
                    let title = m.attributes.title.as_str();
                    return match tier_of_title(title) {
                        Some(t) => Ok(t),
                        None => {
                            let trimmed = trim_whitespace(title);
                            Err(TierError::UnknownTitle(trimmed.to_owned()))
                        },
                    };
                }
            },
            Included::Ignored(_) => {},
        }
        i = i + 1;
    }
    Err(TierError::NoMatch)
}

} // verus!
