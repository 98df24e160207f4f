use tier_gateway::resolver::{get_tier, identity_endpoint, tier_of_title, TierError};
use tier_gateway::scanner::is_tier_candidate;
use tier_gateway::text::{str_eq, str_has_prefix, trim_whitespace};
use tier_gateway::types::{
    Attributes, Campaign, Data, Identity, Ignored, Included, Membership, Relationships, Tier,
};

fn membership(campaign_id: &str, title: &str) -> Included {
    Included::Membership(Membership {
        relationships: Relationships {
            campaign: Campaign {
                data: Data { id: campaign_id.to_string() },
            },
        },
        attributes: Attributes { title: title.to_string() },
    })
}

#[test]
fn trim_removes_surrounding_whitespace() {
    assert_eq!(trim_whitespace("  a b\t\n"), "a b");
    assert_eq!(trim_whitespace("abc"), "abc");
    assert_eq!(trim_whitespace("   "), "");
    assert_eq!(trim_whitespace(""), "");
}

#[test]
fn str_eq_compares_characters() {
    assert!(str_eq("abc", "abc"));
    assert!(!str_eq("abc", "abd"));
    assert!(!str_eq("abc", "ab"));
    assert!(str_eq("", ""));
}

#[test]
fn str_has_prefix_cases() {
    assert!(str_has_prefix("bronze-file", "bronze-"));
    assert!(str_has_prefix("bronze-", "bronze-"));
    assert!(!str_has_prefix("bronz", "bronze-"));
    assert!(!str_has_prefix("silver-file", "bronze-"));
}

#[test]
fn title_table_maps_known_titles() {
    assert_eq!(tier_of_title("Bronze membership"), Some(Tier::Bronze));
    assert_eq!(
        tier_of_title("Bronze membership (old/unpublished tier)"),
        Some(Tier::Bronze)
    );
    assert_eq!(tier_of_title("Silver membership"), Some(Tier::Silver));
    assert_eq!(tier_of_title("Gold membership"), Some(Tier::Gold));
}

#[test]
fn title_matching_trims_but_keeps_case() {
    assert_eq!(tier_of_title(" Bronze membership "), Some(Tier::Bronze));
    assert_eq!(tier_of_title("\tGold membership\n"), Some(Tier::Gold));
    assert_eq!(tier_of_title("bronze membership"), None);
    assert_eq!(tier_of_title("BRONZE MEMBERSHIP"), None);
    assert_eq!(tier_of_title("Diamond membership"), None);
}

#[test]
fn resolves_each_tier_for_matching_campaign() {
    for (title, tier) in [
        ("Bronze membership", Tier::Bronze),
        ("Silver membership", Tier::Silver),
        ("Gold membership", Tier::Gold),
    ] {
        let identity = Identity {
            included: vec![membership("camp-1", title)],
        };
        match get_tier(&identity, "camp-1") {
            Ok(t) => assert_eq!(t, tier),
            Err(_) => panic!("expected a resolved tier"),
        }
    }
}

#[test]
fn no_matching_campaign_is_no_match() {
    let identity = Identity {
        included: vec![
            Included::Ignored(Ignored {}),
            membership("other-campaign", "Gold membership"),
        ],
    };
    assert!(matches!(
        get_tier(&identity, "camp-1"),
        Err(TierError::NoMatch)
    ));
}

#[test]
fn empty_included_list_is_no_match() {
    let identity = Identity { included: vec![] };
    assert!(matches!(
        get_tier(&identity, "camp-1"),
        Err(TierError::NoMatch)
    ));
}

#[test]
fn unrecognized_title_on_matching_campaign() {
    let identity = Identity {
        included: vec![membership("camp-1", " Diamond membership ")],
    };
    match get_tier(&identity, "camp-1") {
        Err(TierError::UnknownTitle(t)) => assert_eq!(t, "Diamond membership"),
        _ => panic!("expected an unknown-title error"),
    }
}

#[test]
fn whitespace_padded_title_resolves() {
    let identity = Identity {
        included: vec![membership("camp-1", " Bronze membership ")],
    };
    match get_tier(&identity, "camp-1") {
        Ok(t) => assert_eq!(t, Tier::Bronze),
        Err(_) => panic!("expected the padded title to resolve"),
    }
}

#[test]
fn lowercased_title_does_not_match() {
    let identity = Identity {
        included: vec![membership("camp-1", "bronze membership")],
    };
    match get_tier(&identity, "camp-1") {
        Err(TierError::UnknownTitle(t)) => assert_eq!(t, "bronze membership"),
        _ => panic!("expected an unknown-title error"),
    }
}

#[test]
fn tier_error_messages() {
    assert_eq!(
        TierError::UnknownTitle("Diamond membership".to_string()).message(),
        "Unknown tier: Diamond membership"
    );
    assert_eq!(TierError::NoMatch.message(), "No tier found");
    assert_eq!(TierError::Transport.message(), "Identity request failed");
}

#[test]
fn identity_endpoint_is_fixed() {
    assert_eq!(
        identity_endpoint(),
        "https://www.patreon.com/api/oauth2/v2/identity?include=memberships.currently_entitled_tiers.campaign&fields[tier]=title"
    );
}

#[test]
fn tier_candidate_names() {
    assert!(is_tier_candidate("bronze-a"));
    assert!(is_tier_candidate("silver-b"));
    assert!(is_tier_candidate("gold-c"));
    assert!(!is_tier_candidate("notes.txt"));
    assert!(!is_tier_candidate("bronze"));
}

#[test]
fn first_matching_entry_decides() {
    let identity = Identity {
        included: vec![
            Included::Ignored(Ignored {}),
            membership("other-campaign", "Gold membership"),
            membership("camp-1", "Silver membership"),
            membership("camp-1", "Gold membership"),
        ],
    };
    match get_tier(&identity, "camp-1") {
        Ok(t) => assert_eq!(t, Tier::Silver),
        Err(_) => panic!("expected the first matching entry to decide"),
    }
}

#[test]
fn first_match_with_bad_title_is_not_skipped() {
    let identity = Identity {
        included: vec![
            membership("camp-1", "Diamond membership"),
            membership("camp-1", "Gold membership"),
        ],
    };
    assert!(matches!(
        get_tier(&identity, "camp-1"),
        Err(TierError::UnknownTitle(_))
    ));
}
