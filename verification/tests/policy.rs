use sentinel::cli::navigation::ResultTone;
use sentinel::cli::styles::{result_tone, tone_from_result};
use sentinel::policy::rules::{built_in_rules, should_block, RuleEntry};
use sentinel::sorted::sorted_distinct;

#[test]
fn built_in_rules_block_ad_domains_and_their_subdomains() {
    let built_in = built_in_rules();
    assert_eq!(built_in.len(), 7);
    assert_eq!(built_in[0].id, "block-doubleclick.net");
    assert!(should_block("doubleclick.net", &built_in, &[]));
    assert!(should_block("stats.g.doubleclick.net", &built_in, &[]));
    assert!(!should_block("notdoubleclick.net", &built_in, &[]));
    assert!(!should_block("example.com", &built_in, &[]));
}

#[test]
fn an_allow_rule_overrides_the_block_rules() {
    let built_in = built_in_rules();
    let allow = vec![RuleEntry::allow("taboola.com").unwrap()];
    assert!(should_block("taboola.com", &built_in, &[]));
    assert!(!should_block("taboola.com", &built_in, &allow));
    assert!(!should_block("cdn.taboola.com", &built_in, &allow));
    assert!(should_block("outbrain.com", &built_in, &allow));
}

#[test]
fn tones_convert_back_and_forth() {
    for tone in [ResultTone::Info, ResultTone::Success, ResultTone::Warning, ResultTone::Error] {
        assert_eq!(result_tone(tone_from_result(tone)), tone);
    }
}

#[test]
fn sorting_a_sorted_distinct_list_keeps_it() {
    let once = sorted_distinct(vec!["b.com".to_string(), "a.com".to_string(), "b.com".to_string()]);
    assert_eq!(once, vec!["a.com".to_string(), "b.com".to_string()]);
    assert_eq!(sorted_distinct(once.clone()), once);
}
