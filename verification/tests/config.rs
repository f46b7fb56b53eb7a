use sentinel::storage::config::AppConfig;

#[test]
fn allowing_then_removing_a_domain_restores_the_rules() {
    let mut config = AppConfig::empty();
    assert!(config.add_allow_rule("ads.example.com".to_string()));
    let before: Vec<String> = config.allow_rules.iter().map(|r| r.value.clone()).collect();
    assert!(config.add_allow_rule("tracker.example.net".to_string()));
    assert_eq!(config.allow_rules.len(), 2);
    assert_eq!(config.allow_rules[1].id, "allow-tracker.example.net");
    assert!(config.remove_allow_rule("tracker.example.net"));
    let after: Vec<String> = config.allow_rules.iter().map(|r| r.value.clone()).collect();
    assert_eq!(before, after);
}

#[test]
fn allowing_twice_keeps_one_rule_and_removing_an_absent_domain_says_so() {
    let mut config = AppConfig::empty();
    assert!(config.add_allow_rule("ads.example.com".to_string()));
    assert!(!config.add_allow_rule("ads.example.com".to_string()));
    assert_eq!(config.allow_rules.len(), 1);
    assert!(!config.remove_allow_rule("other.example.com"));
    assert_eq!(config.allow_rules.len(), 1);
}

#[test]
fn an_allow_rule_stores_the_normalized_domain() {
    let mut config = AppConfig::empty();
    assert!(config.add_allow_rule("  Ads.Example.COM.  ".to_string()));
    assert_eq!(config.allow_rules[0].value, "ads.example.com");
    assert!(!config.remove_allow_rule("  Ads.Example.COM.  "));
    assert_eq!(config.allow_rules.len(), 1);
}
