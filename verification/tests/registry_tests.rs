use lino_core::registry::RegistryError;
use lino_core::registry::RuleCategory;
use lino_core::registry::RuleKind;
use lino_core::registry::RuleMetadata;
use lino_core::registry::RuleRegistry;
use lino_core::registry::RuleType;
use lino_core::types::Severity;

fn metadata(name: &str) -> RuleMetadata {
    RuleMetadata {
        name: name.to_string(),
        display_name: "No Implicit Any".to_string(),
        description: "Detects function parameters without type annotations that implicitly have 'any' type.".to_string(),
        rule_type: RuleType::Ast,
        default_severity: Severity::Error,
        default_enabled: false,
        category: RuleCategory::TypeSafety,
    }
}

#[test]
fn register_and_list_metadata() {
    let mut reg = RuleRegistry::new();
    assert!(reg.register(RuleKind::NoImplicitAny, metadata("no-implicit-any")).is_ok());
    let all = reg.all_metadata();
    assert_eq!(all.len(), 1);
    assert_eq!(all[0].name, "no-implicit-any");
    assert_eq!(all[0].display_name, "No Implicit Any");
    assert!(!all[0].default_enabled);
}

#[test]
fn duplicate_name_is_refused_and_registry_unchanged() {
    let mut reg = RuleRegistry::new();
    assert!(reg.register(RuleKind::NoImplicitAny, metadata("no-implicit-any")).is_ok());
    let second = reg.register(RuleKind::NoImplicitAny, metadata("no-implicit-any"));
    assert!(matches!(second, Err(RegistryError::DuplicateName)));
    assert_eq!(reg.all_metadata().len(), 1);
}

#[test]
fn instantiate_picks_enabled_rules() {
    let mut reg = RuleRegistry::new();
    reg.register(RuleKind::NoImplicitAny, metadata("no-implicit-any")).unwrap();

    let enabled = vec!["no-implicit-any".to_string()];
    let rules = reg.instantiate(&enabled);
    assert_eq!(rules.len(), 1);
    assert!(matches!(rules[0], RuleKind::NoImplicitAny));

    let none_enabled: Vec<String> = vec!["some-other-rule".to_string()];
    assert!(reg.instantiate(&none_enabled).is_empty());
    assert!(reg.instantiate(&vec![]).is_empty());
}
