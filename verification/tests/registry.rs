use power_presets::preset::Preset;
use power_presets::registry::Registry;
use power_presets::text::same_text;

fn preset(name: &str, stapm_limit: Option<u32>) -> Preset {
    Preset {
        name: name.to_string(),
        stapm_limit,
        fast_limit: None,
        slow_limit: None,
        slow_time: None,
        tctl_temp: None,
        apu_skin_temp: None,
        dgpu_skin_temp: None,
        power_saving: false,
        max_performance: false,
    }
}

#[test]
fn new_registry_is_empty() {
    let registry = Registry::new();
    assert!(registry.is_empty());
    assert_eq!(registry.len(), 0);
    assert!(registry.snapshot().is_empty());
    assert!(registry.find_by_name("anything").is_none());
}

#[test]
fn appends_are_kept_in_order() {
    let a = preset("A", Some(1));
    let b = preset("B", Some(2));
    let mut registry = Registry::new();
    registry.append(a.clone());
    registry.append(b.clone());
    assert_eq!(registry.len(), 2);
    assert!(!registry.is_empty());
    assert_eq!(registry.snapshot(), vec![a.clone(), b.clone()]);
    assert_eq!(registry.find_by_name("B"), Some(&b));
    assert_eq!(registry.find_by_name("A"), Some(&a));
    assert_eq!(registry.find_by_name("missing"), None);
}

#[test]
fn order_is_insertion_order_not_name_order() {
    let mut registry = Registry::new();
    registry.append(preset("zeta", None));
    registry.append(preset("alpha", None));
    registry.append(preset("mid", None));
    let names: Vec<String> = registry.snapshot().into_iter().map(|p| p.name).collect();
    assert_eq!(names, vec!["zeta", "alpha", "mid"]);
}

#[test]
fn duplicate_names_are_kept_and_the_first_is_found() {
    let first = preset("same", Some(10));
    let second = preset("same", Some(20));
    let mut registry = Registry::new();
    registry.append(first.clone());
    registry.append(second.clone());
    assert_eq!(registry.snapshot(), vec![first.clone(), second]);
    assert_eq!(registry.find_by_name("same"), Some(&first));
}

#[test]
fn snapshot_is_a_copy() {
    let mut registry = Registry::new();
    registry.append(preset("one", None));
    let before = registry.snapshot();
    registry.append(preset("two", None));
    assert_eq!(before.len(), 1);
    assert_eq!(registry.snapshot().len(), 2);
}

#[test]
fn lookup_is_exact() {
    let mut registry = Registry::new();
    registry.append(preset("Quiet", None));
    assert!(registry.find_by_name("quiet").is_none());
    assert!(registry.find_by_name("Quiet ").is_none());
    assert!(registry.find_by_name("Quie").is_none());
    assert!(registry.find_by_name("").is_none());
    assert!(registry.find_by_name("Quiet").is_some());
}

#[test]
fn presets_are_equal_when_every_field_is() {
    let a = preset("p", Some(5));
    assert_eq!(a, a.clone());
    assert_ne!(a, preset("p", Some(6)));
    assert_ne!(a, preset("q", Some(5)));
    assert_ne!(a, preset("p", None));
    let mut flagged = a.clone();
    flagged.power_saving = true;
    assert_ne!(a, flagged);
    let mut other_limit = a.clone();
    other_limit.dgpu_skin_temp = Some(1);
    assert_ne!(a, other_limit);
}

#[test]
fn text_comparison_is_by_characters() {
    assert!(same_text("", ""));
    assert!(same_text("quit", "quit"));
    assert!(!same_text("quit", "quit "));
    assert!(!same_text("quit", "quiT"));
    assert!(!same_text("a", ""));
    assert!(same_text("stra\u{df}e", "stra\u{df}e"));
    assert!(!same_text("stra\u{df}e", "strasse"));
    assert!(!same_text("\u{e9}", "e\u{301}"));
}
