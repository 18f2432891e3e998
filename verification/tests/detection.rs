use maiq_bot::changes::{
    detect_changes, detect_changes_among, has_updates, kind_of, ChangeKind, ChangeSet,
};
use maiq_bot::names::NameMap;

fn versions(pairs: &[(&str, &str)]) -> NameMap<String> {
    let mut map = NameMap::new();
    for (name, uid) in pairs {
        map.insert(name.to_string(), uid.to_string());
    }
    map
}

fn change_set(uid: Option<&str>, pairs: &[(&str, &str)]) -> ChangeSet {
    ChangeSet { uid: uid.map(|u| u.to_string()), groups: versions(pairs) }
}

#[test]
fn name_map_insert_replaces_and_keeps_order() {
    let mut map: NameMap<String> = NameMap::new();
    assert_eq!(map.len(), 0);
    map.insert("A".to_string(), "1".to_string());
    map.insert("B".to_string(), "2".to_string());
    map.insert("A".to_string(), "3".to_string());
    assert_eq!(map.len(), 2);
    assert_eq!(map.get(&"A".to_string()), Some(&"3".to_string()));
    assert_eq!(map.get(&"B".to_string()), Some(&"2".to_string()));
    assert_eq!(map.get(&"C".to_string()), None);
    assert!(map.contains(&"B".to_string()));
    assert!(!map.contains(&"".to_string()));
    assert_eq!(map.entry(0).name, "A");
    assert_eq!(map.entry(1).name, "B");
}

#[test]
fn first_poll_classifies_every_group_as_new() {
    let current = versions(&[("G1", "a"), ("G2", "b"), ("G3", "c")]);
    let changes = detect_changes(&current, None);
    assert_eq!(changes.len(), 3);
    for name in ["G1", "G2", "G3"] {
        assert_eq!(kind_of(&changes, &name.to_string()), ChangeKind::New);
    }
    assert!(has_updates(&changes));
}

#[test]
fn changed_version_is_updated_and_same_version_is_unchanged() {
    let previous = change_set(Some("s1"), &[("G1", "a"), ("G2", "x"), ("G3", "y")]);
    let current = versions(&[("G1", "b"), ("G2", "x"), ("G3", "y")]);
    let changes = detect_changes(&current, Some(&previous));
    assert_eq!(kind_of(&changes, &"G1".to_string()), ChangeKind::Updated);
    assert_eq!(kind_of(&changes, &"G2".to_string()), ChangeKind::Unchanged);
    assert_eq!(kind_of(&changes, &"G3".to_string()), ChangeKind::Unchanged);
    assert!(has_updates(&changes));
}

#[test]
fn same_state_yields_no_news() {
    let previous = change_set(Some("s1"), &[("G1", "a"), ("G2", "b")]);
    let current = versions(&[("G1", "a"), ("G2", "b")]);
    let changes = detect_changes(&current, Some(&previous));
    assert_eq!(changes.len(), 2);
    assert_eq!(kind_of(&changes, &"G1".to_string()), ChangeKind::Unchanged);
    assert_eq!(kind_of(&changes, &"G2".to_string()), ChangeKind::Unchanged);
    assert!(!has_updates(&changes));
}

#[test]
fn scenario_updated_and_new_group() {
    let previous = change_set(Some("t1"), &[("M1", "u1")]);
    let current = versions(&[("M1", "u2"), ("M2", "u3")]);
    let changes = detect_changes(&current, Some(&previous));
    assert_eq!(changes.len(), 2);
    assert_eq!(kind_of(&changes, &"M1".to_string()), ChangeKind::Updated);
    assert_eq!(kind_of(&changes, &"M2".to_string()), ChangeKind::New);
    assert_eq!(kind_of(&changes, &"M3".to_string()), ChangeKind::Unknown);
}

#[test]
fn group_that_disappeared_is_not_classified() {
    let previous = change_set(Some("t1"), &[("M1", "u1"), ("M2", "u2")]);
    let current = versions(&[("M1", "u1")]);
    let changes = detect_changes(&current, Some(&previous));
    assert_eq!(changes.len(), 1);
    assert!(changes.get(&"M2".to_string()).is_none());
    assert_eq!(kind_of(&changes, &"M2".to_string()), ChangeKind::Unknown);
    assert!(!has_updates(&changes));
}

#[test]
fn empty_current_yields_empty_changes() {
    let changes = detect_changes(&versions(&[]), None);
    assert_eq!(changes.len(), 0);
    assert!(!has_updates(&changes));
}

#[test]
fn universe_names_without_a_version_are_unknown() {
    let previous = change_set(Some("t1"), &[("M1", "u1")]);
    let current = versions(&[("M1", "u2"), ("M2", "u3")]);
    let universe = vec!["M1".to_string(), "M3".to_string(), "M4".to_string(), "M3".to_string()];
    let changes = detect_changes_among(&universe, &current, Some(&previous));
    assert_eq!(changes.len(), 4);
    assert_eq!(changes.get(&"M1".to_string()), Some(&ChangeKind::Updated));
    assert_eq!(changes.get(&"M2".to_string()), Some(&ChangeKind::New));
    assert_eq!(changes.get(&"M3".to_string()), Some(&ChangeKind::Unknown));
    assert_eq!(changes.get(&"M4".to_string()), Some(&ChangeKind::Unknown));
    assert_eq!(changes.get(&"M5".to_string()), None);
}

#[test]
fn detection_is_deterministic() {
    let previous = change_set(Some("t1"), &[("A", "1"), ("B", "2")]);
    let current = versions(&[("B", "2"), ("A", "9"), ("C", "3")]);
    let first = detect_changes(&current, Some(&previous));
    let second = detect_changes(&current, Some(&previous));
    assert_eq!(first.len(), second.len());
    for i in 0..first.len() {
        assert_eq!(first.entry(i).name, second.entry(i).name);
        assert_eq!(first.entry(i).value, second.entry(i).value);
    }
}

#[test]
fn change_kind_is_news_only_for_new_and_updated() {
    assert!(ChangeKind::New.is_news());
    assert!(ChangeKind::Updated.is_news());
    assert!(!ChangeKind::Unchanged.is_news());
    assert!(!ChangeKind::Unknown.is_news());
}

#[test]
fn changes_stand_in_the_order_of_the_groups() {
    let current = versions(&[("C", "1"), ("A", "2"), ("B", "3")]);
    let previous = change_set(None, &[("A", "2")]);
    let changes = detect_changes(&current, Some(&previous));
    let listed: Vec<(String, ChangeKind)> =
        (0..changes.len()).map(|i| (changes.entry(i).name.clone(), changes.entry(i).value)).collect();
    assert_eq!(
        listed,
        vec![
            ("C".to_string(), ChangeKind::New),
            ("A".to_string(), ChangeKind::Unchanged),
            ("B".to_string(), ChangeKind::New),
        ]
    );
}
