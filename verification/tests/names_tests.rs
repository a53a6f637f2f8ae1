use std::collections::BTreeMap;
use weoo::name_map::NameMap;
use weoo::names::compare_names;
use weoo::names::same_name;
use weoo::names::Placement;

fn words() -> Vec<&'static str> {
    vec![
        "", "a", "A", "ab", "abc", "abd", "b", "Daymar", "Yela", "Cellin", "Stanton", "Space", "Self",
        "Daymar ", "daymar", "zeta", "Z", "é", "e", "ez", "日本", "日", "🚀", "~", "Better Shubin",
        "Better Eager", "Better Kudre",
    ]
}

#[test]
fn names_are_ordered_as_strings_are() {
    for a in words() {
        for b in words() {
            let expected = match a.cmp(b) {
                std::cmp::Ordering::Less => Placement::Before,
                std::cmp::Ordering::Equal => Placement::Same,
                std::cmp::Ordering::Greater => Placement::After,
            };
            assert_eq!(compare_names(a, b), expected, "{a:?} against {b:?}");
            assert_eq!(same_name(a, b), a == b);
        }
    }
}

#[test]
fn a_prefix_comes_first() {
    assert_eq!(compare_names("Day", "Daymar"), Placement::Before);
    assert_eq!(compare_names("Daymar", "Day"), Placement::After);
    assert_eq!(compare_names("Daymar", "Daymar"), Placement::Same);
}

#[test]
fn empty_map() {
    let m: NameMap<u32> = NameMap::new();
    assert_eq!(m.len(), 0);
    assert!(m.is_empty());
    assert!(m.get("x").is_none());
    assert!(!m.contains_key("x"));
    assert_eq!(m.locate("x"), Err(0));
}

#[test]
fn map_walks_in_the_order_of_the_names() {
    let mut m: NameMap<usize> = NameMap::new();
    let mut reference: BTreeMap<String, usize> = BTreeMap::new();
    for (i, w) in words().into_iter().enumerate() {
        assert_eq!(m.insert(w.to_string(), i), reference.insert(w.to_string(), i));
    }
    assert_eq!(m.len(), reference.len());
    for (i, (k, v)) in reference.iter().enumerate() {
        assert_eq!(m.name_at(i), k);
        assert_eq!(m.value_at(i), v);
        assert_eq!(m.get(k), Some(v));
        assert_eq!(m.locate(k), Ok(i));
    }
}

#[test]
fn insert_replaces_and_returns_the_previous_value() {
    let mut m: NameMap<u32> = NameMap::new();
    assert_eq!(m.insert("b".to_string(), 1), None);
    assert_eq!(m.insert("a".to_string(), 2), None);
    assert_eq!(m.insert("b".to_string(), 3), Some(1));
    assert_eq!(m.len(), 2);
    assert_eq!(m.get("b"), Some(&3));
    assert_eq!(m.get("a"), Some(&2));
    assert_eq!(m.name_at(0), "a");
    assert_eq!(m.name_at(1), "b");
}

#[test]
fn locate_tells_where_a_missing_name_would_go() {
    let mut m: NameMap<u32> = NameMap::new();
    m.insert("b".to_string(), 1);
    m.insert("d".to_string(), 2);
    assert_eq!(m.locate("a"), Err(0));
    assert_eq!(m.locate("b"), Ok(0));
    assert_eq!(m.locate("c"), Err(1));
    assert_eq!(m.locate("d"), Ok(1));
    assert_eq!(m.locate("e"), Err(2));
}

#[test]
fn remove_takes_one_entry_out() {
    let mut m: NameMap<u32> = NameMap::new();
    m.insert("a".to_string(), 1);
    m.insert("b".to_string(), 2);
    m.insert("c".to_string(), 3);
    assert_eq!(m.remove("b"), Some(2));
    assert_eq!(m.remove("b"), None);
    assert_eq!(m.len(), 2);
    assert_eq!(m.name_at(0), "a");
    assert_eq!(m.name_at(1), "c");
    assert_eq!(m.get("c"), Some(&3));
}

#[test]
fn replace_at_keeps_the_name() {
    let mut m: NameMap<u32> = NameMap::new();
    m.insert("a".to_string(), 1);
    m.insert("b".to_string(), 2);
    assert_eq!(m.replace_at(1, 9), 2);
    assert_eq!(m.get("b"), Some(&9));
    assert_eq!(m.get("a"), Some(&1));
    assert_eq!(m.name_at(1), "b");
}

#[test]
fn clone_holds_the_same_entries() {
    let mut m: NameMap<String> = NameMap::new();
    m.insert("b".to_string(), "two".to_string());
    m.insert("a".to_string(), "one".to_string());
    let c = m.clone();
    assert_eq!(c.len(), 2);
    assert_eq!(c.get("a"), Some(&"one".to_string()));
    assert_eq!(c.get("b"), Some(&"two".to_string()));
}
