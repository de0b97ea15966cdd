use cp_probe::table::{same_text, Table};

fn keys(t: &Table<u32>) -> Vec<String> {
    (0..t.len()).map(|i| t.key(i).to_string()).collect()
}

#[test]
fn rows_ascend_whatever_the_order_of_insertion() {
    let names = ["process_paths", "S1", "é", "audio", "z", "S", ""];
    let mut t: Table<u32> = Table::new();
    let mut reference = std::collections::BTreeMap::new();
    for (i, n) in names.iter().enumerate() {
        t.insert(n.to_string(), i as u32);
        reference.insert(n.to_string(), i as u32);
    }
    let expected: Vec<String> = reference.keys().cloned().collect();
    assert_eq!(keys(&t), expected);
    for (k, v) in &reference {
        assert_eq!(t.get(k), Some(v));
    }
    assert_eq!(t.get("absent"), None);
}

#[test]
fn a_later_value_replaces_an_earlier_one() {
    let mut t: Table<u32> = Table::new();
    assert!(t.is_empty());
    t.insert("b".to_string(), 1);
    t.insert("a".to_string(), 2);
    t.insert("b".to_string(), 3);
    assert_eq!(t.len(), 2);
    assert_eq!(keys(&t), vec!["a", "b"]);
    assert_eq!((*t.value(0), *t.value(1)), (2, 3));
    let copy = t.clone();
    t.insert("c".to_string(), 4);
    assert_eq!(keys(&copy), vec!["a", "b"]);
    assert_eq!(copy.get("b"), Some(&3));
}

#[test]
fn texts_are_the_same_or_not() {
    assert!(same_text("scan", "scan"));
    assert!(!same_text("scan", "scan "));
    assert!(!same_text("Scan", "scan"));
    assert!(same_text("", ""));
}

#[test]
fn the_order_of_insertion_leaves_no_trace() {
    let mut a: Table<u32> = Table::new();
    let mut b: Table<u32> = Table::new();
    for n in ["x", "y", "z"] {
        a.insert(n.to_string(), n.len() as u32);
    }
    for n in ["z", "x", "y", "x"] {
        b.insert(n.to_string(), n.len() as u32);
    }
    assert_eq!(keys(&a), keys(&b));
    for i in 0..a.len() {
        assert_eq!(a.value(i), b.value(i));
    }
}
