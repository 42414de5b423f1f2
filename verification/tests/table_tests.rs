use aurr_manager::table::{less, SortedTable};

#[test]
fn keys_come_out_in_ascending_order() {
    let mut t: SortedTable<u32> = SortedTable::new();
    t.insert("b".to_string(), 2);
    t.insert("a".to_string(), 1);
    t.insert("c".to_string(), 3);
    t.insert("b".to_string(), 20);
    assert_eq!(t.keys(), vec!["a", "b", "c"]);
    assert_eq!(t.get("b"), Some(&20));
    assert_eq!(t.get("z"), None);
    assert_eq!(t.len(), 3);
    assert_eq!(t.find("c"), Some(2));
}

#[test]
fn text_order_is_string_order() {
    let words = ["1 memory", "2 triage", "A before memory task", "a", "", "ab", "b", "Z"];
    for x in words {
        for y in words {
            assert_eq!(less(x, y), x < y, "{} {}", x, y);
        }
    }
}
