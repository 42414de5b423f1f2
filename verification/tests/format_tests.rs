use aurr_manager::format::{print_btmap, print_btmap_texts, print_map};
use aurr_manager::table::SortedTable;

#[test]
fn btmap_listing_cleans_values() {
    let mut t: SortedTable<Vec<String>> = SortedTable::new();
    t.insert("empty".to_string(), vec!["".to_string()]);
    t.insert("a".to_string(), vec!["x".to_string(), "y".to_string()]);
    assert_eq!(print_btmap(&t), "\n\ta           :  [x, y]\n\tempty       :  None");
}

#[test]
fn btmap_listing_of_texts() {
    let mut t: SortedTable<String> = SortedTable::new();
    t.insert("k".to_string(), "say \"hi\"".to_string());
    assert_eq!(print_btmap_texts(&t), "\n\tk           :  say hi");
}

#[test]
fn map_listing_in_given_order() {
    let e = vec![
        ("b".to_string(), vec!["1".to_string()]),
        ("a".to_string(), vec!["".to_string()]),
    ];
    assert_eq!(print_map(&e), "\n\t\t b => [\"1\"]\n\t\t a => None");
}
