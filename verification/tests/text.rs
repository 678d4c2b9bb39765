use keyvault_tui::text::{clone_names, clone_pairs, decimal, join3, join5, owned, sort_names};

fn strings(list: &[&str]) -> Vec<String> {
    list.iter().map(|s| s.to_string()).collect()
}

#[test]
fn decimal_writes_counts() {
    assert_eq!(decimal(0), "0");
    assert_eq!(decimal(7), "7");
    assert_eq!(decimal(10), "10");
    assert_eq!(decimal(12345), "12345");
    assert_eq!(decimal(1_000_000), "1000000");
    assert_eq!(decimal(usize::MAX), usize::MAX.to_string());
}

#[test]
fn sort_names_orders_lexicographically_and_keeps_duplicates() {
    let sorted = sort_names(strings(&["pear", "apple", "Pear", "apple", "app", ""]));
    assert_eq!(sorted, strings(&["", "Pear", "app", "apple", "apple", "pear"]));
    assert_eq!(sort_names(Vec::new()), Vec::<String>::new());
}

#[test]
fn sort_names_orders_by_code_point() {
    let sorted = sort_names(strings(&["é", "z", "a", "ß", "Z"]));
    assert_eq!(sorted, strings(&["Z", "a", "z", "ß", "é"]));
}

#[test]
fn joins_concatenate_in_order() {
    assert_eq!(join3("a", "b", "c"), "abc");
    assert_eq!(join3("", "x", ""), "x");
    assert_eq!(join5("Loaded ", "3", " secrets (from ", "v1", ")"), "Loaded 3 secrets (from v1)");
    assert_eq!(owned("text"), "text");
}

#[test]
fn copies_equal_their_sources() {
    let names = strings(&["one", "two"]);
    assert_eq!(clone_names(&names), names);
    let pairs = vec![("v1".to_string(), "https://v1/".to_string())];
    assert_eq!(clone_pairs(&pairs), pairs);
}
