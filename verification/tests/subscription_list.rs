use restock_monitor::shopify::Product;
use restock_monitor::subscription::{
    parse_entry, parse_product_ids, select_subscribed, InvalidEntry,
};

fn entry(text: &str) -> Option<i64> {
    parse_entry(&text.chars().collect())
}

fn product(id: i64, title: &str) -> Product {
    Product {
        id,
        title: String::from(title),
        handle: String::from("h"),
        variants: vec![],
        images: vec![],
    }
}

#[test]
fn list_of_plain_numbers() {
    assert_eq!(parse_product_ids("1,2,3"), Ok(vec![1, 2, 3]));
}

#[test]
fn list_with_white_space_around_entries() {
    assert_eq!(parse_product_ids(" 10 ,\t20,30\n"), Ok(vec![10, 20, 30]));
}

#[test]
fn list_of_one_entry() {
    assert_eq!(parse_product_ids("8462917"), Ok(vec![8462917]));
}

#[test]
fn list_keeps_order_and_duplicates() {
    assert_eq!(parse_product_ids("4,2,4"), Ok(vec![4, 2, 4]));
}

#[test]
fn empty_list_has_one_invalid_entry() {
    assert_eq!(parse_product_ids(""), Err(InvalidEntry { position: 0 }));
}

#[test]
fn trailing_comma_leaves_an_invalid_entry() {
    assert_eq!(parse_product_ids("1,2,"), Err(InvalidEntry { position: 2 }));
}

#[test]
fn first_invalid_entry_is_named() {
    assert_eq!(parse_product_ids("1,x,3,y"), Err(InvalidEntry { position: 1 }));
    assert_eq!(parse_product_ids(",1"), Err(InvalidEntry { position: 0 }));
}

#[test]
fn list_agrees_with_the_standard_parser() {
    let lists = [
        "1,2,3",
        " 5 , 6 ",
        "",
        ",",
        "1,,2",
        "+7,-8",
        "9223372036854775807,-9223372036854775808",
        "9223372036854775808",
        "1 2,3",
        "0x10",
        "\u{a0}12\u{3000},\u{2003}13",
        "\u{661}\u{662}",
    ];
    for list in lists {
        let expected: Option<Vec<i64>> =
            list.split(",").map(str::trim).map(|e| e.parse::<i64>().ok()).collect();
        assert_eq!(parse_product_ids(list).ok(), expected, "list {:?}", list);
    }
}

#[test]
fn entry_with_sign() {
    assert_eq!(entry("+15"), Some(15));
    assert_eq!(entry("-15"), Some(-15));
    assert_eq!(entry("-0"), Some(0));
    assert_eq!(entry("+"), None);
    assert_eq!(entry("-"), None);
    assert_eq!(entry("--1"), None);
    assert_eq!(entry("+-1"), None);
}

#[test]
fn entry_at_the_limits_of_64_bits() {
    assert_eq!(entry("9223372036854775807"), Some(i64::MAX));
    assert_eq!(entry("-9223372036854775808"), Some(i64::MIN));
    assert_eq!(entry("9223372036854775808"), None);
    assert_eq!(entry("-9223372036854775809"), None);
    assert_eq!(entry("99999999999999999999999999999999999999999999"), None);
    assert_eq!(entry("0000000000000000000000000000000000000000042"), Some(42));
}

#[test]
fn entry_with_white_space() {
    assert_eq!(entry("  42  "), Some(42));
    assert_eq!(entry("\t\r\n42\u{85}"), Some(42));
    assert_eq!(entry("4 2"), None);
    assert_eq!(entry("   "), None);
    assert_eq!(entry(""), None);
    assert_eq!(entry("- 1"), None);
}

#[test]
fn entry_with_other_characters() {
    assert_eq!(entry("12a"), None);
    assert_eq!(entry("1.5"), None);
    assert_eq!(entry("1_000"), None);
    assert_eq!(entry("\u{200b}1"), None);
}

#[test]
fn subscription_keeps_only_subscribed_products() {
    let newly = vec![product(1, "one"), product(2, "two"), product(3, "three")];
    let selected = select_subscribed(&vec![2, 4], &newly);
    assert_eq!(selected.len(), 1);
    assert_eq!(selected[0].id, 2);
    assert_eq!(selected[0].title, "two");
}

#[test]
fn subscription_decides_the_order() {
    let newly = vec![product(1, "one"), product(2, "two"), product(3, "three")];
    let selected: Vec<i64> =
        select_subscribed(&vec![3, 1, 2], &newly).iter().map(|p| p.id).collect();
    assert_eq!(selected, vec![3, 1, 2]);
}

#[test]
fn subscription_with_a_repeated_identifier_selects_once() {
    let newly = vec![product(1, "one")];
    let selected: Vec<i64> =
        select_subscribed(&vec![1, 1], &newly).iter().map(|p| p.id).collect();
    assert_eq!(selected, vec![1]);
}

#[test]
fn repeated_identifier_keeps_its_first_place() {
    let newly = vec![product(1, "one"), product(2, "two"), product(3, "three")];
    let selected: Vec<i64> =
        select_subscribed(&vec![2, 1, 2, 3, 1, 2], &newly).iter().map(|p| p.id).collect();
    assert_eq!(selected, vec![2, 1, 3]);
}

#[test]
fn repeated_identifier_without_product_selects_nothing() {
    let newly = vec![product(1, "one")];
    assert!(select_subscribed(&vec![5, 5], &newly).is_empty());
}

#[test]
fn last_product_stands_for_a_repeated_identifier() {
    let newly = vec![product(1, "first"), product(1, "second")];
    let selected = select_subscribed(&vec![1], &newly);
    assert_eq!(selected.len(), 1);
    assert_eq!(selected[0].title, "second");
}

#[test]
fn empty_subscription_selects_nothing() {
    let newly = vec![product(1, "one")];
    assert!(select_subscribed(&vec![], &newly).is_empty());
    assert!(select_subscribed(&vec![1, 2], &vec![]).is_empty());
}
