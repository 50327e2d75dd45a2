use stack_control::text::{compare_text, same_text, TextOrder};

#[test]
fn dictionary_order_by_bytes() {
    assert_eq!(compare_text("a", "b"), TextOrder::Before);
    assert_eq!(compare_text("b", "a"), TextOrder::After);
    assert_eq!(compare_text("abc", "abc"), TextOrder::Same);
    assert_eq!(compare_text("", ""), TextOrder::Same);
    assert_eq!(compare_text("", "a"), TextOrder::Before);
    assert_eq!(compare_text("a", ""), TextOrder::After);
    assert_eq!(compare_text("ab", "abc"), TextOrder::Before);
    assert_eq!(compare_text("abc", "ab"), TextOrder::After);
    assert_eq!(compare_text("Z", "a"), TextOrder::Before);
    assert_eq!(compare_text("--build", "--no-cache"), TextOrder::Before);
}

#[test]
fn dictionary_order_agrees_with_the_standard_order() {
    let words = ["", "a", "ab", "b", "B", "é", "e", "z", "--x", "-y", "10", "9"];
    for a in words {
        for b in words {
            let expected = match a.cmp(b) {
                std::cmp::Ordering::Less => TextOrder::Before,
                std::cmp::Ordering::Equal => TextOrder::Same,
                std::cmp::Ordering::Greater => TextOrder::After,
            };
            assert_eq!(compare_text(a, b), expected);
        }
    }
}

#[test]
fn sameness() {
    assert!(same_text("stack", "stack"));
    assert!(!same_text("stack", "Stack"));
    assert!(!same_text("stack", "stac"));
    assert!(same_text("", ""));
}
