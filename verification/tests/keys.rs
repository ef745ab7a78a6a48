use gateway::keys::{compare, compare_pair, same_text, KeyOrder};

#[test]
fn compare_orders_by_the_first_difference() {
    assert_eq!(compare(b"A1", b"A2"), KeyOrder::Before);
    assert_eq!(compare(b"A2", b"A1"), KeyOrder::After);
    assert_eq!(compare(b"B", b"A999"), KeyOrder::After);
    assert_eq!(compare(&[0x00], &[0xff]), KeyOrder::Before);
}

#[test]
fn compare_puts_a_proper_prefix_first() {
    assert_eq!(compare(b"", b"A"), KeyOrder::Before);
    assert_eq!(compare(b"A", b""), KeyOrder::After);
    assert_eq!(compare(b"A1", b"A10"), KeyOrder::Before);
    assert_eq!(compare(b"A10", b"A1"), KeyOrder::After);
}

#[test]
fn compare_finds_equal_keys() {
    assert_eq!(compare(b"", b""), KeyOrder::Same);
    assert_eq!(compare(b"880001", b"880001"), KeyOrder::Same);
}

#[test]
fn compare_agrees_with_the_order_of_strings() {
    let names = ["", "A", "A1", "A10", "A2", "a", "z9", "\u{e9}", "\u{4e2d}\u{6587}", "zz"];
    for a in names {
        for b in names {
            let expected = if a < b {
                KeyOrder::Before
            } else if a == b {
                KeyOrder::Same
            } else {
                KeyOrder::After
            };
            assert_eq!(compare(a.as_bytes(), b.as_bytes()), expected);
        }
    }
}

#[test]
fn same_text_is_exact() {
    assert!(same_text("ctp_futures", "ctp_futures"));
    assert!(same_text("", ""));
    assert!(!same_text("ctp_futures", "ctp_future"));
    assert!(!same_text("ctp_futures", "CTP_FUTURES"));
    assert!(!same_text("a", "b"));
}

#[test]
fn compare_pair_goes_by_the_first_part_then_the_second() {
    assert_eq!(compare_pair(b"B1", b"X", b"B1", b"X"), KeyOrder::Same);
    assert_eq!(compare_pair(b"B1", b"X", b"B2", b"X"), KeyOrder::Before);
    assert_eq!(compare_pair(b"B2", b"A", b"B1", b"Z"), KeyOrder::After);
    assert_eq!(compare_pair(b"B1", b"X", b"B1", b"Y"), KeyOrder::Before);
    assert_eq!(compare_pair(b"B1", b"Y", b"B1", b"X"), KeyOrder::After);
    assert_eq!(compare_pair(b"", b"", b"", b""), KeyOrder::Same);
}

#[test]
fn compare_pair_does_not_run_the_parts_together() {
    assert_eq!(compare_pair(b"B", b"1X", b"B1", b"X"), KeyOrder::Before);
    assert_eq!(compare_pair(b"B1", b"X", b"B", b"1X"), KeyOrder::After);
    assert_eq!(compare_pair(b"B1X", b"", b"B1", b"X"), KeyOrder::After);
}
