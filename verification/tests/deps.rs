//! The stand-in services on their own.

use order_pipeline::deps::{or_default, Database, Deps, PaymentError, PaymentGateway};
use order_pipeline::table::KeyTable;
use order_pipeline::text::{contains, cut, is_cuttable, join, to_decimal};

#[test]
fn the_first_charge_under_a_key_wins() {
    let mut db = Database::connect("memory://test");
    assert_eq!(db.find_charge("k"), None);
    assert_eq!(db.upsert_charge("k", "ch_1"), "ch_1");
    assert_eq!(db.upsert_charge("k", "ch_2"), "ch_1");
    assert_eq!(db.find_charge("k"), Some("ch_1".to_string()));
    assert_eq!(db.find_charge("other"), None);
}

#[test]
fn charges_and_reservations_are_kept_apart() {
    let mut db = Database::connect("memory://test");
    assert_eq!(db.upsert_reservation("k", "res_1"), "res_1");
    assert_eq!(db.find_charge("k"), None);
    assert_eq!(db.upsert_charge("k", "res_1"), "res_1");
    db.delete_reservation("res_1");
    assert_eq!(db.find_charge("k"), Some("res_1".to_string()));
    assert_eq!(db.upsert_reservation("k", "res_2"), "res_2");
}

#[test]
fn deleting_a_reservation_takes_every_key_of_it() {
    let mut db = Database::connect("memory://test");
    db.upsert_reservation("a", "res_1");
    db.upsert_reservation("b", "res_2");
    db.upsert_reservation("c", "res_1");
    db.delete_reservation("res_1");
    assert_eq!(db.upsert_reservation("a", "new"), "new");
    assert_eq!(db.upsert_reservation("b", "new"), "res_2");
    assert_eq!(db.upsert_reservation("c", "new"), "new");
    db.delete_reservation("no such reservation");
    assert_eq!(db.upsert_reservation("b", "newer"), "res_2");
}

#[test]
fn a_table_gives_back_what_it_holds() {
    let mut table = KeyTable::new();
    assert_eq!(table.get("a"), None);
    assert_eq!(table.get_or_insert("a", "1"), "1");
    assert_eq!(table.get_or_insert("b", "1"), "1");
    assert_eq!(table.get_or_insert("c", "2"), "2");
    table.remove_value("1");
    assert_eq!(table.get("a"), None);
    assert_eq!(table.get("b"), None);
    assert_eq!(table.get("c"), Some("2".to_string()));
}

#[test]
fn the_gateway_answers_by_order_id() {
    let mut gateway = PaymentGateway::new("key".to_string());
    assert_eq!(gateway.call_count(), 0);
    assert_eq!(gateway.charge("ord-1", 0, "abc").unwrap(), "ch_0_abc");
    assert_eq!(
        gateway.charge("ord-1", u64::MAX, "123456789").unwrap(),
        "ch_18446744073709551615_12345678"
    );
    match gateway.charge("ord-decline-flaky", 1, "k") {
        Err(PaymentError::Declined(reason)) => assert_eq!(reason, "insufficient funds"),
        other => panic!("expected a declined card, got {other:?}"),
    }
    assert_eq!(gateway.call_count(), 3);
}

#[test]
fn flaky_failures_are_counted_across_orders() {
    let mut gateway = PaymentGateway::new("key".to_string());
    // A declined order does not count, even if it is flaky too.
    assert!(gateway.charge("decline-flaky", 1, "k").is_err());
    for n in 0..2 {
        assert!(!gateway.grants("ord-flaky"));
        match gateway.charge("ord-flaky", 1, "k") {
            Err(PaymentError::Unavailable(reason)) => {
                assert_eq!(reason, format!("timeout (call {n})"))
            }
            other => panic!("expected an unavailable gateway, got {other:?}"),
        }
    }
    assert!(gateway.grants("another-flaky"));
    assert_eq!(gateway.charge("another-flaky", 1, "k").unwrap(), "ch_1_k");
    assert_eq!(gateway.call_count(), 4);
}

#[test]
fn charges_of_many_orders_are_counted_together() {
    let mut gateway = PaymentGateway::new("key".to_string());
    let orders = ["ord-1", "a-flaky", "ord-decline", "b-flaky", "flaky-decline", "c-flaky"];
    let granted: Vec<bool> = orders
        .iter()
        .map(|order_id| gateway.charge(order_id, 1, "k").is_ok())
        .collect();
    assert_eq!(granted, [true, false, false, false, false, true]);
    assert_eq!(gateway.call_count(), 6);
}

#[test]
fn a_charge_is_counted_before_it_gets_an_id() {
    let mut gateway = PaymentGateway::new("key".to_string());
    assert!(gateway.take_in("ord-1").is_ok());
    assert!(matches!(
        gateway.take_in("ord-decline"),
        Err(PaymentError::Declined(reason)) if reason == "insufficient funds"
    ));
    assert!(matches!(
        gateway.take_in("ord-flaky"),
        Err(PaymentError::Unavailable(reason)) if reason == "timeout (call 0)"
    ));
    assert!(gateway.take_in("ord-flaky").is_err());
    assert!(gateway.take_in("ord-flaky").is_ok());
    assert_eq!(gateway.call_count(), 5);
}

#[test]
fn a_charge_id_tells_the_amount_and_the_head_of_the_key() {
    let mut gateway = PaymentGateway::new("key".to_string());
    let first = gateway.charge("ord-1", 100, "order-ord-1:charge").unwrap();
    // The first eight bytes of the keys agree.
    assert_eq!(gateway.charge("ord-2", 100, "order-ord-2:charge").unwrap(), first);
    assert_ne!(gateway.charge("ord-1", 101, "order-ord-1:charge").unwrap(), first);
    assert_ne!(gateway.charge("ord-1", 100, "order-2:charge").unwrap(), first);
}

#[test]
fn refunds_are_granted_and_not_counted() {
    let gateway = PaymentGateway::new("key".to_string());
    assert!(gateway.refund("ch_1").is_ok());
    assert_eq!(gateway.call_count(), 0);
}

#[test]
fn payment_errors_read_well() {
    assert_eq!(
        PaymentError::Declined("insufficient funds".to_string()).message(),
        "card declined: insufficient funds"
    );
    assert_eq!(
        PaymentError::Unavailable("timeout (call 1)".to_string()).message(),
        "payment gateway unavailable: timeout (call 1)"
    );
}

#[test]
fn what_is_not_configured_has_a_default() {
    assert_eq!(or_default(None, "test-key"), "test-key");
    assert_eq!(or_default(Some("mine".to_string()), "test-key"), "mine");
    let deps = Deps::from_env(None, None);
    assert_eq!(deps.payments.call_count(), 0);
    assert_eq!(deps.db.find_charge("k"), None);
}

#[test]
fn numerals_and_searches() {
    assert_eq!(to_decimal(0), "0");
    assert_eq!(to_decimal(10), "10");
    assert_eq!(to_decimal(1_234_567_890), "1234567890");
    assert_eq!(join("left", "-right"), "left-right");
    assert!(contains("ord-decline-5", "decline"));
    assert!(contains("decline", "decline"));
    assert!(!contains("declin", "decline"));
    assert!(!contains("ord-1", "flaky"));
    assert!(contains("f\u{fc}r flflaky", "flaky"));
    assert!(contains("", ""));
}

#[test]
fn a_prefix_never_splits_a_character() {
    assert!(is_cuttable("short", 8));
    assert_eq!(cut("short", 8), "short");
    assert_eq!(cut("order-ord-1", 8), "order-or");
    assert!(!is_cuttable("1234567\u{20ac}", 8));
    assert!(is_cuttable("12345\u{20ac}rest", 8));
    assert_eq!(cut("12345\u{20ac}rest", 8), "12345\u{20ac}");
    assert_eq!(cut("", 8), "");
}

#[test]
fn the_gateway_repeats_the_id_of_a_charge_that_was_not_recorded() {
    let mut gateway = PaymentGateway::new("key".to_string());
    let first = gateway.charge("ord-1", 4_999, "order-ord-1:charge").unwrap();
    let again = gateway.charge("ord-1", 4_999, "order-ord-1:charge").unwrap();
    assert_eq!(first, again);
    assert_eq!(gateway.call_count(), 2);
    // Another amount is another charge, even under the same key.
    assert_ne!(gateway.charge("ord-1", 49, "9_order-ord-1").unwrap(), first);
}
