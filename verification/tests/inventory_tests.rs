use ecommerce::inventory::Inventory;

#[test]
fn unstocked_id_reads_zero() {
    let inv = Inventory::new();
    assert_eq!(inv.check_stock(42), 0);
}

#[test]
fn stock_then_partial_remove_then_refused_remove() {
    let mut inv = Inventory::new();
    inv.add_stock(1, 5);
    assert!(inv.remove_stock(1, 3));
    assert_eq!(inv.check_stock(1), 2);
    assert!(!inv.remove_stock(1, 3));
    assert_eq!(inv.check_stock(1), 2);
}

#[test]
fn remove_fails_exactly_when_request_exceeds_stock() {
    let mut inv = Inventory::new();
    inv.add_stock(7, 4);
    assert!(!inv.remove_stock(7, 5));
    assert_eq!(inv.check_stock(7), 4);
    assert!(inv.remove_stock(7, 4));
    assert_eq!(inv.check_stock(7), 0);
    assert!(!inv.remove_stock(7, 1));
    assert_eq!(inv.check_stock(7), 0);
    assert!(inv.remove_stock(7, 0));
    assert_eq!(inv.check_stock(7), 0);
}

#[test]
fn remove_from_never_stocked_id() {
    let mut inv = Inventory::new();
    assert!(!inv.remove_stock(3, 1));
    assert_eq!(inv.check_stock(3), 0);
}

#[test]
fn add_accumulates_per_id() {
    let mut inv = Inventory::new();
    inv.add_stock(1, 5);
    inv.add_stock(1, 10);
    inv.add_stock(2, 8);
    assert_eq!(inv.check_stock(1), 15);
    assert_eq!(inv.check_stock(2), 8);
    assert_eq!(inv.check_stock(3), 0);
}

#[test]
fn add_saturates_at_the_quantity_range() {
    let mut inv = Inventory::new();
    inv.add_stock(9, u32::MAX);
    inv.add_stock(9, 5);
    assert_eq!(inv.check_stock(9), u32::MAX);
}

#[test]
fn depleted_is_indistinguishable_from_never_stocked() {
    let mut inv = Inventory::new();
    inv.add_stock(4, 2);
    assert!(inv.remove_stock(4, 2));
    assert_eq!(inv.check_stock(4), 0);
    assert_eq!(inv.check_stock(5), 0);
}
