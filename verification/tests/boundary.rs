use chrono::{NaiveDate, NaiveDateTime};
use inventory::error::{LedgerError, QuantityRule};
use inventory::handlers::{
    check_amount, check_level, check_sufficient, decrease_stock, get_all_inventory,
    get_inventory_by_product, health_check, increase_stock, set_stock,
};
use inventory::ledger::{check_stock, Ledger};
use inventory::models::{Inventory, QuantityRequest, SetStockRequest};
use inventory::reply::{change_reply, failure, lookup_reply, read_reply, Operation, Reply};

fn noon() -> NaiveDateTime {
    NaiveDate::from_ymd_opt(2024, 6, 1).unwrap().and_hms_opt(12, 0, 0).unwrap()
}

fn amount(quantity: i32) -> QuantityRequest {
    QuantityRequest { quantity }
}

#[test]
fn amounts_have_to_be_positive() {
    assert_eq!(check_amount(1), Ok(()));
    assert_eq!(check_amount(0), Err(LedgerError::Validation(QuantityRule::Positive)));
    assert_eq!(check_amount(-1), Err(LedgerError::Validation(QuantityRule::Positive)));
}

#[test]
fn levels_have_to_be_non_negative() {
    assert_eq!(check_level(0), Ok(()));
    assert_eq!(check_level(5), Ok(()));
    assert_eq!(check_level(-1), Err(LedgerError::Validation(QuantityRule::NonNegative)));
}

#[test]
fn sufficiency_compares_available_with_requested() {
    assert_eq!(check_sufficient(5, 5), Ok(()));
    assert_eq!(check_sufficient(6, 5), Ok(()));
    assert_eq!(
        check_sufficient(4, 5),
        Err(LedgerError::InsufficientStock { available: 4, requested: 5 })
    );
}

#[test]
fn health_names_the_service() {
    let health = health_check();
    assert_eq!(health.status, "healthy");
    assert_eq!(health.service, "inventory");
}

#[test]
fn failure_statuses_and_messages() {
    let cases: Vec<(Operation, LedgerError, u16, &str)> = vec![
        (
            Operation::Increase,
            LedgerError::Validation(QuantityRule::Positive),
            400,
            "Quantity must be greater than 0",
        ),
        (
            Operation::SetAbsolute,
            LedgerError::Validation(QuantityRule::NonNegative),
            400,
            "Quantity cannot be negative",
        ),
        (
            Operation::Decrease,
            LedgerError::InsufficientStock { available: 2, requested: 3 },
            400,
            "Insufficient stock. Available: 2, Requested: 3",
        ),
        (Operation::Lookup, LedgerError::NotFound, 404, "Inventory not found for product"),
        (Operation::Decrease, LedgerError::NotFound, 404, "Product not found in inventory"),
        (Operation::Increase, LedgerError::NotFound, 500, "Failed to increase stock"),
        (Operation::SetAbsolute, LedgerError::NotFound, 500, "Failed to set stock"),
        (Operation::List, LedgerError::StoreError, 500, "Failed to retrieve inventory"),
        (Operation::Lookup, LedgerError::StoreError, 500, "Failed to retrieve inventory"),
        (Operation::Prepare, LedgerError::StoreError, 500, "Failed to process request"),
        (Operation::Increase, LedgerError::StoreError, 500, "Failed to increase stock"),
        (Operation::Decrease, LedgerError::StoreError, 500, "Failed to decrease stock"),
        (Operation::SetAbsolute, LedgerError::StoreError, 500, "Failed to set stock"),
    ];
    for (op, e, status, message) in cases {
        let reply: Reply<()> = failure(op, e);
        assert_eq!(reply.status, status);
        assert!(!reply.body.success);
        assert_eq!(reply.body.data, None);
        assert_eq!(reply.body.message.as_deref(), Some(message));
    }
}

#[test]
fn read_reply_carries_data_or_reports_failure() {
    let ok: Reply<i32> = read_reply(Operation::List, Ok(3));
    assert_eq!(ok.status, 200);
    assert!(ok.body.success);
    assert_eq!(ok.body.data, Some(3));
    assert_eq!(ok.body.message, None);
    let failed: Reply<i32> = read_reply(Operation::List, Err(LedgerError::StoreError));
    assert_eq!(failed.status, 500);
    assert_eq!(failed.body.message.as_deref(), Some("Failed to retrieve inventory"));
}

#[test]
fn lookup_reply_tells_absent_from_failed() {
    let found: Reply<i32> = lookup_reply(Ok(Some(3)));
    assert_eq!(found.status, 200);
    assert_eq!(found.body.data, Some(3));
    let absent: Reply<i32> = lookup_reply(Ok(None));
    assert_eq!(absent.status, 404);
    assert_eq!(absent.body.message.as_deref(), Some("Inventory not found for product"));
    let failed: Reply<i32> = lookup_reply(Err(LedgerError::StoreError));
    assert_eq!(failed.status, 500);
    assert_eq!(failed.body.message.as_deref(), Some("Failed to retrieve inventory"));
}

#[test]
fn change_reply_names_the_quantity() {
    let up: Reply<i32> = change_reply(Operation::Increase, 5, Ok(1));
    assert_eq!(up.status, 200);
    assert_eq!(up.body.data, Some(1));
    assert_eq!(up.body.message.as_deref(), Some("Stock increased by 5"));
    let down: Reply<i32> = change_reply(Operation::Decrease, 6, Ok(1));
    assert_eq!(down.body.message.as_deref(), Some("Stock decreased by 6"));
    let set: Reply<i32> = change_reply(Operation::SetAbsolute, 7, Ok(1));
    assert_eq!(set.body.message.as_deref(), Some("Stock set to 7"));
    let failed: Reply<i32> = change_reply(Operation::Decrease, 6, Err(LedgerError::StoreError));
    assert_eq!(failed.status, 500);
    assert_eq!(failed.body.message.as_deref(), Some("Failed to decrease stock"));
}

#[test]
fn increase_request_creates_record_and_adds() {
    let mut store = Ledger::new();
    let reply = increase_stock(&mut store, 8, &amount(50), noon());
    assert_eq!(reply.status, 200);
    assert!(reply.body.success);
    assert_eq!(reply.body.message.as_deref(), Some("Stock increased by 50"));
    let row: Inventory = reply.body.data.unwrap();
    assert_eq!(row.product_id, 8);
    assert_eq!(row.quantity, 50);
    assert_eq!(check_stock(&store, 8), Ok(50));
    assert_eq!(store.movements().len(), 1);
}

#[test]
fn increase_request_rejects_non_positive_amounts() {
    let mut store = Ledger::new();
    for q in [0, -1, i32::MIN] {
        let reply = increase_stock(&mut store, 8, &amount(q), noon());
        assert_eq!(reply.status, 400);
        assert!(!reply.body.success);
        assert_eq!(reply.body.data, None);
        assert_eq!(reply.body.message.as_deref(), Some("Quantity must be greater than 0"));
    }
    assert_eq!(check_stock(&store, 8), Err(LedgerError::NotFound));
    assert_eq!(store.movements().len(), 0);
}

#[test]
fn increase_request_beyond_range_fails_after_record_was_made() {
    let mut store = Ledger::new();
    increase_stock(&mut store, 8, &amount(i32::MAX), noon());
    let reply = increase_stock(&mut store, 8, &amount(1), noon());
    assert_eq!(reply.status, 500);
    assert_eq!(reply.body.message.as_deref(), Some("Failed to increase stock"));
    assert_eq!(check_stock(&store, 8), Ok(i32::MAX));
    assert_eq!(store.movements().len(), 1);
}

#[test]
fn decrease_request_takes_from_stock() {
    let mut store = Ledger::new();
    increase_stock(&mut store, 8, &amount(50), noon());
    let reply = decrease_stock(&mut store, 8, &amount(20), noon());
    assert_eq!(reply.status, 200);
    assert_eq!(reply.body.message.as_deref(), Some("Stock decreased by 20"));
    assert_eq!(reply.body.data.unwrap().quantity, 30);
    assert_eq!(check_stock(&store, 8), Ok(30));
}

#[test]
fn decrease_request_of_whole_stock_leaves_zero() {
    let mut store = Ledger::new();
    increase_stock(&mut store, 8, &amount(50), noon());
    let reply = decrease_stock(&mut store, 8, &amount(50), noon());
    assert_eq!(reply.status, 200);
    assert_eq!(reply.body.data.unwrap().quantity, 0);
}

#[test]
fn decrease_request_beyond_stock_changes_nothing() {
    let mut store = Ledger::new();
    increase_stock(&mut store, 8, &amount(30), noon());
    let before = store.movements();
    let reply = decrease_stock(&mut store, 8, &amount(31), noon());
    assert_eq!(reply.status, 400);
    assert!(!reply.body.success);
    assert_eq!(reply.body.data, None);
    assert_eq!(
        reply.body.message.as_deref(),
        Some("Insufficient stock. Available: 30, Requested: 31")
    );
    assert_eq!(check_stock(&store, 8), Ok(30));
    assert_eq!(store.movements(), before);
}

#[test]
fn decrease_request_rejects_non_positive_amounts() {
    let mut store = Ledger::new();
    increase_stock(&mut store, 8, &amount(30), noon());
    let reply = decrease_stock(&mut store, 8, &amount(0), noon());
    assert_eq!(reply.status, 400);
    assert_eq!(reply.body.message.as_deref(), Some("Quantity must be greater than 0"));
    assert_eq!(check_stock(&store, 8), Ok(30));
}

#[test]
fn decrease_request_for_unknown_product_is_not_found() {
    let mut store = Ledger::new();
    let reply = decrease_stock(&mut store, 8, &amount(1), noon());
    assert_eq!(reply.status, 404);
    assert_eq!(reply.body.message.as_deref(), Some("Product not found in inventory"));
    assert_eq!(check_stock(&store, 8), Err(LedgerError::NotFound));
}

#[test]
fn set_request_creates_record_and_sets() {
    let mut store = Ledger::new();
    let body = SetStockRequest { quantity: 12, reason: None };
    let reply = set_stock(&mut store, 8, &body, noon());
    assert_eq!(reply.status, 200);
    assert_eq!(reply.body.message.as_deref(), Some("Stock set to 12"));
    assert_eq!(reply.body.data.unwrap().quantity, 12);
    let history = store.movements();
    assert_eq!(history.len(), 1);
    assert_eq!(history[0].quantity_change, 12);
    assert_eq!(history[0].reason.as_deref(), Some("Stock set to 12"));
}

#[test]
fn set_request_keeps_given_reason() {
    let mut store = Ledger::new();
    increase_stock(&mut store, 8, &amount(30), noon());
    let body = SetStockRequest { quantity: 10, reason: Some("correction".to_string()) };
    let reply = set_stock(&mut store, 8, &body, noon());
    assert_eq!(reply.status, 200);
    let history = store.movements();
    assert_eq!(history[1].quantity_change, -20);
    assert_eq!(history[1].reason.as_deref(), Some("correction"));
}

#[test]
fn set_request_accepts_zero_and_rejects_negative() {
    let mut store = Ledger::new();
    let zero = SetStockRequest { quantity: 0, reason: None };
    assert_eq!(set_stock(&mut store, 8, &zero, noon()).status, 200);
    let negative = SetStockRequest { quantity: -1, reason: None };
    let reply = set_stock(&mut store, 8, &negative, noon());
    assert_eq!(reply.status, 400);
    assert_eq!(reply.body.message.as_deref(), Some("Quantity cannot be negative"));
    assert_eq!(check_stock(&store, 8), Ok(0));
    assert_eq!(store.movements().len(), 1);
}

#[test]
fn listing_request_answers_with_every_record() {
    let mut store = Ledger::new();
    increase_stock(&mut store, 8, &amount(3), noon());
    increase_stock(&mut store, 4, &amount(5), noon());
    let reply = get_all_inventory(&store);
    assert_eq!(reply.status, 200);
    assert!(reply.body.success);
    assert_eq!(reply.body.message, None);
    let rows = reply.body.data.unwrap();
    assert_eq!(rows.len(), 2);
    assert_eq!(rows[0].product_id, 8);
    assert_eq!(rows[0].quantity, 3);
    assert_eq!(rows[1].product_id, 4);
    assert_eq!(rows[1].quantity, 5);
}

#[test]
fn lookup_request_answers_with_record_or_not_found() {
    let mut store = Ledger::new();
    increase_stock(&mut store, 8, &amount(3), noon());
    let found = get_inventory_by_product(&store, 8);
    assert_eq!(found.status, 200);
    assert_eq!(found.body.data.unwrap().quantity, 3);
    let absent = get_inventory_by_product(&store, 9);
    assert_eq!(absent.status, 404);
    assert!(!absent.body.success);
    assert_eq!(absent.body.message.as_deref(), Some("Inventory not found for product"));
    assert_eq!(check_stock(&store, 9), Err(LedgerError::NotFound));
}
