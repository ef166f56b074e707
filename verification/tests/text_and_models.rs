use chrono::NaiveDate;
use inventory::models::{ApiResponse, InventoryRow, InventoryWithProduct, MovementType};
use inventory::text::{decimal_text, decreased_text, increased_text, insufficient_text, set_text};

#[test]
fn decimal_text_of_zero() {
    assert_eq!(decimal_text(0), "0");
}

#[test]
fn decimal_text_of_single_digits() {
    let expected = ["0", "1", "2", "3", "4", "5", "6", "7", "8", "9"];
    for (n, text) in expected.iter().enumerate() {
        assert_eq!(decimal_text(n as i32), *text);
    }
}

#[test]
fn decimal_text_keeps_inner_zeros() {
    assert_eq!(decimal_text(10), "10");
    assert_eq!(decimal_text(1005), "1005");
    assert_eq!(decimal_text(700), "700");
}

#[test]
fn decimal_text_of_negative_numbers() {
    assert_eq!(decimal_text(-1), "-1");
    assert_eq!(decimal_text(-42), "-42");
    assert_eq!(decimal_text(-9080), "-9080");
}

#[test]
fn decimal_text_of_extremes() {
    assert_eq!(decimal_text(i32::MAX), "2147483647");
    assert_eq!(decimal_text(i32::MIN), "-2147483648");
}

#[test]
fn decimal_text_agrees_with_std_formatting() {
    let mut n: i32 = -1_000_000;
    while n < 1_000_000 {
        assert_eq!(decimal_text(n), format!("{}", n));
        n += 7919;
    }
}

#[test]
fn message_texts() {
    assert_eq!(set_text(10), "Stock set to 10");
    assert_eq!(increased_text(50), "Stock increased by 50");
    assert_eq!(decreased_text(20), "Stock decreased by 20");
    assert_eq!(insufficient_text(30, 100), "Insufficient stock. Available: 30, Requested: 100");
    assert_eq!(insufficient_text(-6, 1), "Insufficient stock. Available: -6, Requested: 1");
}

#[test]
fn movement_type_labels() {
    assert_eq!(MovementType::Increase.label(), "increase");
    assert_eq!(MovementType::Decrease.label(), "decrease");
    assert_eq!(MovementType::SetAbsolute.label(), "set");
}

#[test]
fn api_response_success_has_data_and_no_message() {
    let r = ApiResponse::success(5);
    assert!(r.success);
    assert_eq!(r.data, Some(5));
    assert_eq!(r.message, None);
}

#[test]
fn api_response_success_with_message_has_both() {
    let r = ApiResponse::success_with_message(vec![1, 2], "done");
    assert!(r.success);
    assert_eq!(r.data, Some(vec![1, 2]));
    assert_eq!(r.message.as_deref(), Some("done"));
}

#[test]
fn api_response_error_has_message_only() {
    let r = ApiResponse::<()>::error("broken");
    assert!(!r.success);
    assert_eq!(r.data, None);
    assert_eq!(r.message.as_deref(), Some("broken"));
}

#[test]
fn row_converts_field_by_field() {
    let created = NaiveDate::from_ymd_opt(2023, 12, 31).unwrap().and_hms_opt(23, 59, 58).unwrap();
    let updated = NaiveDate::from_ymd_opt(2024, 1, 1).unwrap().and_hms_opt(0, 0, 1).unwrap();
    let row = InventoryRow {
        id: 4,
        product_id: 17,
        quantity: -3,
        min_stock_alert: None,
        product_name: Some("Lamp".to_string()),
        product_sku: None,
        created_at: Some(created),
        updated_at: Some(updated),
    };
    let joined = InventoryWithProduct::from(row);
    assert_eq!(joined.id, 4);
    assert_eq!(joined.product_id, 17);
    assert_eq!(joined.quantity, -3);
    assert_eq!(joined.min_stock_alert, None);
    assert_eq!(joined.product_name.as_deref(), Some("Lamp"));
    assert_eq!(joined.product_sku, None);
    assert_eq!(joined.created_at, Some(created));
    assert_eq!(joined.updated_at, Some(updated));
}
