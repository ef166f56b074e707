//! Records held by the ledger and the payloads exchanged at its boundary.

use chrono::NaiveDateTime;
use vstd::prelude::*;
use vstd::string::StringExecFns;

verus! {

/// `chrono::NaiveDateTime`, a calendar date and time of day without a time
/// zone. The ledger never looks inside a timestamp: it stores the one it is
/// handed and gives it back.
#[verifier::external_type_specification]
#[verifier::external_body]
pub struct ExNaiveDateTime(chrono::NaiveDateTime);

/// The characters of an optional text, if there is one.
pub open spec fn text_of(t: Option<String>) -> Option<Seq<char>> {
    match t {
        Some(s) => Some(s@),
        None => None,
    }
}

/// Current stock of one product.
#[derive(Debug, Clone, Copy, PartialEq, Eq)]
pub struct Inventory {
    pub id: i32,
    pub product_id: i32,
    pub quantity: i32,
    pub min_stock_alert: Option<i32>,
    pub created_at: Option<NaiveDateTime>,
    pub updated_at: Option<NaiveDateTime>,
}

/// Display fields of a product, owned by the catalog.
#[derive(Debug, Clone, PartialEq, Eq)]
pub struct Product {
    pub id: i32,
    pub name: String,
    pub slug: String,
}

/// Mathematical value of a [`Product`].
pub struct ProductView {
    pub id: i32,
    pub name: Seq<char>,
    pub slug: Seq<char>,
}

impl View for Product {
    type V = ProductView;

    open spec fn view(&self) -> ProductView {
        ProductView { id: self.id, name: self.name@, slug: self.slug@ }
    }
}

/// A stock record together with the display fields of its product. The
/// two product fields are absent when the catalog does not know the
/// product.
#[derive(Debug, Clone, PartialEq, Eq)]
pub struct InventoryWithProduct {
    pub id: i32,
    pub product_id: i32,
    pub quantity: i32,
    pub min_stock_alert: Option<i32>,
    pub product_name: Option<String>,
    pub product_sku: Option<String>,
    pub created_at: Option<NaiveDateTime>,
    pub updated_at: Option<NaiveDateTime>,
}

/// Mathematical value of an [`InventoryWithProduct`].
pub struct InventoryWithProductView {
    pub id: i32,
    pub product_id: i32,
    pub quantity: i32,
    pub min_stock_alert: Option<i32>,
    pub product_name: Option<Seq<char>>,
    pub product_sku: Option<Seq<char>>,
    pub created_at: Option<NaiveDateTime>,
    pub updated_at: Option<NaiveDateTime>,
}

impl View for InventoryWithProduct {
    type V = InventoryWithProductView;

    open spec fn view(&self) -> InventoryWithProductView {
        InventoryWithProductView {
            id: self.id,
            product_id: self.product_id,
            quantity: self.quantity,
            min_stock_alert: self.min_stock_alert,
            product_name: text_of(self.product_name),
            product_sku: text_of(self.product_sku),
            created_at: self.created_at,
            updated_at: self.updated_at,
        }
    }
}

/// One row of a listing as the store hands it over: the fields of a
/// stock record and, where the catalog knows the product, its name and
/// its slug.
#[derive(Debug, Clone, PartialEq, Eq)]
pub struct InventoryRow {
    pub id: i32,
    pub product_id: i32,
    pub quantity: i32,
    pub min_stock_alert: Option<i32>,
    pub product_name: Option<String>,
    pub product_sku: Option<String>,
    pub created_at: Option<NaiveDateTime>,
    pub updated_at: Option<NaiveDateTime>,
}

impl From<InventoryRow> for InventoryWithProduct {
    /// The joined record that a row stands for: every field is taken
    /// over as it is.
    fn from(row: InventoryRow) -> (joined: Self) {
        Self {
            id: row.id,
            product_id: row.product_id,
            quantity: row.quantity,
            min_stock_alert: row.min_stock_alert,
            product_name: row.product_name,
            product_sku: row.product_sku,
            created_at: row.created_at,
            updated_at: row.updated_at,
        }
    }
}

impl vstd::std_specs::convert::FromSpecImpl<InventoryRow> for InventoryWithProduct {
    open spec fn obeys_from_spec() -> bool {
        true
    }

    open spec fn from_spec(row: InventoryRow) -> Self {
        InventoryWithProduct {
            id: row.id,
            product_id: row.product_id,
            quantity: row.quantity,
            min_stock_alert: row.min_stock_alert,
            product_name: row.product_name,
            product_sku: row.product_sku,
            created_at: row.created_at,
            updated_at: row.updated_at,
        }
    }
}

/// What kind of change a movement records.
#[derive(Debug, Clone, Copy, PartialEq, Eq, Structural)]
pub enum MovementType {
    Increase,
    Decrease,
    SetAbsolute,
}

impl MovementType {
    /// The name under which the kind is persisted.
    pub open spec fn label_text(self) -> Seq<char> {
        match self {
            MovementType::Increase => "increase"@,
            MovementType::Decrease => "decrease"@,
            MovementType::SetAbsolute => "set"@,
        }
    }

    /// The name under which the kind is persisted: `increase`, `decrease`
    /// or `set`.
    pub fn label(&self) -> (name: &'static str)
        ensures
            name@ == self.label_text(),
    {
        match self {
            MovementType::Increase => "increase",
            MovementType::Decrease => "decrease",
            MovementType::SetAbsolute => "set",
        }
    }
}

/// One entry of the audit trail: a single change of one product's stock.
#[derive(Debug, Clone, PartialEq, Eq)]
pub struct InventoryMovement {
    pub id: i32,
    pub product_id: i32,
    pub quantity_change: i32,
    pub movement_type: MovementType,
    pub reason: Option<String>,
    pub created_at: Option<NaiveDateTime>,
}

/// Mathematical value of an [`InventoryMovement`].
pub struct InventoryMovementView {
    pub id: i32,
    pub product_id: i32,
    pub quantity_change: i32,
    pub movement_type: MovementType,
    pub reason: Option<Seq<char>>,
    pub created_at: Option<NaiveDateTime>,
}

impl View for InventoryMovement {
    type V = InventoryMovementView;

    open spec fn view(&self) -> InventoryMovementView {
        InventoryMovementView {
            id: self.id,
            product_id: self.product_id,
            quantity_change: self.quantity_change,
            movement_type: self.movement_type,
            reason: text_of(self.reason),
            created_at: self.created_at,
        }
    }
}

/// Request payload for stock quantity changes.
#[derive(Debug, Clone)]
pub struct QuantityRequest {
    pub quantity: i32,
}

/// Request payload for setting stock with an optional reason.
#[derive(Debug, Clone)]
pub struct SetStockRequest {
    pub quantity: i32,
    pub reason: Option<String>,
}

/// Envelope of every answer: a success flag, the data if there is any,
/// and an optional message.
#[derive(Debug)]
pub struct ApiResponse<T> {
    pub success: bool,
    pub data: Option<T>,
    pub message: Option<String>,
}

impl<T> ApiResponse<T> {
    /// The characters of the message, if there is one.
    pub open spec fn message_text(&self) -> Option<Seq<char>> {
        text_of(self.message)
    }

    /// A successful answer that carries `data` and no message.
    pub fn success(data: T) -> (r: Self)
        ensures
            r.success,
            r.data == Some(data),
            r.message is None,
    {
        Self { success: true, data: Some(data), message: None }
    }

    /// A successful answer that carries `data` and `message`.
    pub fn success_with_message(data: T, message: &str) -> (r: Self)
        ensures
            r.success,
            r.data == Some(data),
            r.message_text() == Some(message@),
    {
        Self { success: true, data: Some(data), message: Some(String::from_str(message)) }
    }

    /// A failed answer: no data, and `message` to say why.
    pub fn error(message: &str) -> (r: Self)
        ensures
            !r.success,
            r.data is None,
            r.message_text() == Some(message@),
    {
        Self { success: false, data: None, message: Some(String::from_str(message)) }
    }
}

} // verus!
