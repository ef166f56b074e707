//! What the boundary answers: a status, and the envelope with the data
//! or with the message that says what went wrong.

use crate::error::{LedgerError, QuantityRule};
use crate::models::ApiResponse;
use crate::text::{
    decreased_message, decreased_text, increased_message, increased_text, insufficient_message,
    insufficient_text, set_message, set_text,
};
use vstd::prelude::*;
use vstd::string::StringExecFns;

verus! {

/// Status of an answer that carries what was asked for.
pub const STATUS_OK: u16 = 200;

/// Status of a request that breaks a rule.
pub const STATUS_BAD_REQUEST: u16 = 400;

/// Status of a request for a record that does not exist.
pub const STATUS_NOT_FOUND: u16 = 404;

/// Status of a request the store could not carry out.
pub const STATUS_INTERNAL_ERROR: u16 = 500;

/// The step of a request during which something can go wrong.
#[derive(Debug, Clone, Copy, PartialEq, Eq, Structural)]
pub enum Operation {
    /// Reading every record.
    List,
    /// Reading the record of one product.
    Lookup,
    /// Making sure a record exists before it is changed.
    Prepare,
    /// Adding to the stock.
    Increase,
    /// Taking from the stock.
    Decrease,
    /// Setting the stock to an absolute quantity.
    SetAbsolute,
}

impl Operation {
    /// What the caller is told when the store fails during this step.
    /// Nothing of the store's own error text is in it.
    pub open spec fn failure_text(self) -> Seq<char> {
        match self {
            Operation::List => "Failed to retrieve inventory"@,
            Operation::Lookup => "Failed to retrieve inventory"@,
            Operation::Prepare => "Failed to process request"@,
            Operation::Increase => "Failed to increase stock"@,
            Operation::Decrease => "Failed to decrease stock"@,
            Operation::SetAbsolute => "Failed to set stock"@,
        }
    }

    /// What the caller is told when this step changed the stock, for the
    /// three steps that do.
    pub open spec fn success_text(self, quantity: i32) -> Option<Seq<char>> {
        match self {
            Operation::Increase => Some(increased_message(quantity as int)),
            Operation::Decrease => Some(decreased_message(quantity as int)),
            Operation::SetAbsolute => Some(set_message(quantity as int)),
            _ => None,
        }
    }
}

/// The status that reports failure `e` of step `op`: a broken rule and
/// insufficient stock are the caller's fault, a missing record is "not
/// found" where the caller named the record to read or to take from, and
/// everything else is the store's failure.
pub open spec fn failure_status(op: Operation, e: LedgerError) -> u16 {
    match e {
        LedgerError::Validation(_) => STATUS_BAD_REQUEST,
        LedgerError::InsufficientStock { .. } => STATUS_BAD_REQUEST,
        LedgerError::NotFound => if op == Operation::Lookup || op == Operation::Decrease {
            STATUS_NOT_FOUND
        } else {
            STATUS_INTERNAL_ERROR
        },
        LedgerError::StoreError => STATUS_INTERNAL_ERROR,
    }
}

/// The message that reports failure `e` of step `op`.
pub open spec fn failure_message(op: Operation, e: LedgerError) -> Seq<char> {
    match e {
        LedgerError::Validation(QuantityRule::Positive) => "Quantity must be greater than 0"@,
        LedgerError::Validation(QuantityRule::NonNegative) => "Quantity cannot be negative"@,
        LedgerError::InsufficientStock { available, requested } => insufficient_message(
            available as int,
            requested as int,
        ),
        LedgerError::NotFound => match op {
            Operation::Lookup => "Inventory not found for product"@,
            Operation::Decrease => "Product not found in inventory"@,
            _ => op.failure_text(),
        },
        LedgerError::StoreError => op.failure_text(),
    }
}

/// An answer of the boundary.
#[derive(Debug)]
pub struct Reply<T> {
    pub status: u16,
    pub body: ApiResponse<T>,
}

impl<T> Reply<T> {
    /// The answer carries `data` with status 200 and the message given.
    pub open spec fn carries(self, data: T, message: Option<Seq<char>>) -> bool {
        &&& self.status == STATUS_OK
        &&& self.body.success
        &&& self.body.data == Some(data)
        &&& self.body.message_text() == message
    }

    /// The answer reports failure `e` of step `op`: its status and its
    /// message are those of the failure, and it carries no data.
    pub open spec fn reports(self, op: Operation, e: LedgerError) -> bool {
        &&& self.status == failure_status(op, e)
        &&& !self.body.success
        &&& self.body.data is None
        &&& self.body.message_text() == Some(failure_message(op, e))
    }
}

fn failure_text_of(op: Operation) -> (text: &'static str)
    ensures
        text@ == op.failure_text(),
{
    match op {
        Operation::List => "Failed to retrieve inventory",
        Operation::Lookup => "Failed to retrieve inventory",
        Operation::Prepare => "Failed to process request",
        Operation::Increase => "Failed to increase stock",
        Operation::Decrease => "Failed to decrease stock",
        Operation::SetAbsolute => "Failed to set stock",
    }
}

/// The answer that reports failure `e` of step `op`.
pub fn failure<T>(op: Operation, e: LedgerError) -> (reply: Reply<T>)
    ensures
        reply.reports(op, e),
{
    match e {
        LedgerError::Validation(QuantityRule::Positive) => Reply {
            status: STATUS_BAD_REQUEST,
            body: ApiResponse::error("Quantity must be greater than 0"),
        },
        LedgerError::Validation(QuantityRule::NonNegative) => Reply {
            status: STATUS_BAD_REQUEST,
            body: ApiResponse::error("Quantity cannot be negative"),
        },
        LedgerError::InsufficientStock { available, requested } => {
            let text = insufficient_text(available, requested);
            Reply { status: STATUS_BAD_REQUEST, body: ApiResponse::error(text.as_str()) }
        },
        LedgerError::NotFound => match op {
            Operation::Lookup => Reply {
                status: STATUS_NOT_FOUND,
                body: ApiResponse::error("Inventory not found for product"),
            },
            Operation::Decrease => Reply {
                status: STATUS_NOT_FOUND,
                body: ApiResponse::error("Product not found in inventory"),
            },
            _ => Reply {
                status: STATUS_INTERNAL_ERROR,
                body: ApiResponse::error(failure_text_of(op)),
            },
        },
        LedgerError::StoreError => Reply {
            status: STATUS_INTERNAL_ERROR,
            body: ApiResponse::error(failure_text_of(op)),
        },
    }
}

/// The answer to a read: the data without a message, or the failure of
/// step `op`.
pub fn read_reply<T>(op: Operation, result: Result<T, LedgerError>) -> (reply: Reply<T>)
    ensures
        match result {
            Ok(data) => reply.carries(data, None),
            Err(e) => reply.reports(op, e),
        },
{
    match result {
        Ok(data) => Reply { status: STATUS_OK, body: ApiResponse::success(data) },
        Err(e) => failure(op, e),
    }
}

/// The answer to a lookup: the record without a message, "not found"
/// where there is none, or the failure of the lookup.
pub fn lookup_reply<T>(result: Result<Option<T>, LedgerError>) -> (reply: Reply<T>)
    ensures
        match result {
            Ok(Some(data)) => reply.carries(data, None),
            Ok(None) => reply.reports(Operation::Lookup, LedgerError::NotFound),
            Err(e) => reply.reports(Operation::Lookup, e),
        },
{
    match result {
        Ok(Some(data)) => Reply { status: STATUS_OK, body: ApiResponse::success(data) },
        Ok(None) => failure(Operation::Lookup, LedgerError::NotFound),
        Err(e) => failure(Operation::Lookup, e),
    }
}

/// The answer to a change of stock by step `op`: the updated record with
/// the message that names the quantity, or the failure of the step.
pub fn change_reply<T>(op: Operation, quantity: i32, result: Result<T, LedgerError>) -> (reply:
    Reply<T>)
    ensures
        match result {
            Ok(data) => reply.carries(data, op.success_text(quantity)),
            Err(e) => reply.reports(op, e),
        },
{
    match result {
        Ok(data) => {
            let body = match op {
                Operation::Increase => ApiResponse::success_with_message(
                    data,
                    increased_text(quantity).as_str(),
                ),
                Operation::Decrease => ApiResponse::success_with_message(
                    data,
                    decreased_text(quantity).as_str(),
                ),
                Operation::SetAbsolute => ApiResponse::success_with_message(
                    data,
                    set_text(quantity).as_str(),
                ),
                _ => ApiResponse::success(data),
            };
            Reply { status: STATUS_OK, body }
        },
        Err(e) => failure(op, e),
    }
}

} // verus!
