//! The boundary of the ledger: each request is checked against the rules
//! for quantities, carried out on the store, and answered.

use crate::error::{LedgerError, QuantityRule};
use crate::ledger::{self, joined_views, Ledger};
use crate::models::{text_of, Inventory, InventoryWithProduct, QuantityRequest, SetStockRequest};
use crate::reply::{change_reply, failure, lookup_reply, read_reply, Operation, Reply};
use crate::text::{decreased_message, increased_message, set_message};
use chrono::NaiveDateTime;
use vstd::prelude::*;
use vstd::string::StringExecFns;

verus! {

/// An amount to add or to take away has to be strictly positive.
pub fn check_amount(quantity: i32) -> (r: Result<(), LedgerError>)
    ensures
        quantity > 0 ==> r is Ok,
        quantity <= 0 ==> r == Err::<(), LedgerError>(
            LedgerError::Validation(QuantityRule::Positive),
        ),
{
    if quantity <= 0 {
        Err(LedgerError::Validation(QuantityRule::Positive))
    } else {
        Ok(())
    }
}

/// An absolute quantity has to be zero or more.
pub fn check_level(quantity: i32) -> (r: Result<(), LedgerError>)
    ensures
        quantity >= 0 ==> r is Ok,
        quantity < 0 ==> r == Err::<(), LedgerError>(
            LedgerError::Validation(QuantityRule::NonNegative),
        ),
{
    if quantity < 0 {
        Err(LedgerError::Validation(QuantityRule::NonNegative))
    } else {
        Ok(())
    }
}

/// A decrease may not ask for more than is in stock.
pub fn check_sufficient(available: i32, requested: i32) -> (r: Result<(), LedgerError>)
    ensures
        available >= requested ==> r is Ok,
        available < requested ==> r == Err::<(), LedgerError>(
            LedgerError::InsufficientStock { available, requested },
        ),
{
    if available < requested {
        Err(LedgerError::InsufficientStock { available, requested })
    } else {
        Ok(())
    }
}

/// What the service says of itself when asked whether it is up.
#[derive(Debug, Clone, PartialEq, Eq)]
pub struct Health {
    pub status: String,
    pub service: String,
}

/// The service is healthy and is the inventory.
pub fn health_check() -> (health: Health)
    ensures
        health.status@ == "healthy"@,
        health.service@ == "inventory"@,
{
    Health { status: String::from_str("healthy"), service: String::from_str("inventory") }
}

/// Answers with every stock record, joined with its product, in the
/// order of the record ids.
pub fn get_all_inventory(store: &Ledger) -> (reply: Reply<Vec<InventoryWithProduct>>)
    ensures
        store@.wf(),
        reply.body.data matches Some(rows) && reply.carries(rows, None) && joined_views(rows@)
            == store@.listing(),
{
    read_reply(Operation::List, ledger::get_all_inventory(store))
}

/// Answers with the joined stock record of one product, or with "not
/// found" where the product has none.
pub fn get_inventory_by_product(store: &Ledger, product_id: i32) -> (reply: Reply<
    InventoryWithProduct,
>)
    ensures
        store@.wf(),
        match store@.joined_lookup(product_id) {
            Some(joined) => reply.body.data matches Some(row) && reply.carries(row, None) && row@
                == joined,
            None => reply.reports(Operation::Lookup, LedgerError::NotFound),
        },
{
    lookup_reply(ledger::get_inventory_by_product(store, product_id))
}

/// Adds the requested amount to the stock of a product, creating its
/// record first where it has none. A request for an amount that is not
/// strictly positive is turned away before the store is touched.
pub fn increase_stock(
    store: &mut Ledger,
    product_id: i32,
    body: &QuantityRequest,
    now: NaiveDateTime,
) -> (reply: Reply<Inventory>)
    ensures
        final(store)@.wf(),
        ({
            let before = old(store)@;
            let ready = before.ensured(product_id, now);
            let quantity = body.quantity;
            if quantity <= 0 {
                &&& reply.reports(
                    Operation::Increase,
                    LedgerError::Validation(QuantityRule::Positive),
                )
                &&& final(store)@ == before
            } else if !before.can_ensure(product_id) {
                &&& reply.reports(Operation::Prepare, LedgerError::StoreError)
                &&& final(store)@ == before
            } else if !ready.can_increase(product_id, quantity) {
                &&& reply.reports(Operation::Increase, LedgerError::StoreError)
                &&& final(store)@ == ready
            } else {
                &&& reply.carries(
                    ready.revised(product_id, ready.record(product_id).quantity + quantity, now),
                    Some(increased_message(quantity as int)),
                )
                &&& final(store)@ == ready.increased(product_id, quantity, now)
                &&& final(store)@.lookup(product_id) == reply.body.data
            }
        }),
{
    proof {
        use_type_invariant(&*store);
    }
    let quantity: i32 = body.quantity;
    if let Err(e) = check_amount(quantity) {
        return failure(Operation::Increase, e);
    }
    if let Err(e) = ledger::ensure_inventory_exists(store, product_id, now) {
        return failure(Operation::Prepare, e);
    }
    change_reply(
        Operation::Increase,
        quantity,
        ledger::increase_stock(store, product_id, quantity, now),
    )
}

/// Takes the requested amount from the stock of a product. The request
/// is turned away, and nothing is changed, where the amount is not
/// strictly positive, where the product has no record, and where it
/// asks for more than is in stock.
pub fn decrease_stock(
    store: &mut Ledger,
    product_id: i32,
    body: &QuantityRequest,
    now: NaiveDateTime,
) -> (reply: Reply<Inventory>)
    ensures
        final(store)@.wf(),
        ({
            let before = old(store)@;
            let quantity = body.quantity;
            let available = before.record(product_id).quantity;
            if quantity <= 0 {
                &&& reply.reports(
                    Operation::Decrease,
                    LedgerError::Validation(QuantityRule::Positive),
                )
                &&& final(store)@ == before
            } else if !before.has_record(product_id) {
                &&& reply.reports(Operation::Decrease, LedgerError::NotFound)
                &&& final(store)@ == before
            } else if available < quantity {
                &&& reply.reports(
                    Operation::Decrease,
                    LedgerError::InsufficientStock { available, requested: quantity },
                )
                &&& final(store)@ == before
            } else if !before.can_decrease(product_id, quantity) {
                &&& reply.reports(Operation::Decrease, LedgerError::StoreError)
                &&& final(store)@ == before
            } else {
                &&& reply.carries(
                    before.revised(product_id, available - quantity, now),
                    Some(decreased_message(quantity as int)),
                )
                &&& final(store)@ == before.decreased(product_id, quantity, now)
                &&& final(store)@.lookup(product_id) == reply.body.data
            }
        }),
{
    proof {
        use_type_invariant(&*store);
    }
    let quantity: i32 = body.quantity;
    if let Err(e) = check_amount(quantity) {
        return failure(Operation::Decrease, e);
    }
    match ledger::check_stock(store, product_id) {
        Ok(available) => {
            if let Err(e) = check_sufficient(available, quantity) {
                return failure(Operation::Decrease, e);
            }
        },
        Err(e) => {
            return failure(Operation::Decrease, e);
        },
    }
    change_reply(
        Operation::Decrease,
        quantity,
        ledger::decrease_stock(store, product_id, quantity, now),
    )
}

/// Sets the stock of a product to the requested quantity, creating its
/// record first where it has none. A request for a negative quantity is
/// turned away before the store is touched.
pub fn set_stock(
    store: &mut Ledger,
    product_id: i32,
    body: &SetStockRequest,
    now: NaiveDateTime,
) -> (reply: Reply<Inventory>)
    ensures
        final(store)@.wf(),
        ({
            let before = old(store)@;
            let ready = before.ensured(product_id, now);
            let quantity = body.quantity;
            if quantity < 0 {
                &&& reply.reports(
                    Operation::SetAbsolute,
                    LedgerError::Validation(QuantityRule::NonNegative),
                )
                &&& final(store)@ == before
            } else if !before.can_ensure(product_id) {
                &&& reply.reports(Operation::Prepare, LedgerError::StoreError)
                &&& final(store)@ == before
            } else if !ready.can_set(product_id, quantity) {
                &&& reply.reports(Operation::SetAbsolute, LedgerError::StoreError)
                &&& final(store)@ == ready
            } else {
                &&& reply.carries(
                    ready.revised(product_id, quantity as int, now),
                    Some(set_message(quantity as int)),
                )
                &&& final(store)@ == ready.set_to(product_id, quantity, text_of(body.reason), now)
                &&& final(store)@.lookup(product_id) == reply.body.data
            }
        }),
{
    proof {
        use_type_invariant(&*store);
    }
    let quantity: i32 = body.quantity;
    let reason = match &body.reason {
        Some(text) => Some(text.clone()),
        None => None,
    };
    if let Err(e) = check_level(quantity) {
        return failure(Operation::SetAbsolute, e);
    }
    if let Err(e) = ledger::ensure_inventory_exists(store, product_id, now) {
        return failure(Operation::Prepare, e);
    }
    change_reply(
        Operation::SetAbsolute,
        quantity,
        ledger::set_stock(store, product_id, quantity, reason, now),
    )
}

} // verus!
