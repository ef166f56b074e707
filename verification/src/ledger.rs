//! The stock ledger: an in-memory store of stock records, the movement
//! history and the product catalog, with the operations that read and
//! change them. Every change is applied as a whole or not at all.

use crate::error::LedgerError;
use crate::models::{
    text_of, Inventory, InventoryMovement, InventoryMovementView, InventoryRow,
    InventoryWithProduct, InventoryWithProductView, Product, ProductView,
};
use crate::movement::{decrease_movement, increase_movement, set_movement, MovementDraft};
use crate::state::{LedgerState, DEFAULT_MIN_STOCK_ALERT};
use chrono::NaiveDateTime;
use vstd::prelude::*;
use vstd::string::StringExecFns;

verus! {

/// The mathematical values of a run of movements.
pub open spec fn movement_views(s: Seq<InventoryMovement>) -> Seq<InventoryMovementView> {
    s.map_values(|m: InventoryMovement| m@)
}

/// The mathematical values of a run of catalog entries.
pub open spec fn product_views(s: Seq<Product>) -> Seq<ProductView> {
    s.map_values(|p: Product| p@)
}

/// The mathematical values of a run of joined records.
pub open spec fn joined_views(s: Seq<InventoryWithProduct>) -> Seq<InventoryWithProductView> {
    s.map_values(|r: InventoryWithProduct| r@)
}

/// The store. Its state is `self@`, which is well formed at all times.
pub struct Ledger {
    records: Vec<Inventory>,
    movements: Vec<InventoryMovement>,
    products: Vec<Product>,
}

impl View for Ledger {
    type V = LedgerState;

    closed spec fn view(&self) -> LedgerState {
        LedgerState {
            records: self.records@,
            movements: movement_views(self.movements@),
            products: product_views(self.products@),
        }
    }
}

fn find_record(records: &Vec<Inventory>, product_id: i32) -> (r: Option<usize>)
    ensures
        match r {
            Some(i) => i < records.len() && records[i as int].product_id == product_id,
            None => forall|j: int|
                0 <= j < records.len() ==> (#[trigger] records[j]).product_id != product_id,
        },
{
    let mut i: usize = 0;
    while i < records.len()
        invariant
            i <= records.len(),
            forall|j: int| 0 <= j < i ==> (#[trigger] records[j]).product_id != product_id,
        decreases records.len() - i,
    {
        if records[i].product_id == product_id {
            return Some(i);
        }
        i = i + 1;
    }
    None
}

fn find_product(products: &Vec<Product>, product_id: i32) -> (r: Option<usize>)
    ensures
        match r {
            Some(i) => i < products.len() && products[i as int].id == product_id,
            None => forall|j: int|
                0 <= j < products.len() ==> (#[trigger] products[j]).id != product_id,
        },
{
    let mut i: usize = 0;
    while i < products.len()
        invariant
            i <= products.len(),
            forall|j: int| 0 <= j < i ==> (#[trigger] products[j]).id != product_id,
        decreases products.len() - i,
    {
        if products[i].id == product_id {
            return Some(i);
        }
        i = i + 1;
    }
    None
}

fn copy_movement(m: &InventoryMovement) -> (c: InventoryMovement)
    ensures
        c@ == m@,
{
    let reason = match &m.reason {
        Some(text) => Some(text.clone()),
        None => None,
    };
    InventoryMovement {
        id: m.id,
        product_id: m.product_id,
        quantity_change: m.quantity_change,
        movement_type: m.movement_type,
        reason,
        created_at: m.created_at,
    }
}

impl Ledger {
    /// Holds of every store at all times: its state is well formed.
    #[verifier::type_invariant]
    pub open spec fn well_formed(self) -> bool {
        self@.wf()
    }

    /// A store that holds nothing.
    pub fn new() -> (store: Ledger)
        ensures
            store@ == LedgerState::empty(),
            store@.wf(),
    {
        let store = Ledger { records: Vec::new(), movements: Vec::new(), products: Vec::new() };
        assert(store@ =~= LedgerState::empty());
        store
    }

    /// Enters a product into the catalog, unless the catalog already has
    /// one with this id. Tells whether it did.
    pub fn register_product(&mut self, id: i32, name: &str, slug: &str) -> (added: bool)
        ensures
            final(self)@.wf(),
            added == old(self)@.can_list(id),
            added ==> final(self)@ == old(self)@.with_product(
                ProductView { id, name: name@, slug: slug@ },
            ),
            !added ==> final(self)@ == old(self)@,
    {
        proof {
            use_type_invariant(&*self);
        }
        match find_product(&self.products, id) {
            Some(at) => {
                proof {
                    assert(self@.listed_at(id, at as int));
                }
                false
            },
            None => {
                proof {
                    assert forall|j: int| !self@.listed_at(id, j) by {
                        if 0 <= j < self.products@.len() {
                            assert(self@.products[j].id == self.products@[j].id);
                        }
                    }
                }
                let mut held = Ledger::new();
                std::mem::swap(self, &mut held);
                let Ledger { records, movements, mut products } = held;
                products.push(Product { id, name: String::from_str(name), slug: String::from_str(slug) });
                proof {
                    let entry = ProductView { id, name: name@, slug: slug@ };
                    assert(product_views(products@) =~= old(self)@.products.push(entry));
                    let after = old(self)@.with_product(entry);
                    assert forall|i: int, j: int| 0 <= i < j < after.products.len() implies (
                    #[trigger] after.products[i]).id != (#[trigger] after.products[j]).id by {
                        if j == old(self)@.products.len() {
                            assert(!old(self)@.listed_at(id, i));
                        }
                    }
                }
                *self = Ledger { records, movements, products };
                assert(self@ =~= old(self)@.with_product(
                    ProductView { id, name: name@, slug: slug@ },
                ));
                true
            },
        }
    }

    /// The record `r` with the display fields of its product beside it.
    fn join(&self, r: Inventory) -> (joined: InventoryWithProduct)
        ensures
            joined@ == self@.joined(r),
    {
        proof {
            use_type_invariant(self);
        }
        let mut product_name: Option<String> = None;
        let mut product_sku: Option<String> = None;
        match find_product(&self.products, r.product_id) {
            Some(at) => {
                proof {
                    assert(self@.listed_at(r.product_id, at as int));
                    self@.lemma_listed(r.product_id, at as int);
                }
                product_name = Some(self.products[at].name.clone());
                product_sku = Some(self.products[at].slug.clone());
            },
            None => {
                proof {
                    assert forall|j: int| !self@.listed_at(r.product_id, j) by {
                        if 0 <= j < self.products@.len() {
                            assert(self@.products[j].id == self.products@[j].id);
                        }
                    }
                }
            },
        }
        InventoryWithProduct::from(
            InventoryRow {
                id: r.id,
                product_id: r.product_id,
                quantity: r.quantity,
                min_stock_alert: r.min_stock_alert,
                product_name,
                product_sku,
                created_at: r.created_at,
                updated_at: r.updated_at,
            },
        )
    }

    /// The movement history, oldest first.
    pub fn movements(&self) -> (history: Vec<InventoryMovement>)
        ensures
            self@.wf(),
            movement_views(history@) == self@.movements,
    {
        proof {
            use_type_invariant(self);
        }
        let mut history: Vec<InventoryMovement> = Vec::new();
        let mut i: usize = 0;
        while i < self.movements.len()
            invariant
                i <= self.movements.len(),
                history@.len() == i,
                forall|k: int| 0 <= k < i ==> (#[trigger] history@[k])@ == self.movements@[k]@,
            decreases self.movements.len() - i,
        {
            history.push(copy_movement(&self.movements[i]));
            i = i + 1;
        }
        assert(movement_views(history@) =~= self@.movements);
        history
    }

    /// Gives the record at `at` the new quantity and the time of the
    /// change, and writes the movement drafted for it.
    fn write(
        &mut self,
        product_id: i32,
        at: usize,
        quantity: i64,
        draft: MovementDraft,
        now: NaiveDateTime,
    ) -> (r: Result<Inventory, LedgerError>)
        requires
            old(self)@.holds_at(product_id, at as int),
        ensures
            final(self)@.wf(),
            match r {
                Ok(row) => {
                    &&& old(self)@.can_apply(
                        product_id,
                        quantity as int,
                        draft.quantity_change as int,
                    )
                    &&& final(self)@ == old(self)@.applied(
                        product_id,
                        quantity as int,
                        draft.quantity_change as int,
                        draft.movement_type,
                        draft.reason@,
                        now,
                    )
                    &&& row == old(self)@.revised(product_id, quantity as int, now)
                    &&& final(self)@.lookup(product_id) == Some(row)
                },
                Err(e) => {
                    &&& !old(self)@.can_apply(
                        product_id,
                        quantity as int,
                        draft.quantity_change as int,
                    )
                    &&& final(self)@ == old(self)@
                    &&& e == LedgerError::StoreError
                },
            },
    {
        proof {
            use_type_invariant(&*self);
            self@.lemma_slot(product_id, at as int);
        }
        if quantity < -2147483648 || quantity > 2147483647 || self.movements.len() >= 2147483647 {
            return Err(LedgerError::StoreError);
        }
        let mut held = Ledger::new();
        std::mem::swap(self, &mut held);
        let Ledger { mut records, mut movements, products } = held;
        let row = Inventory { quantity: quantity as i32, updated_at: Some(now), ..records[at] };
        records.set(at, row);
        let id: i32 = (movements.len() + 1) as i32;
        let ghost change = draft.quantity_change as int;
        let ghost kind = draft.movement_type;
        let ghost reason = draft.reason@;
        movements.push(
            InventoryMovement {
                id,
                product_id,
                quantity_change: draft.quantity_change,
                movement_type: draft.movement_type,
                reason: Some(draft.reason),
                created_at: Some(now),
            },
        );
        proof {
            let before = old(self)@;
            let after = before.applied(product_id, quantity as int, change, kind, reason, now);
            before.lemma_applied(product_id, quantity as int, change, kind, reason, now);
            assert(records@ =~= after.records);
            assert(movement_views(movements@) =~= after.movements);
        }
        *self = Ledger { records, movements, products };
        assert(self@ =~= old(self)@.applied(product_id, quantity as int, change, kind, reason, now));
        Ok(row)
    }
}

/// Every stock record with the display fields of its product, in the
/// order of the record ids.
pub fn get_all_inventory(store: &Ledger) -> (r: Result<Vec<InventoryWithProduct>, LedgerError>)
    ensures
        store@.wf(),
        r matches Ok(rows) && joined_views(rows@) == store@.listing(),
{
    proof {
        use_type_invariant(store);
    }
    let mut rows: Vec<InventoryWithProduct> = Vec::new();
    let mut i: usize = 0;
    while i < store.records.len()
        invariant
            i <= store.records.len(),
            rows@.len() == i,
            forall|k: int| 0 <= k < i ==> (#[trigger] rows@[k])@ == store@.joined(store.records@[k]),
        decreases store.records.len() - i,
    {
        rows.push(store.join(store.records[i]));
        i = i + 1;
    }
    assert(joined_views(rows@) =~= store@.listing());
    Ok(rows)
}

/// The stock record of one product with the display fields of the
/// product, or nothing where the product has no record. Creates none.
pub fn get_inventory_by_product(store: &Ledger, product_id: i32) -> (r: Result<
    Option<InventoryWithProduct>,
    LedgerError,
>)
    ensures
        store@.wf(),
        r matches Ok(found) && match found {
            Some(joined) => store@.joined_lookup(product_id) == Some(joined@),
            None => store@.joined_lookup(product_id) is None,
        },
{
    proof {
        use_type_invariant(store);
    }
    match find_record(&store.records, product_id) {
        Some(at) => {
            proof {
                store@.lemma_slot(product_id, at as int);
            }
            Ok(Some(store.join(store.records[at])))
        },
        None => {
            proof {
                assert forall|j: int| !store@.holds_at(product_id, j) by {}
            }
            Ok(None)
        },
    }
}

/// Makes sure the product has a stock record: where it has none, one is
/// created with quantity zero and the default alert threshold. No
/// movement is written. Fails only when the store has no id left to give.
pub fn ensure_inventory_exists(store: &mut Ledger, product_id: i32, now: NaiveDateTime) -> (r:
    Result<(), LedgerError>)
    ensures
        final(store)@.wf(),
        match r {
            Ok(_) => {
                &&& old(store)@.can_ensure(product_id)
                &&& final(store)@ == old(store)@.ensured(product_id, now)
                &&& final(store)@.lookup(product_id) == Some(
                    if old(store)@.has_record(product_id) {
                        old(store)@.record(product_id)
                    } else {
                        old(store)@.fresh_record(product_id, now)
                    },
                )
            },
            Err(e) => {
                &&& !old(store)@.can_ensure(product_id)
                &&& final(store)@ == old(store)@
                &&& e == LedgerError::StoreError
            },
        },
{
    proof {
        use_type_invariant(&*store);
    }
    match find_record(&store.records, product_id) {
        Some(at) => {
            proof {
                store@.lemma_slot(product_id, at as int);
            }
            assert(store@ =~= old(store)@.ensured(product_id, now));
            Ok(())
        },
        None => {
            proof {
                assert forall|j: int| !store@.holds_at(product_id, j) by {}
            }
            if store.records.len() >= 2147483647 {
                return Err(LedgerError::StoreError);
            }
            let mut held = Ledger::new();
            std::mem::swap(store, &mut held);
            let Ledger { mut records, movements, products } = held;
            let id: i32 = (records.len() + 1) as i32;
            records.push(
                Inventory {
                    id,
                    product_id,
                    quantity: 0,
                    min_stock_alert: Some(DEFAULT_MIN_STOCK_ALERT),
                    created_at: Some(now),
                    updated_at: Some(now),
                },
            );
            proof {
                old(store)@.lemma_ensured(product_id, now);
                assert(records@ =~= old(store)@.ensured(product_id, now).records);
            }
            *store = Ledger { records, movements, products };
            assert(store@ =~= old(store)@.ensured(product_id, now));
            Ok(())
        },
    }
}

/// The quantity the product has in stock.
pub fn check_stock(store: &Ledger, product_id: i32) -> (r: Result<i32, LedgerError>)
    ensures
        store@.wf(),
        match r {
            Ok(quantity) => store@.has_record(product_id) && quantity == store@.record(
                product_id,
            ).quantity,
            Err(e) => !store@.has_record(product_id) && e == LedgerError::NotFound,
        },
{
    proof {
        use_type_invariant(store);
    }
    match find_record(&store.records, product_id) {
        Some(at) => {
            proof {
                store@.lemma_slot(product_id, at as int);
            }
            Ok(store.records[at].quantity)
        },
        None => {
            proof {
                assert forall|j: int| !store@.holds_at(product_id, j) by {}
            }
            Err(LedgerError::NotFound)
        },
    }
}

/// Adds `quantity` to the product's stock and writes an `increase`
/// movement of `+quantity`, both or neither.
pub fn increase_stock(store: &mut Ledger, product_id: i32, quantity: i32, now: NaiveDateTime) -> (r:
    Result<Inventory, LedgerError>)
    ensures
        final(store)@.wf(),
        match r {
            Ok(row) => {
                &&& old(store)@.can_increase(product_id, quantity)
                &&& final(store)@ == old(store)@.increased(product_id, quantity, now)
                &&& row == old(store)@.revised(product_id, old(store)@.record(product_id).quantity + quantity, now)
                &&& final(store)@.lookup(product_id) == Some(row)
            },
            Err(e) => {
                &&& !old(store)@.can_increase(product_id, quantity)
                &&& final(store)@ == old(store)@
                &&& e == old(store)@.refusal(product_id)
            },
        },
{
    proof {
        use_type_invariant(&*store);
    }
    match find_record(&store.records, product_id) {
        Some(at) => {
            proof {
                store@.lemma_slot(product_id, at as int);
            }
            let current: i32 = store.records[at].quantity;
            store.write(
                product_id,
                at,
                current as i64 + quantity as i64,
                increase_movement(quantity),
                now,
            )
        },
        None => {
            proof {
                assert forall|j: int| !store@.holds_at(product_id, j) by {}
            }
            Err(LedgerError::NotFound)
        },
    }
}

/// Takes `quantity` from the product's stock and writes a `decrease`
/// movement of `-quantity`, both or neither. Whether the stock suffices
/// is not looked at here: the result may be negative.
pub fn decrease_stock(store: &mut Ledger, product_id: i32, quantity: i32, now: NaiveDateTime) -> (r:
    Result<Inventory, LedgerError>)
    ensures
        final(store)@.wf(),
        match r {
            Ok(row) => {
                &&& old(store)@.can_decrease(product_id, quantity)
                &&& final(store)@ == old(store)@.decreased(product_id, quantity, now)
                &&& row == old(store)@.revised(product_id, old(store)@.record(product_id).quantity - quantity, now)
                &&& final(store)@.lookup(product_id) == Some(row)
            },
            Err(e) => {
                &&& !old(store)@.can_decrease(product_id, quantity)
                &&& final(store)@ == old(store)@
                &&& e == old(store)@.refusal(product_id)
            },
        },
{
    proof {
        use_type_invariant(&*store);
    }
    match find_record(&store.records, product_id) {
        Some(at) => {
            proof {
                store@.lemma_slot(product_id, at as int);
            }
            let current: i32 = store.records[at].quantity;
            match decrease_movement(quantity) {
                Ok(draft) => store.write(
                    product_id,
                    at,
                    current as i64 - quantity as i64,
                    draft,
                    now,
                ),
                Err(e) => Err(e),
            }
        },
        None => {
            proof {
                assert forall|j: int| !store@.holds_at(product_id, j) by {}
            }
            Err(LedgerError::NotFound)
        },
    }
}

/// Sets the product's stock to `quantity` and writes a `set` movement of
/// the difference to what it was, both or neither. The movement carries
/// `reason`, or "Stock set to" with the quantity where none is given.
pub fn set_stock(
    store: &mut Ledger,
    product_id: i32,
    quantity: i32,
    reason: Option<String>,
    now: NaiveDateTime,
) -> (r: Result<Inventory, LedgerError>)
    ensures
        final(store)@.wf(),
        match r {
            Ok(row) => {
                &&& old(store)@.can_set(product_id, quantity)
                &&& final(store)@ == old(store)@.set_to(product_id, quantity, text_of(reason), now)
                &&& row == old(store)@.revised(product_id, quantity as int, now)
                &&& final(store)@.lookup(product_id) == Some(row)
            },
            Err(e) => {
                &&& !old(store)@.can_set(product_id, quantity)
                &&& final(store)@ == old(store)@
                &&& e == old(store)@.refusal(product_id)
            },
        },
{
    proof {
        use_type_invariant(&*store);
    }
    match find_record(&store.records, product_id) {
        Some(at) => {
            proof {
                store@.lemma_slot(product_id, at as int);
            }
            let current: i32 = store.records[at].quantity;
            match set_movement(current, quantity, reason) {
                Ok(draft) => store.write(product_id, at, quantity as i64, draft, now),
                Err(e) => Err(e),
            }
        },
        None => {
            proof {
                assert forall|j: int| !store@.holds_at(product_id, j) by {}
            }
            Err(LedgerError::NotFound)
        },
    }
}

} // verus!
