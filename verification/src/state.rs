//! The mathematical state of the store and the effect of each operation
//! on it.

use crate::error::LedgerError;
use crate::models::{Inventory, InventoryMovementView, InventoryWithProductView, MovementType, ProductView};
use crate::text::set_message;
use chrono::NaiveDateTime;
use vstd::prelude::*;

verus! {

/// Alert threshold given to a record when it is created.
pub const DEFAULT_MIN_STOCK_ALERT: i32 = 10;

/// Whether `n` can be stored in a quantity column.
pub open spec fn storable(n: int) -> bool {
    i32::MIN <= n <= i32::MAX
}

/// Everything the store holds: the stock records in the order of their
/// ids, the movement history in the order it was written, and the
/// product catalog.
#[verifier::ext_equal]
pub struct LedgerState {
    pub records: Seq<Inventory>,
    pub movements: Seq<InventoryMovementView>,
    pub products: Seq<ProductView>,
}

impl LedgerState {
    /// The store before anything was written to it.
    pub open spec fn empty() -> LedgerState {
        LedgerState { records: Seq::empty(), movements: Seq::empty(), products: Seq::empty() }
    }

    /// Ids are handed out in sequence starting at one, no product has two
    /// stock records, and no catalog id occurs twice.
    pub open spec fn wf(self) -> bool {
        &&& self.records.len() <= i32::MAX
        &&& self.movements.len() <= i32::MAX
        &&& forall|i: int| 0 <= i < self.records.len() ==> (#[trigger] self.records[i]).id == i + 1
        &&& forall|i: int, j: int|
            0 <= i < j < self.records.len() ==> (#[trigger] self.records[i]).product_id != (
            #[trigger] self.records[j]).product_id
        &&& forall|i: int|
            0 <= i < self.movements.len() ==> (#[trigger] self.movements[i]).id == i + 1
        &&& forall|i: int, j: int|
            0 <= i < j < self.products.len() ==> (#[trigger] self.products[i]).id != (
            #[trigger] self.products[j]).id
    }

    /// The record at position `i` belongs to `product_id`.
    pub open spec fn holds_at(self, product_id: i32, i: int) -> bool {
        0 <= i < self.records.len() && self.records[i].product_id == product_id
    }

    /// The product has a stock record.
    pub open spec fn has_record(self, product_id: i32) -> bool {
        exists|i: int| self.holds_at(product_id, i)
    }

    /// Position of the product's record, where it has one.
    pub open spec fn slot(self, product_id: i32) -> int {
        choose|i: int| self.holds_at(product_id, i)
    }

    /// The product's record, where it has one.
    pub open spec fn record(self, product_id: i32) -> Inventory {
        self.records[self.slot(product_id)]
    }

    /// The product's record, or nothing.
    pub open spec fn lookup(self, product_id: i32) -> Option<Inventory> {
        if self.has_record(product_id) {
            Some(self.record(product_id))
        } else {
            None
        }
    }

    /// The catalog entry at position `i` describes `product_id`.
    pub open spec fn listed_at(self, product_id: i32, i: int) -> bool {
        0 <= i < self.products.len() && self.products[i].id == product_id
    }

    /// The catalog knows the product.
    pub open spec fn has_product(self, product_id: i32) -> bool {
        exists|i: int| self.listed_at(product_id, i)
    }

    /// The catalog entry of the product, where it has one.
    pub open spec fn product(self, product_id: i32) -> ProductView {
        self.products[choose|i: int| self.listed_at(product_id, i)]
    }

    /// A record with the display fields of its product beside it; both
    /// are absent when the catalog does not know the product.
    pub open spec fn joined(self, r: Inventory) -> InventoryWithProductView {
        InventoryWithProductView {
            id: r.id,
            product_id: r.product_id,
            quantity: r.quantity,
            min_stock_alert: r.min_stock_alert,
            product_name: if self.has_product(r.product_id) {
                Some(self.product(r.product_id).name)
            } else {
                None
            },
            product_sku: if self.has_product(r.product_id) {
                Some(self.product(r.product_id).slug)
            } else {
                None
            },
            created_at: r.created_at,
            updated_at: r.updated_at,
        }
    }

    /// Every record joined with its product, in the order of the ids.
    pub open spec fn listing(self) -> Seq<InventoryWithProductView> {
        Seq::new(self.records.len(), |i: int| self.joined(self.records[i]))
    }

    /// The joined record of one product, or nothing.
    pub open spec fn joined_lookup(self, product_id: i32) -> Option<InventoryWithProductView> {
        if self.has_record(product_id) {
            Some(self.joined(self.record(product_id)))
        } else {
            None
        }
    }

    /// The catalog can take a product with this id.
    pub open spec fn can_list(self, product_id: i32) -> bool {
        !self.has_product(product_id)
    }

    /// The store after the catalog has taken one more product.
    pub open spec fn with_product(self, p: ProductView) -> LedgerState {
        LedgerState { products: self.products.push(p), ..self }
    }

    /// A record for the product exists already or can still be given an
    /// id.
    pub open spec fn can_ensure(self, product_id: i32) -> bool {
        self.has_record(product_id) || self.records.len() < i32::MAX
    }

    /// The record a product starts with.
    pub open spec fn fresh_record(self, product_id: i32, now: NaiveDateTime) -> Inventory {
        Inventory {
            id: (self.records.len() + 1) as i32,
            product_id,
            quantity: 0,
            min_stock_alert: Some(DEFAULT_MIN_STOCK_ALERT),
            created_at: Some(now),
            updated_at: Some(now),
        }
    }

    /// The store after a record for the product was asked for: unchanged
    /// if it has one, with a fresh record at the end if not.
    pub open spec fn ensured(self, product_id: i32, now: NaiveDateTime) -> LedgerState {
        if self.has_record(product_id) {
            self
        } else {
            LedgerState { records: self.records.push(self.fresh_record(product_id, now)), ..self }
        }
    }

    /// The product has a record, `quantity` and `change` can be stored,
    /// and the history can take one more movement.
    pub open spec fn can_apply(self, product_id: i32, quantity: int, change: int) -> bool {
        &&& self.has_record(product_id)
        &&& storable(quantity)
        &&& storable(change)
        &&& self.movements.len() < i32::MAX
    }

    /// Why a change to the product's record does not take place: the
    /// record is missing, or else the store cannot hold the result.
    pub open spec fn refusal(self, product_id: i32) -> LedgerError {
        if self.has_record(product_id) {
            LedgerError::StoreError
        } else {
            LedgerError::NotFound
        }
    }

    /// The product's record with `quantity` in place of what it held and
    /// `now` as the time of its last change.
    pub open spec fn revised(self, product_id: i32, quantity: int, now: NaiveDateTime) -> Inventory {
        Inventory { quantity: quantity as i32, updated_at: Some(now), ..self.record(product_id) }
    }

    /// The movement that records `change`, the next in the history.
    pub open spec fn next_movement(
        self,
        product_id: i32,
        change: int,
        kind: MovementType,
        reason: Seq<char>,
        now: NaiveDateTime,
    ) -> InventoryMovementView {
        InventoryMovementView {
            id: (self.movements.len() + 1) as i32,
            product_id,
            quantity_change: change as i32,
            movement_type: kind,
            reason: Some(reason),
            created_at: Some(now),
        }
    }

    /// The store after the product's record was given `quantity` and the
    /// time of the change, and one movement was written for it.
    pub open spec fn applied(
        self,
        product_id: i32,
        quantity: int,
        change: int,
        kind: MovementType,
        reason: Seq<char>,
        now: NaiveDateTime,
    ) -> LedgerState {
        LedgerState {
            records: self.records.update(
                self.slot(product_id),
                self.revised(product_id, quantity, now),
            ),
            movements: self.movements.push(
                self.next_movement(product_id, change, kind, reason, now),
            ),
            products: self.products,
        }
    }

    /// An increase by `amount` can take place.
    pub open spec fn can_increase(self, product_id: i32, amount: i32) -> bool {
        self.can_apply(product_id, self.record(product_id).quantity + amount, amount as int)
    }

    /// The store after an increase by `amount`.
    pub open spec fn increased(self, product_id: i32, amount: i32, now: NaiveDateTime) -> LedgerState {
        self.applied(
            product_id,
            self.record(product_id).quantity + amount,
            amount as int,
            MovementType::Increase,
            "Stock increased"@,
            now,
        )
    }

    /// A decrease by `amount` can take place.
    pub open spec fn can_decrease(self, product_id: i32, amount: i32) -> bool {
        self.can_apply(product_id, self.record(product_id).quantity - amount, -amount)
    }

    /// The store after a decrease by `amount`.
    pub open spec fn decreased(self, product_id: i32, amount: i32, now: NaiveDateTime) -> LedgerState {
        self.applied(
            product_id,
            self.record(product_id).quantity - amount,
            -amount,
            MovementType::Decrease,
            "Stock decreased"@,
            now,
        )
    }

    /// The quantity of the product can be set to `quantity`.
    pub open spec fn can_set(self, product_id: i32, quantity: i32) -> bool {
        self.can_apply(product_id, quantity as int, quantity - self.record(product_id).quantity)
    }

    /// The reason written for a set: the one given, or else "Stock set to"
    /// with the quantity.
    pub open spec fn set_reason(quantity: i32, reason: Option<Seq<char>>) -> Seq<char> {
        match reason {
            Some(r) => r,
            None => set_message(quantity as int),
        }
    }

    /// The store after the quantity of the product was set to `quantity`.
    pub open spec fn set_to(
        self,
        product_id: i32,
        quantity: i32,
        reason: Option<Seq<char>>,
        now: NaiveDateTime,
    ) -> LedgerState {
        self.applied(
            product_id,
            quantity as int,
            quantity - self.record(product_id).quantity,
            MovementType::SetAbsolute,
            Self::set_reason(quantity, reason),
            now,
        )
    }
}

impl LedgerState {
    /// In a well-formed store the record of a product is where any of its
    /// records is found.
    pub proof fn lemma_slot(self, product_id: i32, i: int)
        requires
            self.wf(),
            self.holds_at(product_id, i),
        ensures
            self.has_record(product_id),
            self.slot(product_id) == i,
            self.record(product_id) == self.records[i],
    {
        let k = self.slot(product_id);
        assert(self.holds_at(product_id, k));
        if k < i {
            assert(self.records[k].product_id != self.records[i].product_id);
        } else if i < k {
            assert(self.records[i].product_id != self.records[k].product_id);
        }
    }

    /// In a well-formed catalog the entry of a product is where any of
    /// its entries is found.
    pub proof fn lemma_listed(self, product_id: i32, i: int)
        requires
            self.wf(),
            self.listed_at(product_id, i),
        ensures
            self.has_product(product_id),
            self.product(product_id) == self.products[i],
    {
        let k = choose|k: int| self.listed_at(product_id, k);
        assert(self.listed_at(product_id, k));
        if k < i {
            assert(self.products[k].id != self.products[i].id);
        } else if i < k {
            assert(self.products[i].id != self.products[k].id);
        }
    }

    /// A change to one record keeps the store well formed, leaves every
    /// other record as it was, and is what the product's record then
    /// shows.
    pub proof fn lemma_applied(
        self,
        product_id: i32,
        quantity: int,
        change: int,
        kind: MovementType,
        reason: Seq<char>,
        now: NaiveDateTime,
    )
        requires
            self.wf(),
            self.can_apply(product_id, quantity, change),
        ensures
            self.applied(product_id, quantity, change, kind, reason, now).wf(),
            self.applied(product_id, quantity, change, kind, reason, now).lookup(product_id)
                == Some(self.revised(product_id, quantity, now)),
            forall|other: i32|
                other != product_id ==> #[trigger] self.applied(
                    product_id,
                    quantity,
                    change,
                    kind,
                    reason,
                    now,
                ).lookup(other) == self.lookup(other),
    {
        let after = self.applied(product_id, quantity, change, kind, reason, now);
        let at = self.slot(product_id);
        assert(self.holds_at(product_id, at));
        assert forall|i: int, j: int| 0 <= i < j < after.records.len() implies (
        #[trigger] after.records[i]).product_id != (#[trigger] after.records[j]).product_id by {
            assert(after.records[i].product_id == self.records[i].product_id);
            assert(after.records[j].product_id == self.records[j].product_id);
        }
        assert forall|i: int| 0 <= i < after.records.len() implies (
        #[trigger] after.records[i]).id == i + 1 by {
            assert(after.records[i].id == self.records[i].id);
        }
        assert(after.wf());
        assert(after.holds_at(product_id, at));
        after.lemma_slot(product_id, at);
        assert forall|other: i32| other != product_id implies #[trigger] after.lookup(other)
            == self.lookup(other) by {
            if self.has_record(other) {
                let k = self.slot(other);
                assert(self.holds_at(other, k));
                assert(after.holds_at(other, k));
                after.lemma_slot(other, k);
            } else if after.has_record(other) {
                let k = after.slot(other);
                assert(after.holds_at(other, k));
                assert(self.holds_at(other, k));
            }
        }
    }

    /// Asking for a record keeps the store well formed, gives the product
    /// a record, and leaves every record that was there as it was.
    pub proof fn lemma_ensured(self, product_id: i32, now: NaiveDateTime)
        requires
            self.wf(),
            self.can_ensure(product_id),
        ensures
            self.ensured(product_id, now).wf(),
            self.ensured(product_id, now).has_record(product_id),
            self.ensured(product_id, now).record(product_id) == if self.has_record(product_id) {
                self.record(product_id)
            } else {
                self.fresh_record(product_id, now)
            },
            forall|other: i32|
                other != product_id ==> #[trigger] self.ensured(product_id, now).lookup(other)
                    == self.lookup(other),
    {
        let after = self.ensured(product_id, now);
        if !self.has_record(product_id) {
            let n = self.records.len() as int;
            assert forall|i: int, j: int| 0 <= i < j < after.records.len() implies (
            #[trigger] after.records[i]).product_id != (#[trigger] after.records[j]).product_id by {
                if j == n {
                    assert(!self.holds_at(product_id, i));
                }
            }
            assert(after.wf());
            assert(after.holds_at(product_id, n));
            after.lemma_slot(product_id, n);
            assert forall|other: i32| other != product_id implies #[trigger] after.lookup(other)
                == self.lookup(other) by {
                if self.has_record(other) {
                    let k = self.slot(other);
                    assert(self.holds_at(other, k));
                    assert(after.holds_at(other, k));
                    after.lemma_slot(other, k);
                } else if after.has_record(other) {
                    let k = after.slot(other);
                    assert(after.holds_at(other, k));
                    assert(self.holds_at(other, k));
                }
            }
        }
    }
}

} // verus!
