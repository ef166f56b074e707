//! What holds of the operations on the store, whatever the store held
//! before: each statement is proved from the definitions in
//! [`crate::state`].

use crate::models::{Inventory, MovementType};
use crate::state::{storable, LedgerState};
use chrono::NaiveDateTime;
use vstd::prelude::*;

verus! {

/// A product without a record, once a record was asked for, has exactly
/// the fresh one, and a lookup shows quantity zero. Nothing else in the
/// store has changed.
pub proof fn law_ensure_then_lookup(s: LedgerState, product_id: i32, now: NaiveDateTime)
    requires
        s.wf(),
        !s.has_record(product_id),
        s.can_ensure(product_id),
    ensures
        s.ensured(product_id, now).wf(),
        s.ensured(product_id, now).lookup(product_id) == Some(s.fresh_record(product_id, now)),
        s.ensured(product_id, now).joined_lookup(product_id) matches Some(joined)
            && joined.quantity == 0 && joined.product_id == product_id,
        s.ensured(product_id, now).movements == s.movements,
        s.ensured(product_id, now).records.len() == s.records.len() + 1,
{
    s.lemma_ensured(product_id, now);
}

/// Asking twice for a record is the same as asking once: the second
/// request changes nothing, the product has one record and no other,
/// and no movement is written.
pub proof fn law_ensure_idempotent(
    s: LedgerState,
    product_id: i32,
    first: NaiveDateTime,
    second: NaiveDateTime,
)
    requires
        s.wf(),
        s.can_ensure(product_id),
    ensures
        s.ensured(product_id, first).can_ensure(product_id),
        s.ensured(product_id, first).ensured(product_id, second) == s.ensured(product_id, first),
        s.ensured(product_id, first).movements == s.movements,
        forall|i: int, j: int|
            s.ensured(product_id, first).holds_at(product_id, i) && s.ensured(
                product_id,
                first,
            ).holds_at(product_id, j) ==> i == j,
{
    s.lemma_ensured(product_id, first);
    let once = s.ensured(product_id, first);
    assert forall|i: int, j: int|
        once.holds_at(product_id, i) && once.holds_at(product_id, j) implies i == j by {
        once.lemma_slot(product_id, i);
        once.lemma_slot(product_id, j);
    }
}

/// An increase that takes place adds exactly `amount` to the quantity of
/// the product, touches no other field of the record but the time of the
/// last change, and appends one movement: `+amount`, of kind `increase`.
pub proof fn law_increase(s: LedgerState, product_id: i32, amount: i32, now: NaiveDateTime)
    requires
        s.wf(),
        amount > 0,
        s.can_increase(product_id, amount),
    ensures
        s.increased(product_id, amount, now).wf(),
        s.increased(product_id, amount, now).has_record(product_id),
        s.increased(product_id, amount, now).record(product_id).quantity == s.record(
            product_id,
        ).quantity + amount,
        s.increased(product_id, amount, now).record(product_id) == s.revised(
            product_id,
            s.record(product_id).quantity + amount,
            now,
        ),
        s.increased(product_id, amount, now).records.len() == s.records.len(),
        s.increased(product_id, amount, now).movements.len() == s.movements.len() + 1,
        s.increased(product_id, amount, now).movements.drop_last() == s.movements,
        s.increased(product_id, amount, now).movements.last().product_id == product_id,
        s.increased(product_id, amount, now).movements.last().quantity_change == amount,
        s.increased(product_id, amount, now).movements.last().movement_type
            == MovementType::Increase,
        MovementType::Increase.label_text() == "increase"@,
{
    let q = s.record(product_id).quantity + amount;
    s.lemma_applied(product_id, q, amount as int, MovementType::Increase, "Stock increased"@, now);
    assert(s.increased(product_id, amount, now).movements.drop_last() =~= s.movements);
}

/// A decrease of no more than is in stock, when it takes place, takes
/// exactly `amount` from the quantity of the product, leaves it at zero
/// or above, and appends one movement: `-amount`, of kind `decrease`.
pub proof fn law_decrease(s: LedgerState, product_id: i32, amount: i32, now: NaiveDateTime)
    requires
        s.wf(),
        amount > 0,
        s.has_record(product_id),
        s.record(product_id).quantity >= amount,
        s.can_decrease(product_id, amount),
    ensures
        s.decreased(product_id, amount, now).wf(),
        s.decreased(product_id, amount, now).has_record(product_id),
        s.decreased(product_id, amount, now).record(product_id).quantity == s.record(
            product_id,
        ).quantity - amount,
        s.decreased(product_id, amount, now).record(product_id).quantity >= 0,
        s.decreased(product_id, amount, now).records.len() == s.records.len(),
        s.decreased(product_id, amount, now).movements.len() == s.movements.len() + 1,
        s.decreased(product_id, amount, now).movements.drop_last() == s.movements,
        s.decreased(product_id, amount, now).movements.last().product_id == product_id,
        s.decreased(product_id, amount, now).movements.last().quantity_change == -amount,
        s.decreased(product_id, amount, now).movements.last().movement_type
            == MovementType::Decrease,
        MovementType::Decrease.label_text() == "decrease"@,
{
    let q = s.record(product_id).quantity - amount;
    s.lemma_applied(product_id, q, -amount, MovementType::Decrease, "Stock decreased"@, now);
    assert(s.decreased(product_id, amount, now).movements.drop_last() =~= s.movements);
}

/// With a strictly positive amount that is no more than is in stock, a
/// decrease is held up by nothing but a full movement history.
pub proof fn law_decrease_is_owed(s: LedgerState, product_id: i32, amount: i32)
    requires
        s.wf(),
        amount > 0,
        s.has_record(product_id),
        s.record(product_id).quantity >= amount,
    ensures
        s.can_decrease(product_id, amount) <==> s.movements.len() < i32::MAX,
{
}

/// A set that takes place leaves the product with exactly `quantity`,
/// whatever it had, and appends one movement of kind `set` whose change
/// is the new quantity less the old one, with the reason given or else
/// the default one.
pub proof fn law_set(
    s: LedgerState,
    product_id: i32,
    quantity: i32,
    reason: Option<Seq<char>>,
    now: NaiveDateTime,
)
    requires
        s.wf(),
        s.can_set(product_id, quantity),
    ensures
        s.set_to(product_id, quantity, reason, now).wf(),
        s.set_to(product_id, quantity, reason, now).has_record(product_id),
        s.set_to(product_id, quantity, reason, now).record(product_id).quantity == quantity,
        s.set_to(product_id, quantity, reason, now).records.len() == s.records.len(),
        s.set_to(product_id, quantity, reason, now).movements.len() == s.movements.len() + 1,
        s.set_to(product_id, quantity, reason, now).movements.drop_last() == s.movements,
        s.set_to(product_id, quantity, reason, now).movements.last().product_id == product_id,
        s.set_to(product_id, quantity, reason, now).movements.last().quantity_change == quantity
            - s.record(product_id).quantity,
        s.set_to(product_id, quantity, reason, now).movements.last().movement_type
            == MovementType::SetAbsolute,
        s.set_to(product_id, quantity, reason, now).movements.last().reason == Some(
            LedgerState::set_reason(quantity, reason),
        ),
        MovementType::SetAbsolute.label_text() == "set"@,
{
    let change = quantity - s.record(product_id).quantity;
    s.lemma_applied(
        product_id,
        quantity as int,
        change,
        MovementType::SetAbsolute,
        LedgerState::set_reason(quantity, reason),
        now,
    );
    assert(s.set_to(product_id, quantity, reason, now).movements.drop_last() =~= s.movements);
}

/// What a lookup shows is what the store holds: where the record of a
/// product is `row`, the joined lookup gives a record with the fields of
/// `row`. A change returns the record the store then holds, so a lookup
/// after it shows the quantity it returned.
pub proof fn law_lookup_reflects(s: LedgerState, product_id: i32, row: Inventory)
    requires
        s.wf(),
        s.lookup(product_id) == Some(row),
    ensures
        s.joined_lookup(product_id) matches Some(joined) && joined.quantity == row.quantity
            && joined.id == row.id && joined.product_id == row.product_id
            && joined.min_stock_alert == row.min_stock_alert && joined.created_at
            == row.created_at && joined.updated_at == row.updated_at,
{
}

/// After any change that takes place, a lookup of the product shows the
/// quantity that the change returned.
pub proof fn law_round_trip(
    s: LedgerState,
    product_id: i32,
    quantity: int,
    change: int,
    kind: MovementType,
    reason: Seq<char>,
    now: NaiveDateTime,
)
    requires
        s.wf(),
        s.can_apply(product_id, quantity, change),
    ensures
        s.applied(product_id, quantity, change, kind, reason, now).joined_lookup(product_id)
            matches Some(joined) && joined.quantity == s.revised(product_id, quantity, now).quantity
            && joined.quantity == quantity,
{
    s.lemma_applied(product_id, quantity, change, kind, reason, now);
}

/// The listing has one row for each stock record, in strictly ascending
/// order of the record ids, and each row shows the quantity of its
/// record.
pub proof fn law_listing_ordered(s: LedgerState)
    requires
        s.wf(),
    ensures
        s.listing().len() == s.records.len(),
        forall|i: int, j: int|
            0 <= i < j < s.listing().len() ==> (#[trigger] s.listing()[i]).id < (
            #[trigger] s.listing()[j]).id,
        forall|i: int|
            0 <= i < s.listing().len() ==> (#[trigger] s.listing()[i]).product_id
                == s.records[i].product_id && s.listing()[i].quantity == s.records[i].quantity,
{
    assert forall|i: int, j: int| 0 <= i < j < s.listing().len() implies (
    #[trigger] s.listing()[i]).id < (#[trigger] s.listing()[j]).id by {
        assert(s.records[i].id == i + 1);
        assert(s.records[j].id == j + 1);
    }
}

/// The store after one increase by one for each time in `times`, in
/// their order.
pub open spec fn unit_increases(s: LedgerState, product_id: i32, times: Seq<NaiveDateTime>)
    -> LedgerState
    decreases times.len(),
{
    if times.len() == 0 {
        s
    } else {
        unit_increases(s, product_id, times.drop_last()).increased(product_id, 1, times.last())
    }
}

/// However many increases by one are applied to a product, one after the
/// other and at whatever times, each takes place, the quantity ends up
/// higher by their number, and the history longer by their number, with
/// one `increase` movement of `+1` for each. Each increase is applied as
/// a whole, so every interleaving of the requests is such a sequence.
pub proof fn law_unit_increases(s: LedgerState, product_id: i32, times: Seq<NaiveDateTime>)
    requires
        s.wf(),
        s.has_record(product_id),
        storable(s.record(product_id).quantity + times.len()),
        s.movements.len() + times.len() <= i32::MAX,
    ensures
        unit_increases(s, product_id, times).wf(),
        unit_increases(s, product_id, times).has_record(product_id),
        unit_increases(s, product_id, times).record(product_id).quantity == s.record(
            product_id,
        ).quantity + times.len(),
        unit_increases(s, product_id, times).records.len() == s.records.len(),
        unit_increases(s, product_id, times).movements.len() == s.movements.len() + times.len(),
        unit_increases(s, product_id, times).movements.subrange(0, s.movements.len() as int)
            == s.movements,
        forall|k: int|
            s.movements.len() <= k < s.movements.len() + times.len() ==> {
                let m = #[trigger] unit_increases(s, product_id, times).movements[k];
                m.product_id == product_id && m.quantity_change == 1 && m.movement_type
                    == MovementType::Increase
            },
    decreases times.len(),
{
    if times.len() == 0 {
        assert(unit_increases(s, product_id, times).movements.subrange(
            0,
            s.movements.len() as int,
        ) =~= s.movements);
    } else {
        let earlier = unit_increases(s, product_id, times.drop_last());
        law_unit_increases(s, product_id, times.drop_last());
        assert(earlier.can_increase(product_id, 1));
        law_increase(earlier, product_id, 1, times.last());
        let after = earlier.increased(product_id, 1, times.last());
        assert(after.movements.subrange(0, s.movements.len() as int) =~= s.movements) by {
            assert(after.movements.drop_last() == earlier.movements);
            assert(earlier.movements.subrange(0, s.movements.len() as int) == s.movements);
            assert forall|k: int| 0 <= k < s.movements.len() implies after.movements[k]
                == s.movements[k] by {
                assert(after.movements.drop_last()[k] == after.movements[k]);
                assert(earlier.movements.subrange(0, s.movements.len() as int)[k]
                    == earlier.movements[k]);
            }
        }
        assert forall|k: int| s.movements.len() <= k < s.movements.len() + times.len() implies {
            let m = #[trigger] after.movements[k];
            m.product_id == product_id && m.quantity_change == 1 && m.movement_type
                == MovementType::Increase
        } by {
            if k < after.movements.len() - 1 {
                assert(after.movements.drop_last()[k] == after.movements[k]);
                assert(earlier.movements[k].product_id == product_id);
            } else {
                assert(after.movements[k] == after.movements.last());
            }
        }
    }
}

} // verus!
