//! What each change writes into the movement history.

use crate::error::LedgerError;
use crate::models::{text_of, MovementType};
use crate::state::{storable, LedgerState};
use crate::text::set_text;
use vstd::prelude::*;
use vstd::string::StringExecFns;

verus! {

/// A movement before the store has given it an id and a time.
#[derive(Debug, Clone, PartialEq, Eq)]
pub struct MovementDraft {
    pub quantity_change: i32,
    pub movement_type: MovementType,
    pub reason: String,
}

/// Mathematical value of a [`MovementDraft`].
pub struct MovementDraftView {
    pub quantity_change: i32,
    pub movement_type: MovementType,
    pub reason: Seq<char>,
}

impl View for MovementDraft {
    type V = MovementDraftView;

    open spec fn view(&self) -> MovementDraftView {
        MovementDraftView {
            quantity_change: self.quantity_change,
            movement_type: self.movement_type,
            reason: self.reason@,
        }
    }
}

/// The movement of an increase by `amount`: a change of `+amount`.
pub fn increase_movement(amount: i32) -> (draft: MovementDraft)
    ensures
        draft@ == (MovementDraftView {
            quantity_change: amount,
            movement_type: MovementType::Increase,
            reason: "Stock increased"@,
        }),
{
    MovementDraft {
        quantity_change: amount,
        movement_type: MovementType::Increase,
        reason: String::from_str("Stock increased"),
    }
}

/// The movement of a decrease by `amount`: a change of `-amount`, where
/// that can be stored.
pub fn decrease_movement(amount: i32) -> (r: Result<MovementDraft, LedgerError>)
    ensures
        match r {
            Ok(draft) => storable(-amount) && draft@ == (MovementDraftView {
                quantity_change: (-amount) as i32,
                movement_type: MovementType::Decrease,
                reason: "Stock decreased"@,
            }),
            Err(e) => !storable(-amount) && e == LedgerError::StoreError,
        },
{
    if amount == i32::MIN {
        Err(LedgerError::StoreError)
    } else {
        Ok(
            MovementDraft {
                quantity_change: -amount,
                movement_type: MovementType::Decrease,
                reason: String::from_str("Stock decreased"),
            },
        )
    }
}

/// The movement of setting a stock of `current` to `quantity`: a change
/// of the difference, where that can be stored, with the reason given
/// or else "Stock set to" with the quantity.
pub fn set_movement(current: i32, quantity: i32, reason: Option<String>) -> (r: Result<
    MovementDraft,
    LedgerError,
>)
    ensures
        match r {
            Ok(draft) => storable(quantity - current) && draft@ == (MovementDraftView {
                quantity_change: (quantity - current) as i32,
                movement_type: MovementType::SetAbsolute,
                reason: LedgerState::set_reason(quantity, text_of(reason)),
            }),
            Err(e) => !storable(quantity - current) && e == LedgerError::StoreError,
        },
{
    let change: i64 = quantity as i64 - current as i64;
    if change < -2147483648 || change > 2147483647 {
        return Err(LedgerError::StoreError);
    }
    let text = match reason {
        Some(given) => given,
        None => set_text(quantity),
    };
    Ok(
        MovementDraft {
            quantity_change: change as i32,
            movement_type: MovementType::SetAbsolute,
            reason: text,
        },
    )
}

} // verus!
