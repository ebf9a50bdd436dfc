//! The rejection taxonomy. Every refused action yields a structured cause
//! carrying enough data (required amount, applicable cap) for a caller to
//! render an actionable message without re-deriving it from configuration.

use vstd::prelude::*;
use vstd::string::*;

use crate::money::{dec_chars, dec_string, format_money, money_chars};

verus! {

/// Why an action was refused.
#[derive(Debug, Clone, Copy, PartialEq, Eq, Structural)]
pub enum InvalidActionErrorCause {
    /// The action id is not one the game recognises.
    InvalidAction,
    /// The action needs a quantity greater than 0 and none (or 0) was given.
    InvalidQuantity,
    /// The action takes no quantity but one was given.
    ExtraneousQuantity,
    /// The game has ended; no further action is accepted.
    GameOver,
    /// The player cannot afford the action; carries the required amount in cents.
    NotEnoughMoney(i32),
    /// The requested cheese quantity exceeds the configured cap; carries the cap.
    CheeseMaxQuantityExceeded(u32),
    /// There is no mature cheese to sell.
    NoCheeseToSell,
    /// The requested croissant quantity exceeds the configured cap; carries the cap.
    CroissantMaxQuantityExceeded(u32),
}

/// A refused action, wrapping its cause.
#[derive(Debug, Clone, Copy, PartialEq, Eq, Structural)]
pub struct InvalidActionError {
    pub cause: InvalidActionErrorCause,
}

/// The outcome of an action: unit success, or a structured rejection.
pub type ActionResult<T> = Result<T, InvalidActionError>;

/// The human-readable description of each rejection cause.
pub open spec fn describe_chars(cause: InvalidActionErrorCause) -> Seq<char> {
    match cause {
        InvalidActionErrorCause::InvalidAction => "Invalid action."@,
        InvalidActionErrorCause::InvalidQuantity => "Action requires a quantity greater than 0."@,
        InvalidActionErrorCause::ExtraneousQuantity => "Action should not have a quantity."@,
        InvalidActionErrorCause::GameOver => "Game is over."@,
        InvalidActionErrorCause::NotEnoughMoney(total_cost) => "Not enough money, need at least "@
            + money_chars(total_cost as int) + "."@,
        InvalidActionErrorCause::CheeseMaxQuantityExceeded(max) => "Cannot buy that much cheese (max "@
            + dec_chars(max as int) + ")."@,
        InvalidActionErrorCause::NoCheeseToSell => "You have no mature cheese to sell."@,
        InvalidActionErrorCause::CroissantMaxQuantityExceeded(max) => "Cannot buy that many croissants (max "@
            + dec_chars(max as int) + ")."@,
    }
}

impl InvalidActionError {
    /// Renders the cause as a human-readable message. Monetary amounts in a
    /// cause are always non-negative in any state the engine produces.
    pub fn describe(&self) -> (r: String)
        requires
            self.cause matches InvalidActionErrorCause::NotEnoughMoney(c) ==> c >= 0,
        ensures
            r@ == describe_chars(self.cause),
    {
        match self.cause {
            InvalidActionErrorCause::InvalidAction => String::from_str("Invalid action."),
            InvalidActionErrorCause::InvalidQuantity => String::from_str(
                "Action requires a quantity greater than 0.",
            ),
            InvalidActionErrorCause::ExtraneousQuantity => String::from_str(
                "Action should not have a quantity.",
            ),
            InvalidActionErrorCause::GameOver => String::from_str("Game is over."),
            InvalidActionErrorCause::NotEnoughMoney(total_cost) => {
                let amount = format_money(total_cost);
                let r = String::from_str("Not enough money, need at least ").concat(
                    amount.as_str(),
                ).concat(".");
                proof {
                    assert(r@ =~= describe_chars(self.cause));
                }
                r
            },
            InvalidActionErrorCause::CheeseMaxQuantityExceeded(max) => {
                let cap = dec_string(max);
                let r = String::from_str("Cannot buy that much cheese (max ").concat(
                    cap.as_str(),
                ).concat(").");
                proof {
                    assert(r@ =~= describe_chars(self.cause));
                }
                r
            },
            InvalidActionErrorCause::NoCheeseToSell => String::from_str(
                "You have no mature cheese to sell.",
            ),
            InvalidActionErrorCause::CroissantMaxQuantityExceeded(max) => {
                let cap = dec_string(max);
                let r = String::from_str("Cannot buy that many croissants (max ").concat(
                    cap.as_str(),
                ).concat(").");
                proof {
                    assert(r@ =~= describe_chars(self.cause));
                }
                r
            },
        }
    }
}

} // verus!
