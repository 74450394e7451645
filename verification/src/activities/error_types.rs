//! The type names that failures carry, and that retry policies match.

use vstd::prelude::*;

verus! {

/// The card was declined.
pub const CARD_DECLINED: &'static str = "CardDeclined";

/// There is not enough stock for the order.
pub const OUT_OF_STOCK: &'static str = "OutOfStock";

} // verus!
