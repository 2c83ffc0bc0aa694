//! An invoice-factoring marketplace primitive.
//!
//! A supplier lists a priced claim on a future payment; an investor buys it by
//! paying the supplier, after which the record is marked sold and reassigned to
//! the investor. The purchase reserves the record before any funds move, so an
//! invoice can never be sold (or paid for) twice, and a failed payment leaves
//! the record exactly as it was.

pub mod invoice;
pub mod laws;
pub mod purchase;
pub mod registry;
