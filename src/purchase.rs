//! The purchase coordinator: listing an invoice, and buying one in two steps
//! around the external fund transfer.
//!
//! `buy_invoice` validates the invoice, takes its intent-lock for the investor
//! and returns the transfer to perform. The caller performs it and hands its
//! outcome to `settle_purchase`, which commits the sale on success and drops
//! the lock on failure. Since only the lock holder's transfer is ever
//! requested, two investors can never both pay for one invoice.

use vstd::prelude::*;
use crate::invoice::{AccountKey, ErrorCode, InvoiceState, lamports_for};
use crate::registry::{InvoiceRegistry, create_spec, sale_taken};

verus! {

/// The accounts of a listing: the supplier who creates the invoice.
#[derive(Clone, Copy, Debug)]
pub struct ListInvoice {
    pub supplier: AccountKey,
}

/// The accounts of a purchase: the invoice and the investor who pays for it.
#[derive(Clone, Copy, Debug)]
pub struct BuyInvoice {
    pub invoice_id: u64,
    pub investor: AccountKey,
}

/// A fund transfer that a purchase asks its caller to perform.
#[derive(Clone, Copy, Debug, PartialEq, Eq)]
pub struct TransferOrder {
    pub invoice_id: u64,
    /// The paying investor.
    pub from: AccountKey,
    /// The invoice's supplier.
    pub to: AccountKey,
    /// The amount in ledger units.
    pub lamports: u64,
    /// The invoice's price, as it stood when the order was made.
    pub price: u64,
}

/// What the external fund transfer reported.
#[derive(Clone, Copy, Debug, PartialEq, Eq, Structural)]
pub enum TransferOutcome {
    Succeeded,
    Failed,
    /// No definite answer (a timeout): never taken for success.
    Unknown,
}

/// The transfer that buys `rec` for `investor`.
pub open spec fn order_for(rec: InvoiceState, investor: AccountKey) -> TransferOrder {
    TransferOrder {
        invoice_id: rec.id,
        from: investor,
        to: rec.supplier,
        lamports: lamports_for(rec.price) as u64,
        price: rec.price,
    }
}

/// What `buy_invoice` makes of the records `s`, and what it returns.
pub open spec fn buy_spec(s: Seq<InvoiceState>, ctx: BuyInvoice) -> (
    Seq<InvoiceState>,
    Result<TransferOrder, ErrorCode>,
) {
    let id = ctx.invoice_id as int;
    if id >= s.len() {
        (s, Err(ErrorCode::NotFound))
    } else if !s[id].is_open() {
        (s, Err(ErrorCode::AlreadySold))
    } else {
        (s.update(id, s[id].spec_reserved(ctx.investor)), Ok(order_for(s[id], ctx.investor)))
    }
}

/// What `settle_purchase` makes of the records `s`, and what it returns.
pub open spec fn settle_spec(s: Seq<InvoiceState>, order: TransferOrder, outcome: TransferOutcome) -> (
    Seq<InvoiceState>,
    Result<(), ErrorCode>,
) {
    let id = order.invoice_id as int;
    match outcome {
        TransferOutcome::Succeeded => {
            if id < s.len() && !sale_taken(s[id], order.from) && s[id].price == order.price {
                (s.update(id, s[id].spec_sold(order.from)), Ok(()))
            } else {
                (s, Err(ErrorCode::InconsistentCommit))
            }
        },
        TransferOutcome::Failed => {
            if id < s.len() && s[id].reserved_by == Some(order.from) {
                (s.update(id, s[id].spec_released()), Err(ErrorCode::TransferFailed))
            } else {
                (s, Err(ErrorCode::TransferFailed))
            }
        },
        TransferOutcome::Unknown => (s, Err(ErrorCode::TransferUnknown)),
    }
}

/// Lists an invoice of `ctx.supplier` at `amount_in_sol`, under the next id.
///
/// Fails, storing nothing, with `StorageFull` when every id is taken, and with
/// `InvalidInput` when the price is zero or too large to pay out, or when the
/// label exceeds its byte cap.
pub fn list_invoice(
    registry: &mut InvoiceRegistry,
    ctx: &ListInvoice,
    amount_in_sol: u64,
    borrower_name: String,
) -> (r: Result<u64, ErrorCode>)
    requires
        old(registry).wf(),
    ensures
        final(registry).wf(),
        final(registry).spec_namespace() == old(registry).spec_namespace(),
        (final(registry)@, r) == create_spec(old(registry)@, ctx.supplier, amount_in_sol, borrower_name),
{
    registry.create(ctx.supplier, amount_in_sol, borrower_name)
}

/// Starts a purchase: checks the invoice, reserves it for the investor and
/// returns the transfer to perform.
///
/// Fails with `NotFound` for an unknown id and with `AlreadySold` when the
/// invoice is sold or another purchase holds it; no transfer is asked for and
/// the registry is unchanged then.
pub fn buy_invoice(registry: &mut InvoiceRegistry, ctx: &BuyInvoice) -> (r: Result<TransferOrder, ErrorCode>)
    requires
        old(registry).wf(),
    ensures
        final(registry).wf(),
        final(registry).spec_namespace() == old(registry).spec_namespace(),
        (final(registry)@, r) == buy_spec(old(registry)@, *ctx),
{
    let (supplier, price, lamports) = match registry.get(ctx.invoice_id) {
        Ok(rec) => {
            if rec.is_sold || rec.reserved_by.is_some() {
                return Err(ErrorCode::AlreadySold);
            }
            (rec.supplier, rec.price, rec.lamports())
        },
        Err(e) => {
            return Err(e);
        },
    };
    match registry.reserve(ctx.invoice_id, ctx.investor) {
        Ok(()) => {},
        Err(e) => {
            return Err(e);
        },
    }
    Ok(TransferOrder { invoice_id: ctx.invoice_id, from: ctx.investor, to: supplier, lamports, price })
}

/// Finishes a purchase with the outcome of the transfer that `order` asked for.
///
/// - `Succeeded`: the invoice is marked sold to `order.from`. Should that be
///   refused (the invoice is unknown or sold, or reserved by another investor, or its
///   price differs), the result is `InconsistentCommit` and the registry is
///   unchanged: the funds moved and need a compensating refund.
/// - `Failed`: the investor's lock, if held, is dropped, which restores the
///   invoice exactly; the result is `TransferFailed`.
/// - `Unknown`: nothing changes and the invoice stays reserved until a definite
///   outcome is settled; the result is `TransferUnknown`.
pub fn settle_purchase(
    registry: &mut InvoiceRegistry,
    order: &TransferOrder,
    outcome: TransferOutcome,
) -> (r: Result<(), ErrorCode>)
    requires
        old(registry).wf(),
    ensures
        final(registry).wf(),
        final(registry).spec_namespace() == old(registry).spec_namespace(),
        (final(registry)@, r) == settle_spec(old(registry)@, *order, outcome),
{
    match outcome {
        TransferOutcome::Succeeded => {
            match registry.mark_sold(order.invoice_id, order.from, Some(order.price)) {
                Ok(()) => Ok(()),
                Err(_) => Err(ErrorCode::InconsistentCommit),
            }
        },
        TransferOutcome::Failed => {
            registry.release(order.invoice_id, order.from);
            Err(ErrorCode::TransferFailed)
        },
        TransferOutcome::Unknown => Err(ErrorCode::TransferUnknown),
    }
}

} // verus!
