//! What holds of the marketplace over any sequence of operations.
//!
//! `Operation` names each call that can change the records; `run` gives the
//! records after a sequence of them, each step as that call's contract states
//! it. The lemmas below hold for every sequence, whatever the order in which
//! concurrent callers' requests were serialized.

use vstd::prelude::*;
use crate::invoice::{AccountKey, ErrorCode, InvoiceState, same_listing};
use crate::purchase::{
    BuyInvoice, ListInvoice, TransferOrder, TransferOutcome, buy_spec, order_for, settle_spec,
};
use crate::registry::{
    create_spec, get_spec, mark_sold_spec, registry_wf, release_spec, reserve_spec,
};

verus! {

/// One call that can change the records.
pub enum Operation {
    List(ListInvoice, u64, String),
    Buy(BuyInvoice),
    Settle(TransferOrder, TransferOutcome),
    Reserve(u64, AccountKey),
    Release(u64, AccountKey),
    MarkSold(u64, AccountKey, Option<u64>),
}

/// The records after `op` on the records `s`.
pub open spec fn apply(s: Seq<InvoiceState>, op: Operation) -> Seq<InvoiceState> {
    match op {
        Operation::List(ctx, price, name) => create_spec(s, ctx.supplier, price, name).0,
        Operation::Buy(ctx) => buy_spec(s, ctx).0,
        Operation::Settle(order, outcome) => settle_spec(s, order, outcome).0,
        Operation::Reserve(id, buyer) => reserve_spec(s, id, buyer).0,
        Operation::Release(id, buyer) => release_spec(s, id, buyer).0,
        Operation::MarkSold(id, buyer, expected) => mark_sold_spec(s, id, buyer, expected).0,
    }
}

/// The records after the operations `ops`, in order, on the records `s`.
pub open spec fn run(s: Seq<InvoiceState>, ops: Seq<Operation>) -> Seq<InvoiceState>
    decreases ops.len(),
{
    if ops.len() == 0 {
        s
    } else {
        run(apply(s, ops[0]), ops.drop_first())
    }
}

/// Whether the invoice `id` exists in `s` and is sold.
pub open spec fn sold_at(s: Seq<InvoiceState>, id: int) -> bool {
    0 <= id < s.len() && s[id].is_sold
}

/// How many of the operations `ops` on `s` turn the invoice `id` from unsold
/// to sold.
pub open spec fn sales(s: Seq<InvoiceState>, ops: Seq<Operation>, id: int) -> nat
    decreases ops.len(),
{
    if ops.len() == 0 {
        0
    } else {
        let t = apply(s, ops[0]);
        (if !sold_at(s, id) && sold_at(t, id) { 1nat } else { 0nat }) + sales(t, ops.drop_first(), id)
    }
}

proof fn lemma_step(s: Seq<InvoiceState>, op: Operation)
    requires
        registry_wf(s),
    ensures
        registry_wf(apply(s, op)),
        apply(s, op).len() >= s.len(),
        forall|i: int|
            0 <= i < s.len() ==> {
                &&& same_listing(s[i], #[trigger] apply(s, op)[i])
                &&& s[i].is_sold ==> apply(s, op)[i] == s[i]
            },
{
    match op {
        Operation::List(..) => {
            let t = apply(s, op);
            if t.len() > s.len() {
                assert(t[s.len() as int].id == s.len());
            }
        },
        _ => {},
    }
}

proof fn lemma_run(s: Seq<InvoiceState>, ops: Seq<Operation>)
    requires
        registry_wf(s),
    ensures
        registry_wf(run(s, ops)),
        run(s, ops).len() >= s.len(),
        forall|i: int|
            0 <= i < s.len() ==> {
                &&& same_listing(s[i], #[trigger] run(s, ops)[i])
                &&& s[i].is_sold ==> run(s, ops)[i] == s[i]
                &&& sales(s, ops, i) <= 1
                &&& s[i].is_sold ==> sales(s, ops, i) == 0
                &&& sales(s, ops, i) == 0 ==> run(s, ops)[i].is_sold == s[i].is_sold
                    && run(s, ops)[i].new_owner == s[i].new_owner
            },
    decreases ops.len(),
{
    if ops.len() > 0 {
        let t = apply(s, ops[0]);
        lemma_step(s, ops[0]);
        lemma_run(t, ops.drop_first());
        assert forall|i: int| 0 <= i < s.len() implies {
            &&& same_listing(s[i], #[trigger] run(s, ops)[i])
            &&& s[i].is_sold ==> run(s, ops)[i] == s[i]
            &&& sales(s, ops, i) <= 1
            &&& s[i].is_sold ==> sales(s, ops, i) == 0
            &&& sales(s, ops, i) == 0 ==> run(s, ops)[i].is_sold == s[i].is_sold
                && run(s, ops)[i].new_owner == s[i].new_owner
        } by {
            assert(same_listing(s[i], t[i]));
            assert(same_listing(t[i], run(t, ops.drop_first())[i]));
        }
    }
}

/// Atomicity of the sale: in every state reachable from a well-formed one,
/// each record is sold exactly when it has a new owner, so `is_sold` and
/// `new_owner` only ever change together.
pub proof fn lemma_sale_fields_change_together(s: Seq<InvoiceState>, ops: Seq<Operation>)
    requires
        registry_wf(s),
    ensures
        registry_wf(run(s, ops)),
        forall|i: int|
            0 <= i < run(s, ops).len() ==> ((#[trigger] run(s, ops)[i]).is_sold
                <==> run(s, ops)[i].new_owner.is_some()),
{
    lemma_run(s, ops);
}

/// No double sale: over any sequence of operations an invoice turns from
/// unsold to sold at most once, never again once sold, and a sold invoice
/// keeps its owner and every other field for good.
pub proof fn lemma_no_double_sale(s: Seq<InvoiceState>, ops: Seq<Operation>, id: int)
    requires
        registry_wf(s),
        0 <= id < s.len(),
    ensures
        sales(s, ops, id) <= 1,
        s[id].is_sold ==> sales(s, ops, id) == 0,
        s[id].is_sold ==> run(s, ops)[id] == s[id],
{
    lemma_run(s, ops);
    assert(same_listing(s[id], run(s, ops)[id]));
}

/// A purchase of an invoice that is sold, or that another purchase holds, is
/// refused with `AlreadySold`: no transfer is asked for and nothing changes.
pub proof fn lemma_taken_invoice_refuses_buy(s: Seq<InvoiceState>, ctx: BuyInvoice)
    requires
        ctx.invoice_id < s.len(),
        !s[ctx.invoice_id as int].is_open(),
    ensures
        buy_spec(s, ctx) == (s, Err::<TransferOrder, ErrorCode>(ErrorCode::AlreadySold)),
{
}

/// Two purchases of one open invoice, in whichever order they are served:
/// the first is handed the transfer, the second is refused with
/// `AlreadySold` and changes nothing; once the first transfer succeeds the
/// invoice is sold to the first investor.
pub proof fn lemma_racing_buys(s: Seq<InvoiceState>, id: u64, first: AccountKey, second: AccountKey)
    requires
        registry_wf(s),
        id < s.len(),
        s[id as int].is_open(),
    ensures
        ({
            let (s1, r1) = buy_spec(s, BuyInvoice { invoice_id: id, investor: first });
            let (s2, r2) = buy_spec(s1, BuyInvoice { invoice_id: id, investor: second });
            let (s3, r3) = settle_spec(s2, order_for(s[id as int], first), TransferOutcome::Succeeded);
            &&& r1 == Ok::<TransferOrder, ErrorCode>(order_for(s[id as int], first))
            &&& r2 == Err::<TransferOrder, ErrorCode>(ErrorCode::AlreadySold)
            &&& s2 == s1
            &&& r3 == Ok::<(), ErrorCode>(())
            &&& s3[id as int].is_sold
            &&& s3[id as int].new_owner == Some(first)
        }),
{
}

/// A purchase whose transfer fails leaves the records exactly as they were
/// before the purchase began, also when an unknown outcome came first.
pub proof fn lemma_failed_transfer_no_effect(s: Seq<InvoiceState>, ctx: BuyInvoice)
    requires
        registry_wf(s),
        buy_spec(s, ctx).1 is Ok,
    ensures
        ({
            let (s1, r1) = buy_spec(s, ctx);
            let order = r1->Ok_0;
            let (s2, _) = settle_spec(s1, order, TransferOutcome::Unknown);
            &&& settle_spec(s1, order, TransferOutcome::Failed) == (
                s,
                Err::<(), ErrorCode>(ErrorCode::TransferFailed),
            )
            &&& s2 == s1
            &&& settle_spec(s2, order, TransferOutcome::Failed).0 == s
        }),
{
    let (s1, r1) = buy_spec(s, ctx);
    let id = ctx.invoice_id as int;
    assert(s1.update(id, s1[id].spec_released()) =~= s);
}

/// The fields fixed at listing (id, supplier, price, borrower label) never
/// change, whatever operations follow, and no record is ever removed.
pub proof fn lemma_listing_immutable(s: Seq<InvoiceState>, ops: Seq<Operation>, id: int)
    requires
        registry_wf(s),
        0 <= id < s.len(),
    ensures
        run(s, ops).len() >= s.len(),
        same_listing(s[id], run(s, ops)[id]),
{
    lemma_run(s, ops);
}

/// Reads are stable: `get` takes the registry by shared reference, so it
/// changes nothing, and as long as no operation sells the invoice, a later
/// read gives the same listing, sale flag and owner. (A purchase in progress
/// does set and drop the record's intent-lock.)
pub proof fn lemma_read_stable(s: Seq<InvoiceState>, ops: Seq<Operation>, id: u64)
    requires
        registry_wf(s),
        id < s.len(),
        sales(s, ops, id as int) == 0,
    ensures
        get_spec(run(s, ops), id) is Ok,
        same_listing(get_spec(s, id)->Ok_0, get_spec(run(s, ops), id)->Ok_0),
        get_spec(run(s, ops), id)->Ok_0.is_sold == get_spec(s, id)->Ok_0.is_sold,
        get_spec(run(s, ops), id)->Ok_0.new_owner == get_spec(s, id)->Ok_0.new_owner,
{
    lemma_run(s, ops);
    assert(same_listing(s[id as int], run(s, ops)[id as int]));
}

} // verus!
