//! The invoice registry: creation, lookup and the guarded mutations of a record.

use vstd::prelude::*;
use crate::invoice::{
    AccountKey, ErrorCode, InvoiceState, MAX_BORROWER_NAME_BYTES, MAX_PRICE, valid_name,
    valid_price,
};

verus! {

/// Every record is well formed and its id is its position.
pub open spec fn registry_wf(s: Seq<InvoiceState>) -> bool {
    &&& s.len() <= u64::MAX
    &&& forall|i: int| 0 <= i < s.len() ==> (#[trigger] s[i]).id == i && s[i].wf()
}

/// The record a successful `create` appends as the `n`-th entry.
pub open spec fn fresh_record(n: nat, supplier: AccountKey, price: u64, name: String) -> InvoiceState {
    InvoiceState {
        id: n as u64,
        supplier,
        price,
        borrower_name: name,
        is_sold: false,
        new_owner: None,
        reserved_by: None,
    }
}

/// Whether a sale of `rec` to `buyer` is refused as already taken: the record is
/// sold, or reserved by someone else.
pub open spec fn sale_taken(rec: InvoiceState, buyer: AccountKey) -> bool {
    rec.is_sold || (rec.reserved_by.is_some() && rec.reserved_by != Some(buyer))
}

/// What `create` makes of the records `s`, and what it returns.
pub open spec fn create_spec(s: Seq<InvoiceState>, supplier: AccountKey, price: u64, name: String) -> (
    Seq<InvoiceState>,
    Result<u64, ErrorCode>,
) {
    if s.len() >= u64::MAX {
        (s, Err(ErrorCode::StorageFull))
    } else if valid_price(price) && valid_name(name@) {
        (s.push(fresh_record(s.len(), supplier, price, name)), Ok(s.len() as u64))
    } else {
        (s, Err(ErrorCode::InvalidInput))
    }
}

/// What `get` returns on the records `s`.
pub open spec fn get_spec(s: Seq<InvoiceState>, id: u64) -> Result<InvoiceState, ErrorCode> {
    if id < s.len() {
        Ok(s[id as int])
    } else {
        Err(ErrorCode::NotFound)
    }
}

/// What `reserve` makes of the records `s`, and what it returns.
pub open spec fn reserve_spec(s: Seq<InvoiceState>, id: u64, buyer: AccountKey) -> (
    Seq<InvoiceState>,
    Result<(), ErrorCode>,
) {
    if id >= s.len() {
        (s, Err(ErrorCode::NotFound))
    } else if !s[id as int].is_open() {
        (s, Err(ErrorCode::AlreadySold))
    } else {
        (s.update(id as int, s[id as int].spec_reserved(buyer)), Ok(()))
    }
}

/// What `release` makes of the records `s`, and whether it dropped a lock.
pub open spec fn release_spec(s: Seq<InvoiceState>, id: u64, buyer: AccountKey) -> (Seq<InvoiceState>, bool) {
    if id < s.len() && s[id as int].reserved_by == Some(buyer) {
        (s.update(id as int, s[id as int].spec_released()), true)
    } else {
        (s, false)
    }
}

/// What `mark_sold` makes of the records `s`, and what it returns.
pub open spec fn mark_sold_spec(s: Seq<InvoiceState>, id: u64, buyer: AccountKey, expected_price: Option<u64>) -> (
    Seq<InvoiceState>,
    Result<(), ErrorCode>,
) {
    if id >= s.len() {
        (s, Err(ErrorCode::NotFound))
    } else if sale_taken(s[id as int], buyer) {
        (s, Err(ErrorCode::AlreadySold))
    } else if expected_price is Some && expected_price != Some(s[id as int].price) {
        (s, Err(ErrorCode::PriceMismatch))
    } else {
        (s.update(id as int, s[id as int].spec_sold(buyer)), Ok(()))
    }
}

/// Whether a record satisfies its invariant.
pub fn well_formed(rec: &InvoiceState) -> (r: bool)
    ensures
        r == rec.wf(),
{
    rec.price != 0 && rec.price <= MAX_PRICE
        && rec.borrower_name.as_str().as_bytes().len() <= MAX_BORROWER_NAME_BYTES
        && rec.is_sold == rec.new_owner.is_some()
        && (!rec.is_sold || rec.reserved_by.is_none())
}

/// The store of invoice records, keyed by id.
///
/// Ids are handed out in order of creation and records are never removed.
pub struct InvoiceRegistry {
    namespace: AccountKey,
    invoices: Vec<InvoiceState>,
}

impl View for InvoiceRegistry {
    type V = Seq<InvoiceState>;

    closed spec fn view(&self) -> Seq<InvoiceState> {
        self.invoices@
    }
}

impl InvoiceRegistry {
    /// The registry's invariant: see `registry_wf`.
    pub open spec fn wf(&self) -> bool {
        registry_wf(self@)
    }

    /// The identity of the marketplace this registry serves.
    pub closed spec fn spec_namespace(&self) -> AccountKey {
        self.namespace
    }

    /// An empty registry for the marketplace `namespace`.
    pub fn new(namespace: AccountKey) -> (r: InvoiceRegistry)
        ensures
            r.wf(),
            r@ == Seq::<InvoiceState>::empty(),
            r.spec_namespace() == namespace,
    {
        let r = InvoiceRegistry { namespace, invoices: Vec::new() };
        proof {
            assert(r@ =~= Seq::<InvoiceState>::empty());
        }
        r
    }

    /// A registry over records read back from storage, for the marketplace
    /// `namespace`.
    ///
    /// Fails with `InvalidInput` unless the records are well formed and each
    /// one's id is its position.
    pub fn from_records(namespace: AccountKey, records: Vec<InvoiceState>) -> (r: Result<InvoiceRegistry, ErrorCode>)
        ensures
            match r {
                Ok(reg) => {
                    &&& registry_wf(records@)
                    &&& reg.wf()
                    &&& reg@ == records@
                    &&& reg.spec_namespace() == namespace
                },
                Err(e) => !registry_wf(records@) && e == ErrorCode::InvalidInput,
            },
    {
        let mut i: usize = 0;
        while i < records.len()
            invariant
                0 <= i <= records@.len(),
                forall|j: int| 0 <= j < i ==> (#[trigger] records@[j]).id == j && records@[j].wf(),
            decreases records@.len() - i,
        {
            let rec = &records[i];
            if rec.id != i as u64 || !well_formed(rec) {
                return Err(ErrorCode::InvalidInput);
            }
            i = i + 1;
        }
        Ok(InvoiceRegistry { namespace, invoices: records })
    }

    pub fn namespace(&self) -> (r: AccountKey)
        ensures
            r == self.spec_namespace(),
    {
        self.namespace
    }

    /// The number of invoices created so far.
    pub fn len(&self) -> (r: usize)
        ensures
            r == self@.len(),
    {
        self.invoices.len()
    }

    /// Lists a new invoice, unsold, under the next id.
    ///
    /// Fails with `StorageFull` when every id is taken, and with
    /// `InvalidInput` when the price is zero or too large to pay out
    /// in ledger units, or when the label exceeds its byte cap; nothing is
    /// stored then.
    pub fn create(&mut self, supplier: AccountKey, price: u64, borrower_name: String) -> (r: Result<u64, ErrorCode>)
        requires
            old(self).wf(),
        ensures
            final(self).wf(),
            final(self).spec_namespace() == old(self).spec_namespace(),
            (final(self)@, r) == create_spec(old(self)@, supplier, price, borrower_name),
    {
        if self.invoices.len() as u64 == u64::MAX {
            return Err(ErrorCode::StorageFull);
        }
        if price == 0 || price > MAX_PRICE || borrower_name.as_str().as_bytes().len() > MAX_BORROWER_NAME_BYTES {
            return Err(ErrorCode::InvalidInput);
        }
        let id = self.invoices.len() as u64;
        let record = InvoiceState {
            id,
            supplier,
            price,
            borrower_name,
            is_sold: false,
            new_owner: None,
            reserved_by: None,
        };
        self.invoices.push(record);
        Ok(id)
    }

    /// The record with the given id, or `NotFound`. Never changes the registry.
    pub fn get(&self, id: u64) -> (r: Result<&InvoiceState, ErrorCode>)
        requires
            self.wf(),
        ensures
            match r {
                Ok(rec) => get_spec(self@, id) == Ok::<InvoiceState, ErrorCode>(*rec),
                Err(e) => get_spec(self@, id) == Err::<InvoiceState, ErrorCode>(e),
            },
    {
        if id >= self.invoices.len() as u64 {
            return Err(ErrorCode::NotFound);
        }
        Ok(&self.invoices[id as usize])
    }

    /// Takes the intent-lock of an open invoice for `buyer`.
    ///
    /// Fails with `NotFound` for an unknown id and with `AlreadySold` when the
    /// invoice is sold or already reserved; the registry is unchanged then.
    pub fn reserve(&mut self, id: u64, buyer: AccountKey) -> (r: Result<(), ErrorCode>)
        requires
            old(self).wf(),
        ensures
            final(self).wf(),
            final(self).spec_namespace() == old(self).spec_namespace(),
            (final(self)@, r) == reserve_spec(old(self)@, id, buyer),
    {
        if id >= self.invoices.len() as u64 {
            return Err(ErrorCode::NotFound);
        }
        let i = id as usize;
        if self.invoices[i].is_sold || self.invoices[i].reserved_by.is_some() {
            return Err(ErrorCode::AlreadySold);
        }
        self.invoices[i].reserved_by = Some(buyer);
        Ok(())
    }

    /// Drops the intent-lock that `buyer` holds on an unsold invoice.
    ///
    /// Returns whether a lock was dropped; any other record is left as it is.
    pub fn release(&mut self, id: u64, buyer: AccountKey) -> (r: bool)
        requires
            old(self).wf(),
        ensures
            final(self).wf(),
            final(self).spec_namespace() == old(self).spec_namespace(),
            (final(self)@, r) == release_spec(old(self)@, id, buyer),
    {
        if id >= self.invoices.len() as u64 {
            return false;
        }
        let i = id as usize;
        let held = match &self.invoices[i].reserved_by {
            Some(holder) => *holder == buyer,
            None => false,
        };
        if !held {
            return false;
        }
        self.invoices[i].reserved_by = None;
        true
    }

    /// The single entry point that sells an invoice: marks it sold to `buyer`.
    ///
    /// In one step it checks that the invoice exists (`NotFound`), is not sold
    /// and not reserved by anyone but `buyer` (`AlreadySold`), and, when
    /// `expected_price` is given, that it equals the stored price
    /// (`PriceMismatch`). Only when all hold are `is_sold` and `new_owner` set,
    /// together, and the lock dropped.
    pub fn mark_sold(&mut self, id: u64, buyer: AccountKey, expected_price: Option<u64>) -> (r: Result<(), ErrorCode>)
        requires
            old(self).wf(),
        ensures
            final(self).wf(),
            final(self).spec_namespace() == old(self).spec_namespace(),
            (final(self)@, r) == mark_sold_spec(old(self)@, id, buyer, expected_price),
    {
        if id >= self.invoices.len() as u64 {
            return Err(ErrorCode::NotFound);
        }
        let i = id as usize;
        if self.invoices[i].is_sold {
            return Err(ErrorCode::AlreadySold);
        }
        let taken = match &self.invoices[i].reserved_by {
            Some(holder) => *holder != buyer,
            None => false,
        };
        if taken {
            return Err(ErrorCode::AlreadySold);
        }
        match expected_price {
            Some(p) => {
                if p != self.invoices[i].price {
                    return Err(ErrorCode::PriceMismatch);
                }
            },
            None => {},
        }
        self.invoices[i].is_sold = true;
        self.invoices[i].new_owner = Some(buyer);
        self.invoices[i].reserved_by = None;
        Ok(())
    }
}

} // verus!
