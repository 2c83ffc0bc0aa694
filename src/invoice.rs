//! The invoice record, the identity handle and the error taxonomy.

use vstd::prelude::*;
use vstd::utf8::encode_utf8;

verus! {

/// Largest encoded size, in UTF-8 bytes, of an invoice's borrower label.
pub const MAX_BORROWER_NAME_BYTES: usize = 50;

/// Ledger base units (lamports) in one unit of an invoice's price (SOL).
pub const LAMPORTS_PER_SOL: u64 = 1_000_000_000;

/// Largest price whose ledger amount fits in a `u64`.
pub const MAX_PRICE: u64 = 18_446_744_073;

/// An authenticated party: the 32 raw bytes of its public key.
#[derive(Clone, Copy, Debug, Eq)]
pub struct AccountKey {
    pub bytes: [u8; 32],
}

impl AccountKey {
    /// The key with the given bytes.
    pub fn new(bytes: [u8; 32]) -> (r: AccountKey)
        ensures
            r.bytes == bytes,
    {
        AccountKey { bytes }
    }
}

impl PartialEq for AccountKey {
    /// Two keys are equal when they hold the same bytes.
    fn eq(&self, other: &AccountKey) -> (r: bool)
        ensures
            r == (*self == *other),
    {
        let mut i: usize = 0;
        while i < 32
            invariant
                0 <= i <= 32,
                forall|j: int| 0 <= j < i ==> self.bytes[j] == other.bytes[j],
            decreases 32 - i,
        {
            if self.bytes[i] != other.bytes[i] {
                return false;
            }
            i = i + 1;
        }
        proof {
            assert(self.bytes =~= other.bytes);
        }
        true
    }
}

impl vstd::std_specs::cmp::PartialEqSpecImpl for AccountKey {
    open spec fn obeys_eq_spec() -> bool {
        true
    }

    open spec fn eq_spec(&self, other: &AccountKey) -> bool {
        *self == *other
    }
}

/// Why an operation on the marketplace did not take effect.
#[derive(Clone, Copy, Debug, PartialEq, Eq, Structural)]
pub enum ErrorCode {
    /// A price of zero, a price too large to pay out, or an oversized label.
    InvalidInput,
    /// The registry holds as many invoices as ids can name.
    StorageFull,
    /// No invoice has the given id.
    NotFound,
    /// The invoice is sold, or another purchase of it is under way.
    AlreadySold,
    /// The caller's price expectation differs from the stored price.
    PriceMismatch,
    /// The fund transfer failed; the invoice is unchanged.
    TransferFailed,
    /// The transfer's outcome is not known; the invoice stays reserved.
    TransferUnknown,
    /// Funds moved but the invoice was not reserved for this purchase.
    InconsistentCommit,
}

/// One listed invoice.
///
/// `is_sold` and `new_owner` change together: `new_owner` is `Some` exactly
/// when the invoice is sold. `reserved_by` is the intent-lock of a purchase in
/// progress: the investor whose payment is under way, if any.
#[derive(Clone, Debug, PartialEq, Eq)]
pub struct InvoiceState {
    pub id: u64,
    pub supplier: AccountKey,
    pub price: u64,
    pub borrower_name: String,
    pub is_sold: bool,
    pub new_owner: Option<AccountKey>,
    pub reserved_by: Option<AccountKey>,
}

/// Encoded size of a label in UTF-8 bytes.
pub open spec fn name_bytes(name: Seq<char>) -> nat {
    encode_utf8(name).len()
}

/// Whether a price can be listed: positive, and payable in ledger units.
pub open spec fn valid_price(price: u64) -> bool {
    0 < price <= MAX_PRICE
}

/// Whether a borrower label fits its fixed storage.
pub open spec fn valid_name(name: Seq<char>) -> bool {
    name_bytes(name) <= MAX_BORROWER_NAME_BYTES
}

/// The ledger amount that buys an invoice of the given price.
pub open spec fn lamports_for(price: u64) -> int {
    price * LAMPORTS_PER_SOL
}

/// The fields fixed when an invoice is created.
pub open spec fn same_listing(a: InvoiceState, b: InvoiceState) -> bool {
    &&& a.id == b.id
    &&& a.supplier == b.supplier
    &&& a.price == b.price
    &&& a.borrower_name@ == b.borrower_name@
}

impl InvoiceState {
    /// The record's invariant.
    pub open spec fn wf(&self) -> bool {
        &&& valid_price(self.price)
        &&& valid_name(self.borrower_name@)
        &&& self.is_sold <==> self.new_owner.is_some()
        &&& self.is_sold ==> self.reserved_by.is_none()
    }

    /// Neither sold nor reserved: a purchase may start.
    pub open spec fn is_open(&self) -> bool {
        !self.is_sold && self.reserved_by.is_none()
    }

    /// The record with its intent-lock held by `buyer`.
    pub open spec fn spec_reserved(self, buyer: AccountKey) -> InvoiceState {
        InvoiceState { reserved_by: Some(buyer), ..self }
    }

    /// The record with its intent-lock dropped.
    pub open spec fn spec_released(self) -> InvoiceState {
        InvoiceState { reserved_by: None, ..self }
    }

    /// The record sold to `buyer`.
    pub open spec fn spec_sold(self, buyer: AccountKey) -> InvoiceState {
        InvoiceState { is_sold: true, new_owner: Some(buyer), reserved_by: None, ..self }
    }

    /// The ledger amount that buys this invoice.
    pub fn lamports(&self) -> (r: u64)
        requires
            self.wf(),
        ensures
            r == lamports_for(self.price),
    {
        assert(self.price * LAMPORTS_PER_SOL <= MAX_PRICE * LAMPORTS_PER_SOL) by (nonlinear_arith)
            requires
                self.price <= MAX_PRICE,
        ;
        self.price * LAMPORTS_PER_SOL
    }
}

} // verus!
