use silkroad::invoice::{AccountKey, ErrorCode, InvoiceState, LAMPORTS_PER_SOL, MAX_PRICE};
use silkroad::purchase::{
    buy_invoice, list_invoice, settle_purchase, BuyInvoice, ListInvoice, TransferOrder,
    TransferOutcome,
};
use silkroad::registry::InvoiceRegistry;

fn key(b: u8) -> AccountKey {
    AccountKey::new([b; 32])
}

fn registry() -> InvoiceRegistry {
    InvoiceRegistry::new(key(9))
}

fn list(reg: &mut InvoiceRegistry, supplier: AccountKey, price: u64, name: &str) -> Result<u64, ErrorCode> {
    list_invoice(reg, &ListInvoice { supplier }, price, name.to_string())
}

fn buy(reg: &mut InvoiceRegistry, id: u64, investor: AccountKey) -> Result<TransferOrder, ErrorCode> {
    buy_invoice(reg, &BuyInvoice { invoice_id: id, investor })
}

fn record(reg: &InvoiceRegistry, id: u64) -> InvoiceState {
    reg.get(id).unwrap().clone()
}

#[test]
fn create_samsung_invoice() {
    let mut reg = registry();
    let id = list(&mut reg, key(1), 5, "Samsung").unwrap();
    assert_eq!(id, 0);
    let rec = record(&reg, id);
    assert_eq!(rec.id, 0);
    assert_eq!(rec.supplier, key(1));
    assert_eq!(rec.price, 5);
    assert_eq!(rec.borrower_name, "Samsung");
    assert!(!rec.is_sold);
    assert_eq!(rec.new_owner, None);
    assert_eq!(rec.reserved_by, None);
    assert_eq!(reg.len(), 1);
    assert_eq!(reg.namespace(), key(9));
}

#[test]
fn ids_follow_creation_order() {
    let mut reg = registry();
    assert_eq!(list(&mut reg, key(1), 5, "A"), Ok(0));
    assert_eq!(list(&mut reg, key(2), 7, "B"), Ok(1));
    assert_eq!(record(&reg, 1).supplier, key(2));
    assert_eq!(record(&reg, 1).price, 7);
}

#[test]
fn buy_transfers_price_and_sells() {
    let mut reg = registry();
    let id = list(&mut reg, key(1), 5, "Samsung").unwrap();
    let order = buy(&mut reg, id, key(2)).unwrap();
    assert_eq!(order.invoice_id, id);
    assert_eq!(order.from, key(2));
    assert_eq!(order.to, key(1));
    assert_eq!(order.lamports, 5 * LAMPORTS_PER_SOL);
    assert_eq!(order.lamports, 5_000_000_000);
    assert_eq!(order.price, 5);
    assert_eq!(record(&reg, id).reserved_by, Some(key(2)));
    assert!(!record(&reg, id).is_sold);
    assert_eq!(settle_purchase(&mut reg, &order, TransferOutcome::Succeeded), Ok(()));
    let rec = record(&reg, id);
    assert!(rec.is_sold);
    assert_eq!(rec.new_owner, Some(key(2)));
    assert_eq!(rec.reserved_by, None);
}

#[test]
fn second_buy_after_sale_is_refused() {
    let mut reg = registry();
    let id = list(&mut reg, key(1), 5, "Samsung").unwrap();
    let order = buy(&mut reg, id, key(2)).unwrap();
    settle_purchase(&mut reg, &order, TransferOutcome::Succeeded).unwrap();
    let before = record(&reg, id);
    assert_eq!(buy(&mut reg, id, key(3)), Err(ErrorCode::AlreadySold));
    assert_eq!(record(&reg, id), before);
    assert_eq!(record(&reg, id).new_owner, Some(key(2)));
}

#[test]
fn buy_unknown_invoice_is_not_found() {
    let mut reg = registry();
    assert_eq!(buy(&mut reg, 0, key(2)), Err(ErrorCode::NotFound));
    list(&mut reg, key(1), 5, "Samsung").unwrap();
    assert_eq!(buy(&mut reg, 1, key(2)), Err(ErrorCode::NotFound));
    assert_eq!(buy(&mut reg, u64::MAX, key(2)), Err(ErrorCode::NotFound));
    assert_eq!(reg.get(1).err(), Some(ErrorCode::NotFound));
}

#[test]
fn zero_price_is_invalid() {
    let mut reg = registry();
    assert_eq!(list(&mut reg, key(1), 0, "Samsung"), Err(ErrorCode::InvalidInput));
    assert_eq!(reg.len(), 0);
}

#[test]
fn largest_payable_price() {
    let mut reg = registry();
    let id = list(&mut reg, key(1), MAX_PRICE, "Big").unwrap();
    let order = buy(&mut reg, id, key(2)).unwrap();
    assert_eq!(order.lamports, 18_446_744_073_000_000_000);
    assert_eq!(list(&mut reg, key(1), MAX_PRICE + 1, "Bigger"), Err(ErrorCode::InvalidInput));
    assert_eq!(list(&mut reg, key(1), u64::MAX, "Biggest"), Err(ErrorCode::InvalidInput));
    assert_eq!(reg.len(), 1);
}

#[test]
fn borrower_name_byte_cap() {
    let mut reg = registry();
    let fifty = "x".repeat(50);
    assert_eq!(list(&mut reg, key(1), 1, &fifty), Ok(0));
    let fifty_one = "x".repeat(51);
    assert_eq!(list(&mut reg, key(1), 1, &fifty_one), Err(ErrorCode::InvalidInput));
    // two bytes per character: the cap counts encoded bytes
    let twenty_five = "\u{e9}".repeat(25);
    assert_eq!(list(&mut reg, key(1), 1, &twenty_five), Ok(1));
    let twenty_six = "\u{e9}".repeat(26);
    assert_eq!(list(&mut reg, key(1), 1, &twenty_six), Err(ErrorCode::InvalidInput));
    assert_eq!(list(&mut reg, key(1), 1, ""), Ok(2));
    assert_eq!(reg.len(), 3);
}

#[test]
fn racing_buys_only_one_pays() {
    let mut reg = registry();
    let id = list(&mut reg, key(1), 5, "Samsung").unwrap();
    let first = buy(&mut reg, id, key(2));
    let second = buy(&mut reg, id, key(3));
    let order = first.unwrap();
    assert_eq!(second, Err(ErrorCode::AlreadySold));
    assert_eq!(settle_purchase(&mut reg, &order, TransferOutcome::Succeeded), Ok(()));
    assert_eq!(record(&reg, id).new_owner, Some(key(2)));
    assert_eq!(buy(&mut reg, id, key(3)), Err(ErrorCode::AlreadySold));
}

#[test]
fn failed_transfer_restores_record() {
    let mut reg = registry();
    let id = list(&mut reg, key(1), 5, "Samsung").unwrap();
    let before = record(&reg, id);
    let order = buy(&mut reg, id, key(2)).unwrap();
    assert_eq!(settle_purchase(&mut reg, &order, TransferOutcome::Failed), Err(ErrorCode::TransferFailed));
    assert_eq!(record(&reg, id), before);
    // the purchase may be retried from scratch, by anyone
    let retry = buy(&mut reg, id, key(3)).unwrap();
    assert_eq!(settle_purchase(&mut reg, &retry, TransferOutcome::Succeeded), Ok(()));
    assert_eq!(record(&reg, id).new_owner, Some(key(3)));
}

#[test]
fn unknown_outcome_keeps_reservation() {
    let mut reg = registry();
    let id = list(&mut reg, key(1), 5, "Samsung").unwrap();
    let before = record(&reg, id);
    let order = buy(&mut reg, id, key(2)).unwrap();
    let reserved = record(&reg, id);
    assert_eq!(settle_purchase(&mut reg, &order, TransferOutcome::Unknown), Err(ErrorCode::TransferUnknown));
    assert_eq!(record(&reg, id), reserved);
    assert!(!record(&reg, id).is_sold);
    assert_eq!(buy(&mut reg, id, key(3)), Err(ErrorCode::AlreadySold));
    assert_eq!(settle_purchase(&mut reg, &order, TransferOutcome::Failed), Err(ErrorCode::TransferFailed));
    assert_eq!(record(&reg, id), before);
}

#[test]
fn success_without_reservation_is_inconsistent() {
    let mut reg = registry();
    let id = list(&mut reg, key(1), 5, "Samsung").unwrap();
    let stale = buy(&mut reg, id, key(2)).unwrap();
    settle_purchase(&mut reg, &stale, TransferOutcome::Failed).unwrap_err();
    let order = buy(&mut reg, id, key(3)).unwrap();
    let reserved = record(&reg, id);
    assert_eq!(settle_purchase(&mut reg, &stale, TransferOutcome::Succeeded), Err(ErrorCode::InconsistentCommit));
    assert_eq!(record(&reg, id), reserved);
    assert_eq!(settle_purchase(&mut reg, &order, TransferOutcome::Succeeded), Ok(()));
    assert_eq!(settle_purchase(&mut reg, &stale, TransferOutcome::Succeeded), Err(ErrorCode::InconsistentCommit));
    assert_eq!(record(&reg, id).new_owner, Some(key(3)));
}

#[test]
fn mark_sold_checks_state_and_price() {
    let mut reg = registry();
    let id = list(&mut reg, key(1), 5, "Samsung").unwrap();
    assert_eq!(reg.mark_sold(7, key(2), None), Err(ErrorCode::NotFound));
    assert_eq!(reg.mark_sold(id, key(2), Some(6)), Err(ErrorCode::PriceMismatch));
    assert!(!record(&reg, id).is_sold);
    assert_eq!(reg.reserve(id, key(3)), Ok(()));
    assert_eq!(reg.mark_sold(id, key(2), Some(5)), Err(ErrorCode::AlreadySold));
    assert_eq!(reg.mark_sold(id, key(3), Some(5)), Ok(()));
    assert_eq!(reg.mark_sold(id, key(3), Some(5)), Err(ErrorCode::AlreadySold));
    let rec = record(&reg, id);
    assert!(rec.is_sold);
    assert_eq!(rec.new_owner, Some(key(3)));
    assert_eq!(rec.reserved_by, None);
}

#[test]
fn reserve_and_release() {
    let mut reg = registry();
    let id = list(&mut reg, key(1), 5, "Samsung").unwrap();
    assert_eq!(reg.reserve(3, key(2)), Err(ErrorCode::NotFound));
    assert_eq!(reg.reserve(id, key(2)), Ok(()));
    assert_eq!(reg.reserve(id, key(3)), Err(ErrorCode::AlreadySold));
    assert!(!reg.release(id, key(3)));
    assert_eq!(record(&reg, id).reserved_by, Some(key(2)));
    assert!(reg.release(id, key(2)));
    assert_eq!(record(&reg, id).reserved_by, None);
    assert!(!reg.release(id, key(2)));
    assert!(!reg.release(5, key(2)));
}

#[test]
fn sale_fields_change_together() {
    let mut reg = registry();
    let id = list(&mut reg, key(1), 5, "Samsung").unwrap();
    let order = buy(&mut reg, id, key(2)).unwrap();
    let mid = record(&reg, id);
    assert_eq!(mid.is_sold, mid.new_owner.is_some());
    settle_purchase(&mut reg, &order, TransferOutcome::Succeeded).unwrap();
    let done = record(&reg, id);
    assert!(done.is_sold && done.new_owner == Some(key(2)));
}

#[test]
fn listing_fields_never_change() {
    let mut reg = registry();
    let id = list(&mut reg, key(1), 5, "Samsung").unwrap();
    let before = record(&reg, id);
    let order = buy(&mut reg, id, key(2)).unwrap();
    settle_purchase(&mut reg, &order, TransferOutcome::Succeeded).unwrap();
    let _ = buy(&mut reg, id, key(3));
    let _ = reg.mark_sold(id, key(3), Some(5));
    list(&mut reg, key(4), 8, "Other").unwrap();
    let after = record(&reg, id);
    assert_eq!(after.id, before.id);
    assert_eq!(after.supplier, before.supplier);
    assert_eq!(after.price, before.price);
    assert_eq!(after.borrower_name, before.borrower_name);
}

#[test]
fn repeated_reads_agree() {
    let mut reg = registry();
    let id = list(&mut reg, key(1), 5, "Samsung").unwrap();
    let a = record(&reg, id);
    let b = record(&reg, id);
    assert_eq!(a, b);
    assert_eq!(reg.get(id).unwrap(), reg.get(id).unwrap());
    assert_eq!(reg.len(), 1);
}

#[test]
fn account_keys_compare_by_bytes() {
    let mut bytes = [7u8; 32];
    assert!(key(7) == AccountKey::new(bytes));
    bytes[31] = 8;
    assert!(key(7) != AccountKey::new(bytes));
    assert!(key(1) != key(2));
}

#[test]
fn registry_from_stored_records() {
    let sold = InvoiceState {
        id: 0,
        supplier: key(1),
        price: 5,
        borrower_name: "Samsung".to_string(),
        is_sold: true,
        new_owner: Some(key(2)),
        reserved_by: None,
    };
    let open = InvoiceState { id: 1, is_sold: false, new_owner: None, ..sold.clone() };
    let reg = InvoiceRegistry::from_records(key(9), vec![sold.clone(), open.clone()]).unwrap();
    assert_eq!(reg.len(), 2);
    assert_eq!(record(&reg, 0), sold);
    assert_eq!(record(&reg, 1), open);
    assert_eq!(reg.namespace(), key(9));
    assert!(InvoiceRegistry::from_records(key(9), vec![]).is_ok());
}

#[test]
fn registry_rejects_malformed_records() {
    let good = InvoiceState {
        id: 0,
        supplier: key(1),
        price: 5,
        borrower_name: "Samsung".to_string(),
        is_sold: false,
        new_owner: None,
        reserved_by: None,
    };
    let bad_id = InvoiceState { id: 1, ..good.clone() };
    let no_owner = InvoiceState { is_sold: true, ..good.clone() };
    let owner_unsold = InvoiceState { new_owner: Some(key(2)), ..good.clone() };
    let free = InvoiceState { price: 0, ..good.clone() };
    let sold_reserved =
        InvoiceState { is_sold: true, new_owner: Some(key(2)), reserved_by: Some(key(3)), ..good.clone() };
    let long_name = InvoiceState { borrower_name: "y".repeat(51), ..good.clone() };
    for rec in [bad_id, no_owner, owner_unsold, free, sold_reserved, long_name] {
        assert_eq!(InvoiceRegistry::from_records(key(9), vec![rec]).err(), Some(ErrorCode::InvalidInput));
    }
    assert_eq!(
        InvoiceRegistry::from_records(key(9), vec![good.clone(), good.clone()]).err(),
        Some(ErrorCode::InvalidInput)
    );
}
