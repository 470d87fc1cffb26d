use vstd::prelude::*;
use crate::invoice::{Invoice, InvoiceV};
use cosmwasm_std::Api;

verus! {

// The persistent key-value store the host hands to every operation. The
// ledger keeps three disjoint tables in it: the id counter, the invoice
// table keyed by id, and the per-issuer index keyed by address. Each table
// is named below by an uninterpreted projection, and every access goes
// through one of the trusted wrappers, whose contracts describe the calls
// into `cw_storage_plus`.

#[verifier::external_type_specification]
#[verifier::external_body]
pub struct ExMemoryStorage(cosmwasm_std::MemoryStorage);

/// The counter table: the next id to assign, if the record exists.
pub uninterp spec fn counter_of(s: cosmwasm_std::MemoryStorage) -> Option<u64>;

/// The invoice table: every id whose record is present and well-formed,
/// mapped to the invoice stored under it.
pub uninterp spec fn invoices_of(s: cosmwasm_std::MemoryStorage) -> Map<u64, InvoiceV>;

/// The issuer index: every address with an index record, mapped to the
/// ordered list of invoice ids that address issued.
pub uninterp spec fn index_of(s: cosmwasm_std::MemoryStorage) -> Map<Seq<char>, Seq<u64>>;

/// Whether the host accepts a string as a well-formed address.
pub uninterp spec fn addr_ok(s: Seq<char>) -> bool;

/// Relies on cw_storage_plus::Item::may_load: reads the counter record,
/// returning its value when present and readable, and nothing otherwise.
#[verifier::external_body]
pub(crate) fn counter_get(store: &cosmwasm_std::MemoryStorage) -> (r: Option<u64>)
    ensures
        r == counter_of(*store),
{
    let item: cw_storage_plus::Item<u64> = cw_storage_plus::Item::new("next_invoice_id");
    item.may_load(store).ok().flatten()
}

/// Relies on cw_storage_plus::Item::save: writes the counter record and
/// touches no other key. Serializing an integer into a fresh buffer cannot
/// fail, so the write always lands.
#[verifier::external_body]
pub(crate) fn counter_set(store: &mut cosmwasm_std::MemoryStorage, value: u64)
    ensures
        counter_of(*final(store)) == Some(value),
        invoices_of(*final(store)) == invoices_of(*old(store)),
        index_of(*final(store)) == index_of(*old(store)),
{
    let item: cw_storage_plus::Item<u64> = cw_storage_plus::Item::new("next_invoice_id");
    item.save(store, &value).unwrap();
}

/// Relies on cw_storage_plus::Map::may_load: reads the invoice table at one
/// id, returning the stored record when present and readable.
#[verifier::external_body]
pub(crate) fn invoice_get(store: &cosmwasm_std::MemoryStorage, id: u64) -> (r: Option<Invoice>)
    ensures
        r matches Some(inv) ==> invoices_of(*store).contains_key(id) && inv@ == invoices_of(*store)[id],
        r is None ==> !invoices_of(*store).contains_key(id),
{
    let table: cw_storage_plus::Map<u64, (u64, String, String, cosmwasm_std::Uint128, String, u64, bool)> =
        cw_storage_plus::Map::new("invoices");
    let rec = table.may_load(store, id).ok().flatten();
    rec.map(|(id, issuer, recipient, amount, description, due_date, is_paid)| Invoice {
        id, issuer, recipient, amount: amount.u128(), description, due_date, is_paid,
    })
}

/// Relies on cw_storage_plus::Map::save: writes the invoice table at the
/// invoice's id and touches no other key. Serializing integers, booleans and
/// strings into a fresh buffer cannot fail, so the write always lands, and
/// reading the key back yields the record just written.
#[verifier::external_body]
pub(crate) fn invoice_put(store: &mut cosmwasm_std::MemoryStorage, id: u64, inv: &Invoice)
    ensures
        invoices_of(*final(store)) == invoices_of(*old(store)).insert(id, inv@),
        counter_of(*final(store)) == counter_of(*old(store)),
        index_of(*final(store)) == index_of(*old(store)),
{
    let table: cw_storage_plus::Map<u64, (u64, String, String, cosmwasm_std::Uint128, String, u64, bool)> =
        cw_storage_plus::Map::new("invoices");
    let rec = (inv.id, inv.issuer.clone(), inv.recipient.clone(),
        cosmwasm_std::Uint128::new(inv.amount), inv.description.clone(), inv.due_date, inv.is_paid);
    table.save(store, id, &rec).unwrap();
}

/// Relies on cw_storage_plus::Map::may_load: reads the issuer index at one
/// address, returning the stored id list when present and readable.
#[verifier::external_body]
pub(crate) fn index_get(store: &cosmwasm_std::MemoryStorage, addr: &str) -> (r: Option<Vec<u64>>)
    ensures
        r matches Some(ids) ==> index_of(*store).contains_key(addr@) && ids@ == index_of(*store)[addr@],
        r is None ==> !index_of(*store).contains_key(addr@),
{
    let table: cw_storage_plus::Map<cosmwasm_std::Addr, Vec<u64>> =
        cw_storage_plus::Map::new("user_invoices");
    table.may_load(store, cosmwasm_std::Addr::unchecked(addr)).ok().flatten()
}

/// Relies on cw_storage_plus::Map::save: writes the issuer index at one
/// address and touches no other key. Serializing a list of integers into a
/// fresh buffer cannot fail, so the write always lands.
#[verifier::external_body]
pub(crate) fn index_put(store: &mut cosmwasm_std::MemoryStorage, addr: &str, ids: &Vec<u64>)
    ensures
        index_of(*final(store)) == index_of(*old(store)).insert(addr@, ids@),
        counter_of(*final(store)) == counter_of(*old(store)),
        invoices_of(*final(store)) == invoices_of(*old(store)),
{
    let table: cw_storage_plus::Map<cosmwasm_std::Addr, Vec<u64>> =
        cw_storage_plus::Map::new("user_invoices");
    table.save(store, cosmwasm_std::Addr::unchecked(addr), ids).unwrap();
}

/// Relies on cosmwasm_std::testing::MockApi::addr_validate: whether a string
/// is accepted is a fixed function of the string alone, and on success the
/// input is handed back unchanged.
#[verifier::external_body]
pub(crate) fn validate_address(input: &str) -> (r: Option<String>)
    ensures
        r matches Some(a) ==> addr_ok(input@) && a@ == input@,
        r is None ==> !addr_ok(input@),
{
    match cosmwasm_std::testing::MockApi::default().addr_validate(input) {
        Ok(a) => Some(a.into_string()),
        Err(_) => None,
    }
}

/// The whole ledger state as one mathematical value: the three projections
/// of the store together.
pub struct LedgerV {
    pub counter: Option<u64>,
    pub invoices: Map<u64, InvoiceV>,
    pub index: Map<Seq<char>, Seq<u64>>,
}

/// The ledger state held in a store.
pub open spec fn ledger_of(s: cosmwasm_std::MemoryStorage) -> LedgerV {
    LedgerV {
        counter: counter_of(s),
        invoices: invoices_of(s),
        index: index_of(s),
    }
}

} // verus!
