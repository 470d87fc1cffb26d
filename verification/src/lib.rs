//! A minimal invoicing ledger: parties issue invoice records to one another
//! and settle them with an exact-amount payment, all state kept in a
//! persistent key-value store. The host runtime resolves the caller identity
//! and attached funds and serializes calls; this crate owns the business
//! rules, the storage layout, and the read-only queries over it.

use vstd::prelude::*;

pub mod attributes;
pub mod error;
pub mod invoice;
pub mod laws;
pub mod ledger;
pub mod query;
pub mod store;

pub use error::ContractError;
pub use invoice::{Coin, Invoice, MessageInfo};
pub use ledger::{execute_create_invoice, execute_pay_invoice};
pub use query::{query_invoice, query_user_invoices};
pub use store::{addr_ok, counter_of, index_of, invoices_of, ledger_of, LedgerV};

verus! {

/// Message that initializes the ledger; it carries no parameters.
#[derive(Clone, Debug, PartialEq)]
pub struct InstantiateMsg {}

/// The state-mutating operations the ledger offers.
#[derive(Clone, Debug, PartialEq)]
pub enum ExecuteMsg {
    CreateInvoice { recipient: String, amount: u128, description: String, due_date: u64 },
    PayInvoice { invoice_id: u64 },
}

/// The read-only queries the ledger answers.
#[derive(Clone, Debug, PartialEq)]
pub enum QueryMsg {
    GetInvoice { invoice_id: u64 },
    GetUserInvoices { user: String },
}

/// What a successful mutating call reports back: the action performed and
/// the parties and invoice id involved.
#[derive(Clone, Debug, PartialEq)]
pub enum Response {
    Instantiate,
    Create { issuer: String, recipient: String, invoice_id: u64 },
    Pay { payer: String, invoice_id: u64 },
}

/// What a query answers with: one invoice, or the list a user issued.
#[derive(Clone, Debug, PartialEq)]
pub enum QueryResponse {
    Invoice(Invoice),
    UserInvoices(Vec<Invoice>),
}

/// The id the next successful create will assign, when the ledger has been
/// initialized. Callers outside verified code use it to rule out counter
/// overflow before a create.
pub fn next_invoice_id(store: &cosmwasm_std::MemoryStorage) -> (r: Option<u64>)
    ensures
        r == store::counter_of(*store),
{
    store::counter_get(store)
}

/// Initializes the ledger: the id counter starts at 1; nothing else changes.
pub fn instantiate(store: &mut cosmwasm_std::MemoryStorage, _msg: InstantiateMsg) -> (r: Response)
    ensures
        store::counter_of(*final(store)) == Some(1u64),
        store::invoices_of(*final(store)) == store::invoices_of(*old(store)),
        store::index_of(*final(store)) == store::index_of(*old(store)),
        r is Instantiate,
{
    store::counter_set(store, 1);
    Response::Instantiate
}

/// Dispatches a mutating call to the operation it names; the contracts of
/// `execute_create_invoice` and `execute_pay_invoice` carry over unchanged.
pub fn execute(store: &mut cosmwasm_std::MemoryStorage, info: &MessageInfo, msg: ExecuteMsg) -> (r: Result<Response, ContractError>)
    requires
        msg is CreateInvoice ==> (store::counter_of(*old(store)) matches Some(c) ==> c < u64::MAX),
    ensures
        match msg {
            ExecuteMsg::CreateInvoice { recipient, amount, description, due_date } => match r {
                Ok(resp) => {
                    &&& ledger::create_error(store::ledger_of(*old(store)), info.sender@, recipient@, amount) is None
                    &&& store::ledger_of(*final(store)) == ledger::create_step(store::ledger_of(*old(store)), info.sender@, recipient@, amount, description@, due_date)
                    &&& (resp matches Response::Create { issuer, recipient: rec, invoice_id }
                        && issuer@ == info.sender@
                        && rec@ == recipient@
                        && invoice_id == ledger::counter_val(store::ledger_of(*old(store))))
                },
                Err(e) => {
                    &&& Some(e) == ledger::create_error(store::ledger_of(*old(store)), info.sender@, recipient@, amount)
                    &&& store::ledger_of(*final(store)) == store::ledger_of(*old(store))
                },
            },
            ExecuteMsg::PayInvoice { invoice_id } => match r {
                Ok(resp) => {
                    &&& ledger::pay_error(store::ledger_of(*old(store)), info.sender@, invoice_id, invoice::funds_view(info.funds@)) is None
                    &&& store::ledger_of(*final(store)) == ledger::pay_step(store::ledger_of(*old(store)), invoice_id)
                    &&& (resp matches Response::Pay { payer, invoice_id: iid }
                        && payer@ == info.sender@
                        && iid == invoice_id)
                },
                Err(e) => {
                    &&& Some(e) == ledger::pay_error(store::ledger_of(*old(store)), info.sender@, invoice_id, invoice::funds_view(info.funds@))
                    &&& store::ledger_of(*final(store)) == store::ledger_of(*old(store))
                },
            },
        },
{
    match msg {
        ExecuteMsg::CreateInvoice { recipient, amount, description, due_date } => {
            ledger::execute_create_invoice(store, info, recipient, amount, description, due_date)
        },
        ExecuteMsg::PayInvoice { invoice_id } => ledger::execute_pay_invoice(store, info, invoice_id),
    }
}

/// Dispatches a read-only call to the query it names; the contracts of
/// `query_invoice` and `query_user_invoices` carry over unchanged.
pub fn query(store: &cosmwasm_std::MemoryStorage, msg: QueryMsg) -> (r: Result<QueryResponse, ContractError>)
    ensures
        match msg {
            QueryMsg::GetInvoice { invoice_id } => match r {
                Ok(resp) => (resp matches QueryResponse::Invoice(inv)
                    && store::invoices_of(*store).contains_key(invoice_id)
                    && inv@ == store::invoices_of(*store)[invoice_id]),
                Err(e) => e == ContractError::InvoiceNotFound && !store::invoices_of(*store).contains_key(invoice_id),
            },
            QueryMsg::GetUserInvoices { user } => match r {
                Ok(resp) => (resp matches QueryResponse::UserInvoices(invs)
                    && store::addr_ok(user@)
                    && invs@.map_values(|inv: Invoice| inv@)
                        == query::collect_invoices(store::invoices_of(*store), ledger::index_or_empty(store::ledger_of(*store), user@))),
                Err(e) => e == ContractError::InvalidAddress && !store::addr_ok(user@),
            },
        },
{
    match msg {
        QueryMsg::GetInvoice { invoice_id } => match query::query_invoice(store, invoice_id) {
            Ok(inv) => Ok(QueryResponse::Invoice(inv)),
            Err(e) => Err(e),
        },
        QueryMsg::GetUserInvoices { user } => match query::query_user_invoices(store, user) {
            Ok(invs) => Ok(QueryResponse::UserInvoices(invs)),
            Err(e) => Err(e),
        },
    }
}

} // verus!

