use vstd::prelude::*;
use crate::error::ContractError;
use crate::invoice::{funds_view, CoinV, Invoice, InvoiceV, MessageInfo};
use crate::store;
use crate::store::{addr_ok, ledger_of, LedgerV};
use crate::Response;

verus! {

// The two state-mutating operations. Each is specified by a pair of spec
// functions: one giving the exact error (if any) an input produces, the
// other the ledger state a successful call leaves behind.

/// The counter value of a ledger, when the counter record exists.
pub open spec fn counter_val(l: LedgerV) -> u64 {
    match l.counter {
        Some(c) => c,
        None => 0,
    }
}

/// The id list an issuer's index holds, empty when the issuer has none.
pub open spec fn index_or_empty(l: LedgerV, a: Seq<char>) -> Seq<u64> {
    if l.index.contains_key(a) {
        l.index[a]
    } else {
        Seq::empty()
    }
}

/// The error a create call returns, or `None` when it succeeds: the
/// recipient must be a well-formed address, distinct from the caller, the
/// amount strictly positive, and the counter record present.
pub open spec fn create_error(l: LedgerV, sender: Seq<char>, recipient: Seq<char>, amount: u128) -> Option<ContractError> {
    if !addr_ok(recipient) {
        Some(ContractError::InvalidAddress)
    } else if sender == recipient {
        Some(ContractError::SelfInvoice)
    } else if amount == 0 {
        Some(ContractError::ZeroAmount)
    } else if l.counter is None {
        Some(ContractError::Storage)
    } else {
        None
    }
}

/// The invoice a successful create stores: fully formed, not yet paid.
pub open spec fn new_invoice(id: u64, issuer: Seq<char>, recipient: Seq<char>, amount: u128, description: Seq<char>, due_date: u64) -> InvoiceV {
    InvoiceV { id, issuer, recipient, amount, description, due_date, is_paid: false }
}

/// The ledger a successful create leaves behind: the current counter value
/// becomes the new invoice's id, the counter advances by one, and the id is
/// appended to the issuer's index.
pub open spec fn create_step(l: LedgerV, sender: Seq<char>, recipient: Seq<char>, amount: u128, description: Seq<char>, due_date: u64) -> LedgerV {
    let id = counter_val(l);
    LedgerV {
        counter: Some((id + 1) as u64),
        invoices: l.invoices.insert(id, new_invoice(id, sender, recipient, amount, description, due_date)),
        index: l.index.insert(sender, index_or_empty(l, sender).push(id)),
    }
}

/// Creates an invoice from the caller to the given recipient. Succeeds, with
/// the effect of `create_step` and the assigned id in the response, exactly
/// when `create_error` allows; any error leaves the ledger unchanged.
pub fn execute_create_invoice(
    store: &mut cosmwasm_std::MemoryStorage,
    info: &MessageInfo,
    recipient: String,
    amount: u128,
    description: String,
    due_date: u64,
) -> (r: Result<Response, ContractError>)
    requires
        store::counter_of(*old(store)) matches Some(c) ==> c < u64::MAX,
    ensures
        match r {
            Ok(resp) => {
                &&& create_error(ledger_of(*old(store)), info.sender@, recipient@, amount) is None
                &&& ledger_of(*final(store)) == create_step(ledger_of(*old(store)), info.sender@, recipient@, amount, description@, due_date)
                &&& (resp matches Response::Create { issuer, recipient: rec, invoice_id }
                    && issuer@ == info.sender@
                    && rec@ == recipient@
                    && invoice_id == counter_val(ledger_of(*old(store))))
            },
            Err(e) => {
                &&& Some(e) == create_error(ledger_of(*old(store)), info.sender@, recipient@, amount)
                &&& ledger_of(*final(store)) == ledger_of(*old(store))
            },
        },
{
    let recipient_addr = match store::validate_address(recipient.as_str()) {
        Some(a) => a,
        None => {
            return Err(ContractError::InvalidAddress);
        },
    };
    if info.sender == recipient_addr {
        return Err(ContractError::SelfInvoice);
    }
    if amount == 0 {
        return Err(ContractError::ZeroAmount);
    }

    let id = match store::counter_get(store) {
        Some(c) => c,
        None => {
            return Err(ContractError::Storage);
        },
    };
    store::counter_set(store, id + 1);

    let invoice = Invoice {
        id,
        issuer: info.sender.clone(),
        recipient: recipient_addr,
        amount,
        description,
        due_date,
        is_paid: false,
    };
    store::invoice_put(store, id, &invoice);

    let mut user_invoices = match store::index_get(store, info.sender.as_str()) {
        Some(ids) => ids,
        None => Vec::new(),
    };
    user_invoices.push(id);
    store::index_put(store, info.sender.as_str(), &user_invoices);

    Ok(Response::Create { issuer: info.sender.clone(), recipient, invoice_id: id })
}

/// Whether attached funds settle an invoice of the given amount: exactly one
/// entry, of exactly that amount.
pub open spec fn funds_exact(funds: Seq<CoinV>, amount: u128) -> bool {
    funds.len() == 1 && funds[0].amount == amount
}

/// The error a pay call returns, or `None` when it succeeds: the invoice
/// must exist, the caller must be its recipient, it must not be paid yet,
/// and the attached funds must match its amount exactly.
pub open spec fn pay_error(l: LedgerV, caller: Seq<char>, id: u64, funds: Seq<CoinV>) -> Option<ContractError> {
    if !l.invoices.contains_key(id) {
        Some(ContractError::InvoiceNotFound)
    } else if l.invoices[id].recipient != caller {
        Some(ContractError::Unauthorized)
    } else if l.invoices[id].is_paid {
        Some(ContractError::AlreadyPaid)
    } else if !funds_exact(funds, l.invoices[id].amount) {
        Some(ContractError::IncorrectPayment)
    } else {
        None
    }
}

/// The ledger a successful pay leaves behind: the one invoice's `is_paid`
/// flag becomes true; counter and index are untouched.
pub open spec fn pay_step(l: LedgerV, id: u64) -> LedgerV {
    LedgerV {
        counter: l.counter,
        invoices: l.invoices.insert(id, InvoiceV { is_paid: true, ..l.invoices[id] }),
        index: l.index,
    }
}

/// Pays an invoice with the funds attached to the call. Succeeds, with the
/// effect of `pay_step`, exactly when `pay_error` allows; any error leaves
/// the ledger unchanged.
pub fn execute_pay_invoice(
    store: &mut cosmwasm_std::MemoryStorage,
    info: &MessageInfo,
    invoice_id: u64,
) -> (r: Result<Response, ContractError>)
    ensures
        match r {
            Ok(resp) => {
                &&& pay_error(ledger_of(*old(store)), info.sender@, invoice_id, funds_view(info.funds@)) is None
                &&& ledger_of(*final(store)) == pay_step(ledger_of(*old(store)), invoice_id)
                &&& (resp matches Response::Pay { payer, invoice_id: iid }
                    && payer@ == info.sender@
                    && iid == invoice_id)
            },
            Err(e) => {
                &&& Some(e) == pay_error(ledger_of(*old(store)), info.sender@, invoice_id, funds_view(info.funds@))
                &&& ledger_of(*final(store)) == ledger_of(*old(store))
            },
        },
{
    let mut invoice = match store::invoice_get(store, invoice_id) {
        Some(inv) => inv,
        None => {
            return Err(ContractError::InvoiceNotFound);
        },
    };
    if invoice.recipient != info.sender {
        return Err(ContractError::Unauthorized);
    }
    if invoice.is_paid {
        return Err(ContractError::AlreadyPaid);
    }
    if info.funds.len() != 1 || info.funds[0].amount != invoice.amount {
        return Err(ContractError::IncorrectPayment);
    }

    invoice.is_paid = true;
    store::invoice_put(store, invoice_id, &invoice);

    Ok(Response::Pay { payer: info.sender.clone(), invoice_id })
}

} // verus!
