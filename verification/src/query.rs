use vstd::prelude::*;
use crate::error::ContractError;
use crate::invoice::{Invoice, InvoiceV};
use crate::ledger::index_or_empty;
use crate::store;
use crate::store::{addr_ok, invoices_of, ledger_of};

verus! {

// Read-only projections over the ledger. Neither query mutates the store.

/// The invoices stored under a list of ids, in list order, silently skipping
/// any id with no stored record.
pub open spec fn collect_invoices(invs: Map<u64, InvoiceV>, ids: Seq<u64>) -> Seq<InvoiceV>
    decreases ids.len(),
{
    if ids.len() == 0 {
        Seq::empty()
    } else {
        let rest = collect_invoices(invs, ids.drop_last());
        if invs.contains_key(ids.last()) {
            rest.push(invs[ids.last()])
        } else {
            rest
        }
    }
}

/// Loads one invoice by id; fails `InvoiceNotFound` exactly when no record
/// is stored under it.
pub fn query_invoice(store: &cosmwasm_std::MemoryStorage, invoice_id: u64) -> (r: Result<Invoice, ContractError>)
    ensures
        match r {
            Ok(inv) => invoices_of(*store).contains_key(invoice_id) && inv@ == invoices_of(*store)[invoice_id],
            Err(e) => e == ContractError::InvoiceNotFound && !invoices_of(*store).contains_key(invoice_id),
        },
{
    match store::invoice_get(store, invoice_id) {
        Some(inv) => Ok(inv),
        None => Err(ContractError::InvoiceNotFound),
    }
}

/// Lists the invoices a user issued, in creation order: the user's index is
/// read (empty if absent) and each listed id is loaded, skipping ids whose
/// record is missing. Fails `InvalidAddress` exactly when the user string is
/// not a well-formed address.
pub fn query_user_invoices(store: &cosmwasm_std::MemoryStorage, user: String) -> (r: Result<Vec<Invoice>, ContractError>)
    ensures
        match r {
            Ok(invs) => addr_ok(user@)
                && invs@.map_values(|inv: Invoice| inv@)
                    == collect_invoices(invoices_of(*store), index_or_empty(ledger_of(*store), user@)),
            Err(e) => e == ContractError::InvalidAddress && !addr_ok(user@),
        },
{
    let user_addr = match store::validate_address(user.as_str()) {
        Some(a) => a,
        None => {
            return Err(ContractError::InvalidAddress);
        },
    };
    let invoice_ids = match store::index_get(store, user_addr.as_str()) {
        Some(ids) => ids,
        None => Vec::new(),
    };

    let ghost all_ids: Seq<u64> = invoice_ids@;
    let mut invoices: Vec<Invoice> = Vec::new();
    let n = invoice_ids.len();
    let mut i: usize = 0;
    while i < n
        invariant
            n == all_ids.len(),
            i <= n,
            invoice_ids@ == all_ids,
            invoices@.map_values(|inv: Invoice| inv@)
                == collect_invoices(invoices_of(*store), all_ids.take(i as int)),
        decreases n - i,
    {
        proof {
            assert(all_ids.take(i + 1).drop_last() =~= all_ids.take(i as int));
            assert(all_ids.take(i + 1).last() == all_ids[i as int]);
        }
        match store::invoice_get(store, invoice_ids[i]) {
            Some(inv) => {
                invoices.push(inv);
                proof {
                    assert(invoices@.map_values(|inv: Invoice| inv@)
                        =~= invoices@.drop_last().map_values(|inv: Invoice| inv@).push(invoices@.last()@));
                }
            },
            None => {},
        }
        i = i + 1;
    }
    proof {
        assert(all_ids.take(n as int) =~= all_ids);
    }
    Ok(invoices)
}

} // verus!
