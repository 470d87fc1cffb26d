use vstd::prelude::*;

verus! {

/// Every way a ledger or query operation can fail. Each operation's contract
/// states exactly which inputs produce which variant.
#[derive(Clone, Copy, Debug, PartialEq, Eq, Structural)]
pub enum ContractError {
    /// The recipient or user string is not a well-formed address.
    InvalidAddress,
    /// The caller tried to create an invoice naming itself as recipient.
    SelfInvoice,
    /// The invoice amount is not strictly positive.
    ZeroAmount,
    /// The id counter record is missing from the store (the ledger was
    /// never initialized), an infrastructure failure.
    Storage,
    /// No invoice is stored under the requested id.
    InvoiceNotFound,
    /// Someone other than the invoice's recipient tried to pay it.
    Unauthorized,
    /// The invoice has already been paid.
    AlreadyPaid,
    /// The attached funds are not a single entry of exactly the invoice amount.
    IncorrectPayment,
}

} // verus!
