use vstd::prelude::*;

verus! {

/// One invoice record: an amount the recipient owes the issuer, with its
/// payment status. Created fully formed with `is_paid` false; the only later
/// mutation flips `is_paid` to true.
#[derive(Clone, Debug, PartialEq)]
pub struct Invoice {
    pub id: u64,
    pub issuer: String,
    pub recipient: String,
    pub amount: u128,
    pub description: String,
    pub due_date: u64,
    pub is_paid: bool,
}

/// Mathematical image of an `Invoice`: strings become character sequences.
pub struct InvoiceV {
    pub id: u64,
    pub issuer: Seq<char>,
    pub recipient: Seq<char>,
    pub amount: u128,
    pub description: Seq<char>,
    pub due_date: u64,
    pub is_paid: bool,
}

impl View for Invoice {
    type V = InvoiceV;

    open spec fn view(&self) -> InvoiceV {
        InvoiceV {
            id: self.id,
            issuer: self.issuer@,
            recipient: self.recipient@,
            amount: self.amount,
            description: self.description@,
            due_date: self.due_date,
            is_paid: self.is_paid,
        }
    }
}

/// One entry of the funds attached to a call: a denomination and an amount.
#[derive(Clone, Debug, PartialEq)]
pub struct Coin {
    pub denom: String,
    pub amount: u128,
}

/// Mathematical image of a `Coin`.
pub struct CoinV {
    pub denom: Seq<char>,
    pub amount: u128,
}

impl View for Coin {
    type V = CoinV;

    open spec fn view(&self) -> CoinV {
        CoinV { denom: self.denom@, amount: self.amount }
    }
}

/// What the host supplies about the current call: the (already validated)
/// caller address and the funds attached to the call.
#[derive(Clone, Debug, PartialEq)]
pub struct MessageInfo {
    pub sender: String,
    pub funds: Vec<Coin>,
}

/// The attached funds as a sequence of coin images.
pub open spec fn funds_view(funds: Seq<Coin>) -> Seq<CoinV> {
    funds.map_values(|c: Coin| c@)
}

} // verus!
