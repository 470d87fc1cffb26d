use vstd::prelude::*;
use crate::Response;

verus! {

broadcast use vstd::string::to_string_from_display_ensures_for_str;

// The key/value attributes a successful mutating call reports to observers.
// Their exact keys and values are part of the ledger's interface.

/// The decimal digit character for one value below ten.
pub open spec fn dec_digit(d: nat) -> char {
    if d == 0 { '0' }
    else if d == 1 { '1' }
    else if d == 2 { '2' }
    else if d == 3 { '3' }
    else if d == 4 { '4' }
    else if d == 5 { '5' }
    else if d == 6 { '6' }
    else if d == 7 { '7' }
    else if d == 8 { '8' }
    else { '9' }
}

/// The decimal rendering of a number: its digits, most significant first,
/// with no sign and no padding.
pub open spec fn dec_str(v: nat) -> Seq<char>
    decreases v,
{
    if v < 10 {
        seq![dec_digit(v)]
    } else {
        dec_str(v / 10).push(dec_digit(v % 10))
    }
}

/// Relies on u64's `Display` implementation (through `ToString`): the decimal
/// digits of the value, most significant first, no sign, no padding.
#[verifier::external_body]
fn u64_to_decimal(v: u64) -> (r: String)
    ensures
        r@ == dec_str(v as nat),
{
    v.to_string()
}

/// The attributes observers see for each result: the action name, the
/// parties involved, and the invoice id in decimal.
pub open spec fn attributes_of(resp: Response) -> Seq<(Seq<char>, Seq<char>)> {
    match resp {
        Response::Instantiate => seq![("action"@, "instantiate"@)],
        Response::Create { issuer, recipient, invoice_id } => seq![
            ("action"@, "create_invoice"@),
            ("issuer"@, issuer@),
            ("recipient"@, recipient@),
            ("invoice_id"@, dec_str(invoice_id as nat)),
        ],
        Response::Pay { payer, invoice_id } => seq![
            ("action"@, "pay_invoice"@),
            ("payer"@, payer@),
            ("invoice_id"@, dec_str(invoice_id as nat)),
        ],
    }
}

impl Response {
    /// Renders the result as its exact key/value attribute list.
    pub fn attributes(&self) -> (r: Vec<(String, String)>)
        ensures
            r@.map_values(|p: (String, String)| (p.0@, p.1@)) == attributes_of(*self),
    {
        let mut r: Vec<(String, String)> = Vec::new();
        match self {
            Response::Instantiate => {
                r.push(("action".to_string(), "instantiate".to_string()));
            },
            Response::Create { issuer, recipient, invoice_id } => {
                r.push(("action".to_string(), "create_invoice".to_string()));
                r.push(("issuer".to_string(), issuer.clone()));
                r.push(("recipient".to_string(), recipient.clone()));
                r.push(("invoice_id".to_string(), u64_to_decimal(*invoice_id)));
            },
            Response::Pay { payer, invoice_id } => {
                r.push(("action".to_string(), "pay_invoice".to_string()));
                r.push(("payer".to_string(), payer.clone()));
                r.push(("invoice_id".to_string(), u64_to_decimal(*invoice_id)));
            },
        }
        proof {
            assert(r@.map_values(|p: (String, String)| (p.0@, p.1@)) =~= attributes_of(*self));
        }
        r
    }
}

} // verus!
