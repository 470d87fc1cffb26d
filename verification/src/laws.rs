use vstd::prelude::*;
use crate::error::ContractError;
use crate::invoice::CoinV;
use crate::ledger::{counter_val, create_error, create_step, funds_exact, index_or_empty, pay_error, pay_step};
use crate::query::collect_invoices;
use crate::store::LedgerV;

verus! {

// The laws the ledger obeys, stated over the spec-level transitions that the
// executable operations are proved to implement (`create_step`, `pay_step`,
// `create_error`, `pay_error`, `collect_invoices`).

/// The arguments of one create call, at the spec level.
pub struct CreateReq {
    pub sender: Seq<char>,
    pub recipient: Seq<char>,
    pub amount: u128,
    pub description: Seq<char>,
    pub due_date: u64,
}

/// `create_step` applied to one request.
pub open spec fn create_step_req(l: LedgerV, q: CreateReq) -> LedgerV {
    create_step(l, q.sender, q.recipient, q.amount, q.description, q.due_date)
}

/// Whether every request in the sequence, applied in order, succeeds.
pub open spec fn all_succeed(l: LedgerV, reqs: Seq<CreateReq>) -> bool
    decreases reqs.len(),
{
    reqs.len() == 0 || {
        &&& create_error(l, reqs[0].sender, reqs[0].recipient, reqs[0].amount) is None
        &&& all_succeed(create_step_req(l, reqs[0]), reqs.skip(1))
    }
}

/// The ledger after every request in the sequence, applied in order.
pub open spec fn apply_creates(l: LedgerV, reqs: Seq<CreateReq>) -> LedgerV
    decreases reqs.len(),
{
    if reqs.len() == 0 {
        l
    } else {
        apply_creates(create_step_req(l, reqs[0]), reqs.skip(1))
    }
}

/// The ids the requests are assigned, in call order.
pub open spec fn ids_assigned(l: LedgerV, reqs: Seq<CreateReq>) -> Seq<u64>
    decreases reqs.len(),
{
    if reqs.len() == 0 {
        Seq::empty()
    } else {
        seq![counter_val(l)] + ids_assigned(create_step_req(l, reqs[0]), reqs.skip(1))
    }
}

/// Internal consistency of a ledger state: every stored invoice has an id
/// below the counter, and every id listed in the issuer index has a stored
/// invoice. Instantiation establishes it (the fresh ledger holds nothing)
/// and both operations preserve it.
pub open spec fn ledger_inv(l: LedgerV) -> bool {
    &&& forall|id: u64| #[trigger] l.invoices.contains_key(id) ==> l.counter is Some && id < counter_val(l)
    &&& forall|a: Seq<char>, k: int|
        l.index.contains_key(a) && 0 <= k < l.index[a].len()
            ==> l.invoices.contains_key(#[trigger] l.index[a][k])
}

/// A ledger holding nothing is consistent, whatever its counter says.
pub proof fn lemma_empty_ledger_inv(counter: Option<u64>)
    ensures
        ledger_inv(LedgerV { counter, invoices: Map::empty(), index: Map::empty() }),
{
}

/// A successful create preserves ledger consistency.
pub proof fn lemma_create_preserves_inv(l: LedgerV, q: CreateReq)
    requires
        ledger_inv(l),
        create_error(l, q.sender, q.recipient, q.amount) is None,
        counter_val(l) < u64::MAX,
    ensures
        ledger_inv(create_step_req(l, q)),
{
    let l2 = create_step_req(l, q);
    let id = counter_val(l);
    assert forall|a: Seq<char>, k: int|
        l2.index.contains_key(a) && 0 <= k < l2.index[a].len()
            implies l2.invoices.contains_key(#[trigger] l2.index[a][k]) by {
        if a == q.sender && k == l2.index[a].len() - 1 {
            assert(l2.index[a][k] == id);
        } else {
            assert(l2.index[a][k] == index_or_empty(l, a)[k]);
        }
    }
}

/// A successful pay preserves ledger consistency.
pub proof fn lemma_pay_preserves_inv(l: LedgerV, id: u64)
    requires
        ledger_inv(l),
        l.invoices.contains_key(id),
    ensures
        ledger_inv(pay_step(l, id)),
{
}

/// Monotonic unique ids: from a ledger whose counter reads `c`, a run of
/// successful creates is assigned exactly the ids `c, c + 1, c + 2, ...` in
/// call order, with no gap and no repeat. After instantiation `c` is 1, so
/// the ids are 1, 2, 3, ...
pub proof fn lemma_monotonic_unique_ids(l: LedgerV, reqs: Seq<CreateReq>)
    requires
        l.counter is Some,
        all_succeed(l, reqs),
        counter_val(l) + reqs.len() <= u64::MAX,
    ensures
        ids_assigned(l, reqs) == Seq::new(reqs.len(), |k: int| (counter_val(l) + k) as u64),
    decreases reqs.len(),
{
    let c = counter_val(l);
    if reqs.len() == 0 {
        assert(ids_assigned(l, reqs) =~= Seq::new(0, |k: int| (c + k) as u64));
    } else {
        let l2 = create_step_req(l, reqs[0]);
        lemma_monotonic_unique_ids(l2, reqs.skip(1));
        assert(counter_val(l2) == c + 1);
        assert(ids_assigned(l, reqs) =~= Seq::new(reqs.len(), |k: int| (c + k) as u64));
    }
}

/// Self-invoice rejection: whenever the recipient resolves equal to the
/// caller, create fails with `SelfInvoice`, whatever the amount.
pub proof fn lemma_self_invoice_rejected(l: LedgerV, sender: Seq<char>, recipient: Seq<char>, amount: u128)
    requires
        crate::store::addr_ok(recipient),
        sender == recipient,
    ensures
        create_error(l, sender, recipient, amount) == Some(ContractError::SelfInvoice),
{
}

/// Zero-amount rejection: a create whose amount is zero fails with
/// `ZeroAmount`, once the recipient is well formed and not the caller.
pub proof fn lemma_zero_amount_rejected(l: LedgerV, sender: Seq<char>, recipient: Seq<char>)
    requires
        crate::store::addr_ok(recipient),
        sender != recipient,
    ensures
        create_error(l, sender, recipient, 0) == Some(ContractError::ZeroAmount),
{
}

/// Payment exactness: for an existing, unpaid invoice paid by its recipient,
/// the call succeeds exactly when the funds are a single entry of exactly
/// the invoice amount, and fails `IncorrectPayment` otherwise.
pub proof fn lemma_payment_exactness(l: LedgerV, caller: Seq<char>, id: u64, funds: Seq<CoinV>)
    requires
        l.invoices.contains_key(id),
        l.invoices[id].recipient == caller,
        !l.invoices[id].is_paid,
    ensures
        pay_error(l, caller, id, funds) is None <==> funds_exact(funds, l.invoices[id].amount),
        !funds_exact(funds, l.invoices[id].amount) ==> pay_error(l, caller, id, funds) == Some(ContractError::IncorrectPayment),
{
}

/// Authorization: a pay call by anyone but the invoice's recipient fails
/// `Unauthorized`, whatever funds are attached.
pub proof fn lemma_authorization(l: LedgerV, caller: Seq<char>, id: u64, funds: Seq<CoinV>)
    requires
        l.invoices.contains_key(id),
        l.invoices[id].recipient != caller,
    ensures
        pay_error(l, caller, id, funds) == Some(ContractError::Unauthorized),
{
}

/// Paid monotonicity, rejection half: once an invoice is paid, any further
/// pay call on its id fails — `AlreadyPaid` for its recipient, even with
/// correct funds, and `Unauthorized` for anyone else.
pub proof fn lemma_paid_rejects_pay(l: LedgerV, caller: Seq<char>, id: u64, funds: Seq<CoinV>)
    requires
        l.invoices.contains_key(id),
        l.invoices[id].is_paid,
    ensures
        pay_error(l, caller, id, funds) is Some,
        caller == l.invoices[id].recipient ==> pay_error(l, caller, id, funds) == Some(ContractError::AlreadyPaid),
{
}

/// Paid monotonicity, preservation half: neither transition reverts a paid
/// invoice to unpaid.
pub proof fn lemma_paid_stays_paid(l: LedgerV, q: CreateReq, pid: u64, id: u64)
    requires
        ledger_inv(l),
        l.invoices.contains_key(id),
        l.invoices[id].is_paid,
    ensures
        create_step_req(l, q).invoices.contains_key(id) && create_step_req(l, q).invoices[id].is_paid,
        pay_step(l, pid).invoices.contains_key(id) && pay_step(l, pid).invoices[id].is_paid,
{
}

/// Every id of the list has a stored invoice, so collecting skips nothing:
/// one invoice per listed id, in list order.
pub proof fn lemma_collect_all_present(invs: Map<u64, crate::invoice::InvoiceV>, ids: Seq<u64>)
    requires
        forall|k: int| 0 <= k < ids.len() ==> invs.contains_key(#[trigger] ids[k]),
    ensures
        collect_invoices(invs, ids).len() == ids.len(),
        forall|k: int| 0 <= k < ids.len() ==> #[trigger] collect_invoices(invs, ids)[k] == invs[ids[k]],
    decreases ids.len(),
{
    if ids.len() > 0 {
        lemma_collect_all_present(invs, ids.drop_last());
    }
}

/// Index completeness: starting from a consistent ledger, after a run of
/// successful creates all issued by `a` (failed calls leave the ledger
/// unchanged, so they do not appear), `a`'s index is its old list followed
/// by the newly assigned ids in creation order, every listed id has a stored
/// invoice, and the user-invoices query therefore returns one invoice per
/// listed id — exactly the run's length many new ones, in creation order.
pub proof fn lemma_index_completeness(l: LedgerV, reqs: Seq<CreateReq>, a: Seq<char>)
    requires
        ledger_inv(l),
        all_succeed(l, reqs),
        counter_val(l) + reqs.len() <= u64::MAX,
        l.counter is Some,
        forall|k: int| 0 <= k < reqs.len() ==> #[trigger] reqs[k].sender == a,
    ensures
        ledger_inv(apply_creates(l, reqs)),
        index_or_empty(apply_creates(l, reqs), a) == index_or_empty(l, a) + ids_assigned(l, reqs),
        collect_invoices(apply_creates(l, reqs).invoices, index_or_empty(apply_creates(l, reqs), a)).len()
            == index_or_empty(l, a).len() + reqs.len(),
    decreases reqs.len(),
{
    let lf = apply_creates(l, reqs);
    if reqs.len() == 0 {
        assert(index_or_empty(lf, a) =~= index_or_empty(l, a) + ids_assigned(l, reqs));
    } else {
        let l2 = create_step_req(l, reqs[0]);
        lemma_create_preserves_inv(l, reqs[0]);
        lemma_index_completeness(l2, reqs.skip(1), a);
        assert(index_or_empty(l2, a) =~= index_or_empty(l, a).push(counter_val(l)));
        assert(index_or_empty(lf, a) =~= index_or_empty(l, a) + ids_assigned(l, reqs));
    }
    assert forall|k: int| 0 <= k < index_or_empty(lf, a).len()
        implies lf.invoices.contains_key(#[trigger] index_or_empty(lf, a)[k]) by {
        assert(lf.index.contains_key(a) ==> lf.index[a][k] == index_or_empty(lf, a)[k]);
    }
    lemma_collect_all_present(lf.invoices, index_or_empty(lf, a));
}

} // verus!


