use cosmwasm_std::MemoryStorage;
use invoice_ledger::{
    execute, execute_create_invoice, execute_pay_invoice, instantiate, query, query_invoice,
    query_user_invoices, Coin, ContractError, ExecuteMsg, InstantiateMsg, Invoice, MessageInfo,
    QueryMsg, QueryResponse, Response,
};

fn info(sender: &str, funds: Vec<Coin>) -> MessageInfo {
    MessageInfo {
        sender: sender.to_string(),
        funds,
    }
}

fn coin(denom: &str, amount: u128) -> Coin {
    Coin {
        denom: denom.to_string(),
        amount,
    }
}

fn fresh_ledger() -> MemoryStorage {
    let mut store = MemoryStorage::new();
    let r = instantiate(&mut store, InstantiateMsg {});
    assert_eq!(r, Response::Instantiate);
    store
}

fn create(
    store: &mut MemoryStorage,
    sender: &str,
    recipient: &str,
    amount: u128,
) -> Result<Response, ContractError> {
    execute_create_invoice(
        store,
        &info(sender, vec![]),
        recipient.to_string(),
        amount,
        "services".to_string(),
        500,
    )
}

#[test]
fn end_to_end_scenario() {
    let mut store = fresh_ledger();

    let r = execute_create_invoice(
        &mut store,
        &info("alice", vec![]),
        "bob".to_string(),
        100,
        "rent".to_string(),
        1000,
    )
    .unwrap();
    assert_eq!(
        r,
        Response::Create {
            issuer: "alice".to_string(),
            recipient: "bob".to_string(),
            invoice_id: 1,
        }
    );

    let r = execute_pay_invoice(&mut store, &info("bob", vec![coin("atom", 100)]), 1).unwrap();
    assert_eq!(
        r,
        Response::Pay {
            payer: "bob".to_string(),
            invoice_id: 1,
        }
    );

    let inv = query_invoice(&store, 1).unwrap();
    assert_eq!(
        inv,
        Invoice {
            id: 1,
            issuer: "alice".to_string(),
            recipient: "bob".to_string(),
            amount: 100,
            description: "rent".to_string(),
            due_date: 1000,
            is_paid: true,
        }
    );

    let invs = query_user_invoices(&store, "alice".to_string()).unwrap();
    assert_eq!(invs, vec![inv]);

    let again = execute_pay_invoice(&mut store, &info("bob", vec![coin("atom", 100)]), 1);
    assert_eq!(again, Err(ContractError::AlreadyPaid));
}

#[test]
fn ids_are_monotonic_and_unique() {
    let mut store = fresh_ledger();
    // Counter starts at 1; successful creates get 1, 2, 3, ... in call order,
    // across issuers, and failed calls leave the counter alone.
    let r1 = create(&mut store, "alice", "bob", 10).unwrap();
    assert!(matches!(r1, Response::Create { invoice_id: 1, .. }));
    assert_eq!(create(&mut store, "alice", "alice", 10), Err(ContractError::SelfInvoice));
    let r2 = create(&mut store, "carol", "bob", 20).unwrap();
    assert!(matches!(r2, Response::Create { invoice_id: 2, .. }));
    assert_eq!(create(&mut store, "carol", "bob", 0), Err(ContractError::ZeroAmount));
    let r3 = create(&mut store, "alice", "carol", 30).unwrap();
    assert!(matches!(r3, Response::Create { invoice_id: 3, .. }));
}

#[test]
fn self_invoice_is_rejected() {
    let mut store = fresh_ledger();
    assert_eq!(create(&mut store, "alice", "alice", 100), Err(ContractError::SelfInvoice));
    // Regardless of amount, even zero.
    assert_eq!(create(&mut store, "alice", "alice", 0), Err(ContractError::SelfInvoice));
}

#[test]
fn zero_amount_is_rejected() {
    let mut store = fresh_ledger();
    assert_eq!(create(&mut store, "alice", "bob", 0), Err(ContractError::ZeroAmount));
}

#[test]
fn malformed_recipient_is_rejected() {
    let mut store = fresh_ledger();
    // Too short for an address.
    assert_eq!(create(&mut store, "alice", "ab", 100), Err(ContractError::InvalidAddress));
    // Not normalized (upper case).
    assert_eq!(create(&mut store, "alice", "Bob", 100), Err(ContractError::InvalidAddress));
}

#[test]
fn create_without_initialization_fails() {
    let mut store = MemoryStorage::new();
    assert_eq!(create(&mut store, "alice", "bob", 100), Err(ContractError::Storage));
}

#[test]
fn payment_must_be_exact() {
    let mut store = fresh_ledger();
    create(&mut store, "alice", "bob", 100).unwrap();

    // No funds attached.
    assert_eq!(
        execute_pay_invoice(&mut store, &info("bob", vec![]), 1),
        Err(ContractError::IncorrectPayment)
    );
    // Two entries, even if they sum to the amount.
    assert_eq!(
        execute_pay_invoice(&mut store, &info("bob", vec![coin("atom", 60), coin("atom", 40)]), 1),
        Err(ContractError::IncorrectPayment)
    );
    // One entry of the wrong amount.
    assert_eq!(
        execute_pay_invoice(&mut store, &info("bob", vec![coin("atom", 99)]), 1),
        Err(ContractError::IncorrectPayment)
    );
    assert_eq!(
        execute_pay_invoice(&mut store, &info("bob", vec![coin("atom", 101)]), 1),
        Err(ContractError::IncorrectPayment)
    );
    // The failed attempts left the invoice unpaid; an exact single entry settles it.
    assert!(!query_invoice(&store, 1).unwrap().is_paid);
    execute_pay_invoice(&mut store, &info("bob", vec![coin("atom", 100)]), 1).unwrap();
    assert!(query_invoice(&store, 1).unwrap().is_paid);
}

#[test]
fn only_the_recipient_may_pay() {
    let mut store = fresh_ledger();
    create(&mut store, "alice", "bob", 100).unwrap();
    // Even with exactly matching funds, and even for the issuer itself.
    assert_eq!(
        execute_pay_invoice(&mut store, &info("carol", vec![coin("atom", 100)]), 1),
        Err(ContractError::Unauthorized)
    );
    assert_eq!(
        execute_pay_invoice(&mut store, &info("alice", vec![coin("atom", 100)]), 1),
        Err(ContractError::Unauthorized)
    );
}

#[test]
fn paying_a_missing_invoice_fails() {
    let mut store = fresh_ledger();
    assert_eq!(
        execute_pay_invoice(&mut store, &info("bob", vec![coin("atom", 100)]), 7),
        Err(ContractError::InvoiceNotFound)
    );
}

#[test]
fn paid_invoices_stay_paid() {
    let mut store = fresh_ledger();
    create(&mut store, "alice", "bob", 100).unwrap();
    execute_pay_invoice(&mut store, &info("bob", vec![coin("atom", 100)]), 1).unwrap();
    // Correct caller and funds: still rejected, and the record keeps is_paid.
    assert_eq!(
        execute_pay_invoice(&mut store, &info("bob", vec![coin("atom", 100)]), 1),
        Err(ContractError::AlreadyPaid)
    );
    assert!(query_invoice(&store, 1).unwrap().is_paid);
}

#[test]
fn denomination_is_not_compared() {
    // The funds check compares the single entry's amount against the invoice
    // amount; the invoice records no denomination to hold it against.
    let mut store = fresh_ledger();
    create(&mut store, "alice", "bob", 100).unwrap();
    execute_pay_invoice(&mut store, &info("bob", vec![coin("unrelated", 100)]), 1).unwrap();
    assert!(query_invoice(&store, 1).unwrap().is_paid);
}

#[test]
fn execute_dispatches_both_operations() {
    let mut store = fresh_ledger();
    let r = execute(
        &mut store,
        &info("alice", vec![]),
        ExecuteMsg::CreateInvoice {
            recipient: "bob".to_string(),
            amount: 42,
            description: "tools".to_string(),
            due_date: 9,
        },
    )
    .unwrap();
    assert!(matches!(r, Response::Create { invoice_id: 1, .. }));

    let r = execute(
        &mut store,
        &info("bob", vec![coin("atom", 42)]),
        ExecuteMsg::PayInvoice { invoice_id: 1 },
    )
    .unwrap();
    assert_eq!(
        r,
        Response::Pay {
            payer: "bob".to_string(),
            invoice_id: 1,
        }
    );
}

#[test]
fn query_dispatches_both_queries() {
    let mut store = fresh_ledger();
    create(&mut store, "alice", "bob", 5).unwrap();

    let r = query(&store, QueryMsg::GetInvoice { invoice_id: 1 }).unwrap();
    match r {
        QueryResponse::Invoice(inv) => {
            assert_eq!(inv.id, 1);
            assert_eq!(inv.amount, 5);
            assert_eq!(inv.description, "services");
            assert_eq!(inv.due_date, 500);
            assert!(!inv.is_paid);
        }
        other => panic!("expected an invoice, got {:?}", other),
    }

    let r = query(&store, QueryMsg::GetUserInvoices { user: "alice".to_string() }).unwrap();
    match r {
        QueryResponse::UserInvoices(invs) => assert_eq!(invs.len(), 1),
        other => panic!("expected a list, got {:?}", other),
    }

    assert_eq!(
        query(&store, QueryMsg::GetInvoice { invoice_id: 2 }),
        Err(ContractError::InvoiceNotFound)
    );
    assert_eq!(
        query(&store, QueryMsg::GetUserInvoices { user: "AB".to_string() }),
        Err(ContractError::InvalidAddress)
    );
}

#[test]
fn responses_render_the_exact_attributes() {
    assert_eq!(
        Response::Instantiate.attributes(),
        vec![("action".to_string(), "instantiate".to_string())]
    );
    let create = Response::Create {
        issuer: "alice".to_string(),
        recipient: "bob".to_string(),
        invoice_id: 12,
    };
    assert_eq!(
        create.attributes(),
        vec![
            ("action".to_string(), "create_invoice".to_string()),
            ("issuer".to_string(), "alice".to_string()),
            ("recipient".to_string(), "bob".to_string()),
            ("invoice_id".to_string(), "12".to_string()),
        ]
    );
    let pay = Response::Pay {
        payer: "bob".to_string(),
        invoice_id: 205,
    };
    assert_eq!(
        pay.attributes(),
        vec![
            ("action".to_string(), "pay_invoice".to_string()),
            ("payer".to_string(), "bob".to_string()),
            ("invoice_id".to_string(), "205".to_string()),
        ]
    );
}
