use mcp_banking::json::{at, number_of, text_or_default, JsonNumber, JsonValue};
use mcp_banking::mono::MonoBackend;
use mcp_banking::open_banking::{LookupStep, OpenBankingBackend};
use mcp_banking::request::{Auth, Method};
use mcp_banking::types::{find_institution, find_transaction, lowered_match, search_matches, Amount, BackendError, Institution, Transaction};

fn s(x: &str) -> JsonValue {
    JsonValue::Str(x.to_string())
}

fn n(x: u64) -> JsonValue {
    JsonValue::Number(JsonNumber::PosInt(x))
}

fn obj(pairs: Vec<(&str, JsonValue)>) -> JsonValue {
    JsonValue::Object(pairs.into_iter().map(|(k, v)| (k.to_string(), v)).collect())
}

fn mono() -> MonoBackend {
    MonoBackend::new("test_sk_1".to_string(), "acc-9".to_string())
}

fn txn(id: &str, description: &str) -> Transaction {
    Transaction {
        id: id.to_string(),
        account_id: "acc".to_string(),
        amount: Amount::Number(JsonNumber::PosInt(1)),
        currency: None,
        date: String::new(),
        description: description.to_string(),
        category: None,
        merchant_name: None,
        pending: false,
        transaction_type: None,
        backend: "mono".to_string(),
    }
}

#[test]
fn mono_requests_use_the_secret_key_header() {
    let r = mono().list_transactions_request("acc-9", "2026-04-01", "2026-04-30", 50);
    assert_eq!(r.method, Method::Get);
    assert_eq!(r.url, "https://api.withmono.com/v2/accounts/acc-9/transactions?start=2026-04-01&end=2026-04-30&limit=50");
    match r.auth {
        Auth::Header { name, value } => {
            assert_eq!(name, "mono-sec-key");
            assert_eq!(value, "test_sk_1");
        },
        _ => panic!("expected the secret key header"),
    }
    assert!(r.body.is_none());
    assert_eq!(mono().search_transactions_request(7).url, "https://api.withmono.com/v2/accounts/acc-9/transactions?start=2020-01-01&end=2030-12-31&limit=7");
    assert_eq!(mono().list_institutions_request(Some("NG")).url, "https://api.withmono.com/v2/coverage?country=NG");
    assert_eq!(mono().list_institutions_request(None).url, "https://api.withmono.com/v2/coverage");
    assert_eq!(mono().get_transaction_request("t1").url, "https://api.withmono.com/v2/accounts/acc-9/transactions/t1");
    assert_eq!(mono().name(), "mono");
    assert_eq!(
        mono().list_transactions_request("acc-2", "2026-04-01", "2026-04-30", 5).url,
        "https://api.withmono.com/v2/accounts/acc-2/transactions?start=2026-04-01&end=2026-04-30&limit=5"
    );
    assert_eq!(mono().get_balances_request().url, "https://api.withmono.com/v2/accounts/acc-9/balance");
    assert_eq!(mono().categorize_transaction_request("t1").url, mono().get_transaction_request("t1").url);
}

#[test]
fn mono_account_in_minor_units_and_masked() {
    let resp = obj(vec![(
        "data",
        obj(vec![
            ("name", s("Savings")),
            ("type", s("SAVINGS")),
            ("account_number", s("0123456789")),
            ("currency", s("NGN")),
            ("balance", n(150050)),
            ("institution", obj(vec![("name", s("GTBank"))])),
        ]),
    )]);
    let b = mono();
    assert!(b.account_number_is_clean(&resp));
    let a = b.account_from("acc-9", &resp);
    assert_eq!(a.mask.as_deref(), Some("6789"));
    assert!(matches!(a.balance_current, Some(Amount::Hundredths(JsonNumber::PosInt(150050)))));
    assert_eq!(a.institution_name.as_deref(), Some("GTBank"));
    assert_eq!(a.subtype, None);
    let balances = b.balances_from(&resp);
    assert_eq!(balances.len(), 1);
    assert_eq!(balances[0].account_id, "acc-9");
    assert_eq!(balances[0].account_name.as_deref(), Some("Savings"));
    assert!(matches!(balances[0].current, Amount::Hundredths(JsonNumber::PosInt(150050))));
    let bare = b.balances_from(&obj(vec![]));
    assert!(matches!(bare[0].current, Amount::Number(JsonNumber::Float(0))));
    assert_eq!(b.accounts_from(&resp)[0].id, "acc-9");
    let unclean = obj(vec![("data", obj(vec![("account_number", s("€€"))]))]);
    assert!(!b.account_number_is_clean(&unclean));
}

#[test]
fn mono_transactions_and_payments() {
    let b = mono();
    let resp = obj(vec![("data", JsonValue::Array(vec![obj(vec![("_id", s("t1")), ("amount", n(540)), ("narration", s("POS Uber"))])]))]);
    let t = b.transactions_from("acc-2", &resp, 50);
    assert_eq!(t[0].account_id, "acc-2");
    let many = obj(vec![("data", JsonValue::Array(vec![obj(vec![("_id", s("a"))]), obj(vec![("_id", s("b"))]), obj(vec![("_id", s("c"))])]))]);
    let two = b.transactions_from("acc-9", &many, 2);
    assert_eq!(two.len(), 2);
    assert_eq!(two[1].id, "b");
    let coverage = obj(vec![("data", JsonValue::Array(vec![obj(vec![("_id", s("i1"))]), obj(vec![("_id", s("i2"))])]))]);
    assert_eq!(b.institutions_from(&coverage, 1).len(), 1);
    assert_eq!(b.institutions_from(&coverage, 20).len(), 2);
    let payments = obj(vec![("data", JsonValue::Array(vec![obj(vec![("id", s("p1"))]), obj(vec![("id", s("p2"))])]))]);
    assert_eq!(b.payments_from(&payments, 1)[0].id, "p1");
    assert_eq!(b.payments_from(&payments, 1).len(), 1);
    assert!(matches!(t[0].amount, Amount::Hundredths(JsonNumber::PosInt(540))));
    let r = b.initiate_payment_request(-250, "rcp", "ref");
    assert_eq!(r.url, "https://api.withmono.com/v2/payments/initiate");
    let body = r.body.unwrap();
    assert_eq!(number_of(at(Some(&body), "amount")), Some(JsonNumber::NegInt(-250)));
    assert_eq!(text_or_default(at(Some(&body), "type")), "onetime");
    let body = b.initiate_payment_request(50000, "rcp", "ref").body.unwrap();
    assert_eq!(number_of(at(Some(&body), "amount")), Some(JsonNumber::PosInt(50000)));
    let p = b.initiated_payment(&obj(vec![]), 500.0f64.to_bits(), "rcp", "ref");
    assert_eq!(p.status, "pending");
    assert_eq!(p.id, "");
    let st = b.get_statement_request("acc-3", "2026-01-01", "2026-03-31");
    assert_eq!(st.url, "https://api.withmono.com/v2/accounts/acc-3/statement");
    assert_eq!(text_or_default(at(Some(&st.body.unwrap()), "period")), "2026-01-01_2026-03-31");
    let sresp = obj(vec![("data", obj(vec![("opening_balance", n(100)), ("transactions", JsonValue::Array(vec![n(1), n(2), n(3)]))]))]);
    let stmt = b.statement_from(&sresp, "acc-3", "2026-01-01", "2026-03-31");
    assert_eq!(stmt.account_id, "acc-3");
    assert_eq!(stmt.transaction_count, 3);
    assert!(stmt.closing_balance.is_none());
    assert_eq!(b.sync_message(), "Sync triggered");
}

#[test]
fn search_is_case_insensitive_on_descriptions() {
    let found = search_matches(vec![txn("1", "POS UBER lagos"), txn("2", "Airtime"), txn("3", "uber eats")], "Uber");
    assert_eq!(found.len(), 2);
    assert_eq!(found[0].id, "1");
    assert_eq!(found[1].id, "3");
    let again = search_matches(found, "Uber");
    assert_eq!(again.len(), 2);
    let accented = search_matches(vec![txn("4", "CAFÉ ÀLA"), txn("5", "cafe")], "café àla");
    assert_eq!(accented.len(), 1);
    assert_eq!(accented[0].id, "4");
}

#[test]
fn search_matches_the_merchant_too() {
    let mut t = txn("6", "Card payment");
    t.merchant_name = Some("UBER BV".to_string());
    let found = search_matches(vec![t, txn("7", "Card payment")], "uber");
    assert_eq!(found.len(), 1);
    assert_eq!(found[0].id, "6");
    assert!(lowered_match("card payment", "uber bv", "uber"));
    assert!(lowered_match("uber trip", "", "uber"));
    assert!(!lowered_match("card payment", "", "uber"));
}

#[test]
fn mono_search_applies_the_limit() {
    let b = mono();
    let resp = obj(vec![(
        "data",
        JsonValue::Array(vec![
            obj(vec![("_id", s("1")), ("narration", s("Uber ride"))]),
            obj(vec![("_id", s("2")), ("narration", s("Airtime"))]),
            obj(vec![("_id", s("3")), ("narration", s("uber eats"))]),
        ]),
    )]);
    let all = b.search_results(&resp, "UBER", 50);
    assert_eq!(all.len(), 2);
    assert_eq!(all[1].id, "3");
    let first_two = b.search_results(&resp, "uber", 2);
    assert_eq!(first_two.len(), 1);
    assert_eq!(first_two[0].account_id, "acc-9");
}

#[test]
fn lookups_by_id() {
    let found = find_transaction(vec![txn("1", "a"), txn("2", "b"), txn("2", "c")], "2").unwrap();
    assert_eq!(found.description, "b");
    assert!(find_transaction(vec![txn("1", "a")], "9").is_none());
    let inst = |id: &str| Institution { id: id.to_string(), name: String::new(), country: None, url: None, logo: None, backend: "mono".to_string() };
    assert_eq!(find_institution(vec![inst("a"), inst("b")], "b").unwrap().id, "b");
    assert!(matches!(find_institution(vec![inst("a")], "z"), Err(BackendError::InstitutionNotFound)));
}

fn ob() -> OpenBankingBackend {
    OpenBankingBackend::new("https://bank.example/open-banking/v3.1/".to_string(), "token-1".to_string())
}

#[test]
fn open_banking_root_and_bearer() {
    let r = ob().list_accounts_request();
    assert_eq!(r.url, "https://bank.example/open-banking/v3.1/accounts");
    assert!(matches!(r.auth, Auth::Bearer(ref t) if t == "token-1"));
    assert_eq!(
        ob().list_transactions_request("a1", "2026-04-01", "2026-04-30").url,
        "https://bank.example/open-banking/v3.1/accounts/a1/transactions?fromBookingDateTime=2026-04-01T00:00:00Z&toBookingDateTime=2026-04-30T23:59:59Z"
    );
    assert_eq!(
        ob().get_statement_request("a1", "2026-01-01", "2026-03-31").url,
        "https://bank.example/open-banking/v3.1/accounts/a1/statements?fromStatementDateTime=2026-01-01T00:00:00Z&toStatementDateTime=2026-03-31T23:59:59Z"
    );
    assert_eq!(ob().name(), "open_banking");
}

#[test]
fn open_banking_accounts() {
    let listed = obj(vec![(
        "Data",
        obj(vec![(
            "Account",
            JsonValue::Array(vec![
                obj(vec![("AccountId", s("a1")), ("Description", s("Current")), ("Account", JsonValue::Array(vec![obj(vec![("Identification", s("80200110203345"))])]))]),
                obj(vec![("AccountId", s("a2")), ("Nickname", s("Bills")), ("Description", s("Other"))]),
            ]),
        )]),
    )]);
    let b = ob();
    assert!(b.account_numbers_are_clean(&listed));
    let accounts = b.accounts_from(&listed);
    assert_eq!(accounts[0].name, "Current");
    assert_eq!(accounts[0].mask.as_deref(), Some("3345"));
    assert_eq!(accounts[1].name, "Bills");
    assert_eq!(accounts[1].mask, None);
    let single = b.account_from(&listed).unwrap();
    assert_eq!(single.name, "");
    assert!(matches!(b.account_from(&obj(vec![])), Err(BackendError::NotFound)));
}

#[test]
fn open_banking_amounts() {
    let b = ob();
    let balances = obj(vec![(
        "Data",
        obj(vec![(
            "Balance",
            JsonValue::Array(vec![
                obj(vec![("AccountId", s("a1")), ("CreditDebitIndicator", s("Credit")), ("Amount", obj(vec![("Amount", s("12.50")), ("Currency", s("GBP"))]))]),
                obj(vec![("AccountId", s("a2")), ("CreditDebitIndicator", s("Debit")), ("Amount", obj(vec![("Amount", s("3.00"))]))]),
            ]),
        )]),
    )]);
    let list = b.balances_from(&balances);
    assert!(matches!(&list[0].available, Some(Amount::Decimal { text, negated: false }) if text == "12.50"));
    assert!(list[1].available.is_none());
    assert!(matches!(&list[1].current, Amount::Decimal { text, negated: false } if text == "3.00"));
    let txns = obj(vec![(
        "Data",
        obj(vec![(
            "Transaction",
            JsonValue::Array(vec![obj(vec![("TransactionId", s("t1")), ("CreditDebitIndicator", s("Debit")), ("Status", s("Pending")), ("Amount", obj(vec![("Amount", s("9.99"))]))])]),
        )]),
    )]);
    let t = b.transactions_from(&txns, 50);
    assert!(b.transactions_from(&txns, 0).is_empty());
    assert!(matches!(&t[0].amount, Amount::Decimal { text, negated: true } if text == "9.99"));
    assert!(t[0].pending);
    assert_eq!(t[0].transaction_type.as_deref(), Some("Debit"));
}

#[test]
fn open_banking_lookup_across_accounts() {
    let b = ob();
    let accounts = b.accounts_from(&obj(vec![("Data", obj(vec![("Account", JsonValue::Array(vec![obj(vec![("AccountId", s("a1"))]), obj(vec![("AccountId", s("a2"))])]))]))]));
    let answer = |ids: Vec<(&str, &str)>| {
        obj(vec![(
            "Data",
            obj(vec![(
                "Transaction",
                JsonValue::Array(ids.into_iter().map(|(id, info)| obj(vec![("TransactionId", s(id)), ("TransactionInformation", s(info))])).collect()),
            )]),
        )])
    };
    match b.lookup_step(&accounts, 0, None, "t2") {
        LookupStep::Fetch(r) => assert!(r.url.ends_with("/accounts/a1/transactions?fromBookingDateTime=2020-01-01T00:00:00Z&toBookingDateTime=2030-12-31T23:59:59Z")),
        _ => panic!("expected a fetch"),
    }
    let first = answer(vec![("t1", "Tesco")]);
    match b.lookup_step(&accounts, 1, Some(&first), "t2") {
        LookupStep::Fetch(r) => assert!(r.url.ends_with("/accounts/a2/transactions?fromBookingDateTime=2020-01-01T00:00:00Z&toBookingDateTime=2030-12-31T23:59:59Z")),
        _ => panic!("expected a fetch"),
    }
    let second = answer(vec![("t2", "Uber")]);
    match b.lookup_step(&accounts, 2, Some(&second), "t2") {
        LookupStep::Finished(Ok(t)) => assert_eq!(t.description, "Uber"),
        _ => panic!("expected the transaction"),
    }
    assert!(matches!(b.lookup_step(&accounts, 2, Some(&first), "t2"), LookupStep::Finished(Err(BackendError::TransactionNotFound))));
    let also = answer(vec![("t2", "Tesco"), ("t2", "Later")]);
    match b.lookup_step(&accounts, 1, Some(&also), "t2") {
        LookupStep::Finished(Ok(t)) => assert_eq!(t.description, "Tesco"),
        _ => panic!("expected the first hit"),
    }
    assert!(b.search_step(&accounts, 0).is_some());
    assert!(b.search_step(&accounts, 2).is_none());
    let answers = vec![answer(vec![("x1", "UBER ride"), ("x2", "Tesco")]), answer(vec![("y1", "uber eats"), ("y2", "Uber again")])];
    let found = b.search_results(&answers, "uber", 50);
    let ids: Vec<&str> = found.iter().map(|t| t.id.as_str()).collect();
    assert_eq!(ids, vec!["x1", "y1", "y2"]);
    assert_eq!(b.search_results(&answers, "uber", 2).len(), 2);
    assert!(b.search_results(&vec![], "uber", 50).is_empty());
}

#[test]
fn open_banking_fixed_answers() {
    let b = ob();
    assert!(b.list_institutions().is_empty());
    assert!(b.list_payments().is_empty());
    assert!(matches!(b.get_institution(), Err(BackendError::NoInstitutionDirectory)));
    assert_eq!(b.sync_message(), "Open Banking transactions are real-time — no sync needed");
    let r = b.initiate_payment_request("a1", "500", "GBP", "r1", "Invoice 123");
    assert_eq!(r.method, Method::Post);
    let body = r.body.unwrap();
    let initiation = at(at(Some(&body), "Data"), "Initiation");
    assert_eq!(text_or_default(at(at(initiation, "InstructedAmount"), "Amount")), "500");
    assert_eq!(text_or_default(at(at(initiation, "DebtorAccount"), "Identification")), "a1");
    let p = b.initiated_payment(&obj(vec![]), 500.0f64.to_bits(), "GBP", "r1", "Invoice 123");
    assert_eq!(p.status, "Pending");
}
