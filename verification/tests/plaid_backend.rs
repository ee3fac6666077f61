use mcp_banking::json::{at, items_of, number_of, text_or_default, JsonNumber, JsonValue};
use mcp_banking::plaid::PlaidBackend;
use mcp_banking::request::{Auth, Method};
use mcp_banking::types::{Amount, BackendError, Balance};

fn s(x: &str) -> JsonValue {
    JsonValue::Str(x.to_string())
}

fn n(x: u64) -> JsonValue {
    JsonValue::Number(JsonNumber::PosInt(x))
}

fn obj(pairs: Vec<(&str, JsonValue)>) -> JsonValue {
    JsonValue::Object(pairs.into_iter().map(|(k, v)| (k.to_string(), v)).collect())
}

fn backend(env: &str) -> PlaidBackend {
    PlaidBackend::new("cid".to_string(), "sec".to_string(), "tok".to_string(), env)
}

fn member<'a>(v: &'a JsonValue, key: &str) -> Option<&'a JsonValue> {
    at(Some(v), key)
}

#[test]
fn environments_pick_their_hosts() {
    assert_eq!(backend("production").list_accounts_request().url, "https://production.plaid.com/accounts/get");
    assert_eq!(backend("development").list_accounts_request().url, "https://development.plaid.com/accounts/get");
    assert_eq!(backend("sandbox").list_accounts_request().url, "https://sandbox.plaid.com/accounts/get");
    assert_eq!(backend("anything").list_accounts_request().url, "https://sandbox.plaid.com/accounts/get");
    assert_eq!(backend("sandbox").name(), "plaid");
}

#[test]
fn requests_carry_the_credentials() {
    let r = backend("sandbox").list_transactions_request("acc-1", "2026-04-01", "2026-04-30", 25);
    assert_eq!(r.method, Method::Post);
    assert!(matches!(r.auth, Auth::InBody));
    let body = r.body.unwrap();
    assert_eq!(text_or_default(member(&body, "client_id")), "cid");
    assert_eq!(text_or_default(member(&body, "secret")), "sec");
    assert_eq!(text_or_default(member(&body, "access_token")), "tok");
    assert_eq!(text_or_default(member(&body, "start_date")), "2026-04-01");
    assert_eq!(text_or_default(member(&body, "end_date")), "2026-04-30");
    let options = member(&body, "options");
    assert_eq!(number_of(at(options, "count")), Some(JsonNumber::PosInt(25)));
    let ids = items_of(at(options, "account_ids")).unwrap();
    assert_eq!(text_or_default(Some(&ids[0])), "acc-1");
}

#[test]
fn institution_requests_have_no_access_token() {
    let r = backend("sandbox").list_institutions_request(Some("gb"), 20);
    assert_eq!(r.url, "https://sandbox.plaid.com/institutions/get");
    let body = r.body.unwrap();
    assert!(member(&body, "access_token").is_none());
    assert_eq!(text_or_default(member(&body, "client_id")), "cid");
    let codes = items_of(member(&body, "country_codes")).unwrap();
    assert_eq!(text_or_default(Some(&codes[0])), "GB");
    assert_eq!(number_of(member(&body, "offset")), Some(JsonNumber::PosInt(0)));
    let r = backend("sandbox").list_institutions_request(None, 20);
    let body = r.body.unwrap();
    let codes = items_of(member(&body, "country_codes")).unwrap();
    assert_eq!(text_or_default(Some(&codes[0])), "US");
}

#[test]
fn parameters_override_credentials() {
    let b = backend("sandbox");
    let body = b.body(true, obj(vec![("secret", s("other")), ("extra", n(1))]));
    assert_eq!(text_or_default(member(&body, "secret")), "other");
    assert_eq!(text_or_default(member(&body, "client_id")), "cid");
    assert_eq!(number_of(member(&body, "extra")), Some(JsonNumber::PosInt(1)));
    let body = b.body(false, s("not an object"));
    assert_eq!(text_or_default(member(&body, "client_id")), "cid");
    assert!(member(&body, "access_token").is_none());
}

fn account_json(id: &str) -> JsonValue {
    obj(vec![
        ("account_id", s(id)),
        ("name", s("Plaid Checking")),
        ("type", s("depository")),
        ("subtype", s("checking")),
        ("mask", s("0000")),
        ("balances", obj(vec![("available", n(100)), ("current", n(110)), ("iso_currency_code", s("USD"))])),
    ])
}

#[test]
fn accounts_are_read() {
    let resp = obj(vec![("accounts", JsonValue::Array(vec![account_json("acc-1"), obj(vec![])]))]);
    let accounts = backend("sandbox").accounts_from(&resp);
    assert_eq!(accounts.len(), 2);
    let a = &accounts[0];
    assert_eq!(a.id, "acc-1");
    assert_eq!(a.name, "Plaid Checking");
    assert_eq!(a.account_type.as_deref(), Some("depository"));
    assert_eq!(a.mask.as_deref(), Some("0000"));
    assert_eq!(a.currency.as_deref(), Some("USD"));
    assert!(matches!(a.balance_current, Some(Amount::Number(JsonNumber::PosInt(110)))));
    assert_eq!(a.backend, "plaid");
    assert_eq!(accounts[1].id, "");
    assert!(accounts[1].balance_available.is_none());
    assert!(backend("sandbox").accounts_from(&obj(vec![])).is_empty());
}

#[test]
fn missing_account_is_an_error() {
    let b = backend("sandbox");
    let resp = obj(vec![("accounts", JsonValue::Array(vec![]))]);
    assert!(matches!(b.account_from(&resp), Err(BackendError::AccountNotFound)));
    let resp = obj(vec![("accounts", JsonValue::Array(vec![account_json("acc-9")]))]);
    assert_eq!(b.account_from(&resp).unwrap().id, "acc-9");
}

fn transaction_json(id: &str, name: &str, merchant: Option<&str>) -> JsonValue {
    let mut pairs = vec![
        ("transaction_id", s(id)),
        ("account_id", s("acc-1")),
        ("amount", JsonValue::Number(JsonNumber::Float(5.4f64.to_bits()))),
        ("date", s("2026-05-14")),
        ("name", s(name)),
        ("category", JsonValue::Array(vec![s("Travel"), s("Taxi")])),
        ("pending", JsonValue::Bool(true)),
        ("transaction_type", s("place")),
    ];
    if let Some(m) = merchant {
        pairs.push(("merchant_name", s(m)));
    }
    obj(pairs)
}

#[test]
fn transactions_are_read_with_and_without_type() {
    let b = backend("sandbox");
    let resp = obj(vec![(
        "transactions",
        JsonValue::Array(vec![transaction_json("t1", "Uber 063015", Some("Uber")), transaction_json("t2", "Coffee", None)]),
    )]);
    let listed = b.transactions_from(&resp, 50);
    assert_eq!(listed.len(), 2);
    assert_eq!(listed[0].category.as_deref(), Some("Travel"));
    assert!(listed[0].pending);
    assert_eq!(listed[0].transaction_type.as_deref(), Some("place"));
    assert!(matches!(listed[0].amount, Amount::Number(JsonNumber::Float(bits)) if bits == 5.4f64.to_bits()));
    let one = b.transaction_from(&resp, "t2").unwrap();
    assert_eq!(one.description, "Coffee");
    assert_eq!(one.transaction_type, None);
    assert!(matches!(b.transaction_from(&resp, "t3"), Err(BackendError::TransactionNotFound)));
    let found = b.search_results(&resp, "UBER", 50);
    assert_eq!(found.len(), 1);
    assert_eq!(found[0].id, "t1");
    assert_eq!(found[0].transaction_type, None);
    assert_eq!(b.search_results(&resp, "", 50).len(), 2);
    assert!(b.search_results(&resp, "tea", 50).is_empty());
}

#[test]
fn search_matches_merchant_too() {
    let b = backend("sandbox");
    let resp = obj(vec![("transactions", JsonValue::Array(vec![transaction_json("t1", "Trip 42", Some("Lyft Inc"))]))]);
    assert_eq!(b.search_results(&resp, "lyft", 50).len(), 1);
}

#[test]
fn plaid_lists_keep_the_limit() {
    let b = backend("sandbox");
    let resp = obj(vec![(
        "transactions",
        JsonValue::Array(vec![
            transaction_json("t1", "Uber 1", None),
            transaction_json("t2", "Uber 2", None),
            transaction_json("t3", "Uber 3", None),
        ]),
    )]);
    assert_eq!(b.transactions_from(&resp, 2).len(), 2);
    assert_eq!(b.search_results(&resp, "uber", 2).len(), 2);
    assert_eq!(b.search_results(&resp, "uber", 2)[1].id, "t2");
    assert_eq!(b.categorize_transaction_request().url, b.get_transaction_request().url);
}

#[test]
fn identity_reads_the_first_owner() {
    let owner = obj(vec![
        ("names", JsonValue::Array(vec![s("Alberta Charleson")])),
        ("emails", JsonValue::Array(vec![obj(vec![("data", s("a@example.com"))])])),
        ("phone_numbers", JsonValue::Array(vec![obj(vec![("data", s("1112223333"))])])),
        ("addresses", JsonValue::Array(vec![obj(vec![("data", obj(vec![("street", s("2992 Cameron Road"))]))])])),
    ]);
    let resp = obj(vec![("accounts", JsonValue::Array(vec![obj(vec![("owners", JsonValue::Array(vec![owner]))])]))]);
    let id = backend("sandbox").identity_from(&resp);
    assert_eq!(id.name.as_deref(), Some("Alberta Charleson"));
    assert_eq!(id.email.as_deref(), Some("a@example.com"));
    assert_eq!(id.phone.as_deref(), Some("1112223333"));
    assert_eq!(id.address.as_deref(), Some("2992 Cameron Road"));
    let empty = backend("sandbox").identity_from(&obj(vec![]));
    assert_eq!(empty.name, None);
    assert_eq!(empty.backend, "plaid");
}

#[test]
fn institutions_and_payments_are_read() {
    let b = backend("sandbox");
    let inst = obj(vec![
        ("institution_id", s("ins_1")),
        ("name", s("Bank")),
        ("country_codes", JsonValue::Array(vec![s("US")])),
        ("url", s("https://bank.example")),
    ]);
    let list = b.institutions_from(&obj(vec![("institutions", JsonValue::Array(vec![inst]))]), 20);
    assert_eq!(list[0].id, "ins_1");
    assert_eq!(list[0].country.as_deref(), Some("US"));
    assert_eq!(list[0].logo, None);
    let single = b.institution_from(&obj(vec![]));
    assert_eq!(single.id, "");
    let payment = obj(vec![
        ("payment_id", s("pay-1")),
        ("status", s("PAYMENT_STATUS_INITIATED")),
        ("amount", obj(vec![("value", n(500)), ("currency", s("GBP"))])),
        ("recipient_id", s("rec-1")),
    ]);
    let p = b.payment_from(&payment);
    assert_eq!(p.id, "pay-1");
    assert_eq!(p.currency.as_deref(), Some("GBP"));
    assert!(matches!(p.amount, Amount::Number(JsonNumber::PosInt(500))));
    let missing = b.payment_from(&obj(vec![]));
    assert!(matches!(missing.amount, Amount::Number(JsonNumber::Float(0))));
    assert_eq!(b.payments_from(&obj(vec![("payments", JsonValue::Array(vec![payment]))]), 20).len(), 1);
}

#[test]
fn payment_initiation_echoes_the_request() {
    let b = backend("sandbox");
    let bits = 500.0f64.to_bits();
    let r = b.initiate_payment_request(bits, "USD", "vendor-id", "Invoice 123");
    assert_eq!(r.url, "https://sandbox.plaid.com/payment_initiation/payment/create");
    let body = r.body.unwrap();
    assert!(member(&body, "access_token").is_none());
    assert_eq!(number_of(at(member(&body, "amount"), "value")), Some(JsonNumber::Float(bits)));
    let nan = b.initiate_payment_request(f64::NAN.to_bits(), "USD", "v", "r");
    assert!(matches!(at(at(Some(&nan.body.unwrap()), "amount"), "value"), Some(JsonValue::Null)));
    let p = b.initiated_payment(&obj(vec![("payment_id", s("pay-7"))]), bits, "USD", "vendor-id", "Invoice 123");
    assert_eq!(p.id, "pay-7");
    assert_eq!(p.status, "created");
    assert_eq!(p.recipient.as_deref(), Some("vendor-id"));
    assert_eq!(p.reference.as_deref(), Some("Invoice 123"));
    assert_eq!(p.currency.as_deref(), Some("USD"));
}

#[test]
fn statement_closes_on_the_current_balance() {
    let b = backend("sandbox");
    let balances = vec![
        Balance { account_id: "acc-0".to_string(), account_name: None, available: None, current: Amount::Number(JsonNumber::PosInt(1)), currency: None, backend: "plaid".to_string() },
        Balance { account_id: "acc-1".to_string(), account_name: None, available: None, current: Amount::Number(JsonNumber::PosInt(42)), currency: None, backend: "plaid".to_string() },
    ];
    let st = b.statement_from("acc-1", "2026-01-01", "2026-03-31", 7, balances);
    assert_eq!(st.transaction_count, 7);
    assert!(matches!(st.closing_balance, Some(Amount::Number(JsonNumber::PosInt(42)))));
    assert!(st.opening_balance.is_none());
    let st = b.statement_from("acc-2", "a", "b", 0, vec![]);
    assert!(matches!(st.closing_balance, Some(Amount::Number(JsonNumber::Float(0)))));
}

#[test]
fn sync_counts_added_and_modified() {
    let b = backend("sandbox");
    let resp = obj(vec![("added", JsonValue::Array(vec![n(1), n(2)])), ("modified", s("none"))]);
    assert_eq!(b.sync_summary(&resp), "Synced: 2 added, 0 modified");
    assert_eq!(b.sync_transactions_request().url, "https://sandbox.plaid.com/transactions/sync");
}
