//! Mono (Nigeria, Kenya, Ghana, South Africa): what to ask the API and how
//! to read its answers. Mono reports amounts in minor units.
use vstd::prelude::*;
use vstd::string::*;
use crate::json::{
    Json, JsonNumber, JsonValue, as_items, as_text, at, collect_items, field, first_n, items_of,
    keep_first, map_items,
    obj1, obj4, string_value, text_opt, text_or_default, text_or_empty, view_opt,
};
use crate::request::{Auth, AuthView, Method, Request, RequestView, join_url, join_url_text};
use crate::text::{decimal, decimal_text};
use crate::types::{
    Amount, AmountView, Balance, BalanceView, BankAccount, BankAccountView, Identity, IdentityView,
    Institution, InstitutionView, Payment, PaymentView, Statement, StatementView, Transaction,
    TransactionView, amount_opt_view, hundredths_amount, hundredths_amount_of, hundredths_or_zero,
    hundredths_or_zero_of, mask_cuts_cleanly, mask_from, mask_is_clean, mask_of, search_matches,
    transaction_matches, transactions_view,
};

verus! {

/// The root of Mono's API.
pub open spec fn mono_base() -> Seq<char> {
    "https://api.withmono.com/v2"@
}

/// One linked Mono account, with the secret key that opens it.
pub struct MonoBackend {
    secret_key: String,
    account_id: String,
}

pub struct MonoView {
    pub secret_key: Seq<char>,
    pub account_id: Seq<char>,
}

impl View for MonoBackend {
    type V = MonoView;

    closed spec fn view(&self) -> MonoView {
        MonoView { secret_key: self.secret_key@, account_id: self.account_id@ }
    }
}

/// A request to `path`, authenticated by the `mono-sec-key` header.
pub open spec fn mono_request(m: MonoView, method: Method, path: Seq<char>, body: Option<Json>) -> RequestView {
    RequestView {
        method,
        url: join_url(mono_base(), path),
        auth: AuthView::Header { name: "mono-sec-key"@, value: m.secret_key },
        body,
    }
}

/// The `data` member of a response.
pub open spec fn data(resp: Json) -> Option<Json> {
    field(Some(resp), "data"@)
}

pub open spec fn mono_account(id: Seq<char>, resp: Json) -> BankAccountView {
    let d = data(resp);
    BankAccountView {
        id,
        name: text_or_empty(field(d, "name"@)),
        account_type: as_text(field(d, "type"@)),
        subtype: None,
        mask: mask_of(field(d, "account_number"@)),
        currency: as_text(field(d, "currency"@)),
        balance_available: None,
        balance_current: hundredths_amount(field(d, "balance"@)),
        institution_id: None,
        institution_name: as_text(field(field(d, "institution"@), "name"@)),
        backend: "mono"@,
    }
}

/// The balance of the account asked for, as a `balance` response reports
/// it: no available balance, the current balance in minor units or zero.
pub open spec fn mono_balance(account_id: Seq<char>, resp: Json) -> BalanceView {
    let d = data(resp);
    BalanceView {
        account_id,
        account_name: Some(text_or_empty(field(d, "name"@))),
        available: None,
        current: hundredths_or_zero(field(d, "balance"@)),
        currency: as_text(field(d, "currency"@)),
        backend: "mono"@,
    }
}

pub open spec fn mono_transaction(account_id: Seq<char>, t: Option<Json>) -> TransactionView {
    TransactionView {
        id: text_or_empty(field(t, "_id"@)),
        account_id,
        amount: hundredths_or_zero(field(t, "amount"@)),
        currency: None,
        date: text_or_empty(field(t, "date"@)),
        description: text_or_empty(field(t, "narration"@)),
        category: as_text(field(t, "category"@)),
        merchant_name: None,
        pending: false,
        transaction_type: as_text(field(t, "type"@)),
        backend: "mono"@,
    }
}

pub open spec fn mono_institution(i: Option<Json>) -> InstitutionView {
    InstitutionView {
        id: text_or_empty(field(i, "_id"@)),
        name: text_or_empty(field(i, "name"@)),
        country: as_text(field(i, "country"@)),
        url: None,
        logo: as_text(field(i, "icon"@)),
        backend: "mono"@,
    }
}

pub open spec fn mono_payment(p: Option<Json>) -> PaymentView {
    PaymentView {
        id: text_or_empty(field(p, "id"@)),
        status: text_or_empty(field(p, "status"@)),
        amount: hundredths_or_zero(field(p, "amount"@)),
        currency: None,
        recipient: as_text(field(p, "account"@)),
        reference: as_text(field(p, "description"@)),
        created_at: as_text(field(p, "created_at"@)),
        backend: "mono"@,
    }
}

/// `accounts/{id}/transactions?start={from}&end={to}&limit={limit}`.
pub open spec fn mono_transactions_path(account_id: Seq<char>, from: Seq<char>, to: Seq<char>, limit: u32) -> Seq<char> {
    "accounts/"@ + account_id + "/transactions?start="@ + from + "&end="@ + to + "&limit="@ + decimal(limit as nat)
}

/// A JSON number for a signed integer.
pub open spec fn int_json(n: i64) -> Json {
    if n < 0 {
        Json::Number(JsonNumber::NegInt(n))
    } else {
        Json::Number(JsonNumber::PosInt(n as u64))
    }
}

impl MonoBackend {
    /// The backend for one account and the secret key that opens it.
    pub fn new(secret_key: String, account_id: String) -> (r: Self)
        ensures
            r@ == (MonoView { secret_key: secret_key@, account_id: account_id@ }),
    {
        MonoBackend { secret_key, account_id }
    }

    /// `mono`.
    pub fn name(&self) -> (r: &'static str)
        ensures
            r@ == "mono"@,
    {
        "mono"
    }

    fn request(&self, method: Method, path: &str, body: Option<JsonValue>) -> (r: Request)
        ensures
            r@ == mono_request(self@, method, path@, match body {
                Some(b) => Some(b.json()),
                None => None,
            }),
    {
        proof {
            reveal_strlit("https://api.withmono.com/v2");
        }
        Request {
            method,
            url: join_url_text("https://api.withmono.com/v2", path),
            auth: Auth::Header { name: "mono-sec-key".to_owned(), value: self.secret_key.clone() },
            body,
        }
    }

    /// A GET of `path`.
    pub fn get(&self, path: &str) -> (r: Request)
        ensures
            r@ == mono_request(self@, Method::Get, path@, None),
    {
        self.request(Method::Get, path, None)
    }

    /// A POST of `body` to `path`.
    pub fn post(&self, path: &str, body: JsonValue) -> (r: Request)
        ensures
            r@ == mono_request(self@, Method::Post, path@, Some(body.json())),
    {
        self.request(Method::Post, path, Some(body))
    }

    fn account_path(&self, suffix: &str) -> (r: String)
        ensures
            r@ == "accounts/"@ + self@.account_id + suffix@,
    {
        let mut p = "accounts/".to_owned();
        p.append(self.account_id.as_str());
        p.append(suffix);
        p
    }

    /// The request that lists the accounts: the one account.
    pub fn list_accounts_request(&self) -> (r: Request)
        ensures
            r@ == mono_request(self@, Method::Get, "accounts/"@ + self@.account_id, None),
    {
        self.get_account_request(self.account_id.as_str())
    }

    /// The accounts: the one account of an `accounts/{id}` response.
    pub fn accounts_from(&self, resp: &JsonValue) -> (r: Vec<BankAccount>)
        requires
            mask_cuts_cleanly(field(data(resp.json()), "account_number"@)),
        ensures
            r@.map_values(|a: BankAccount| a@) == seq![mono_account(self@.account_id, resp.json())],
    {
        let r = vec![self.account_from(self.account_id.as_str(), resp)];
        assert(r@.map_values(|a: BankAccount| a@) =~= seq![mono_account(self@.account_id, resp.json())]);
        r
    }

    /// The request for one account.
    pub fn get_account_request(&self, id: &str) -> (r: Request)
        ensures
            r@ == mono_request(self@, Method::Get, "accounts/"@ + id@, None),
    {
        let mut p = "accounts/".to_owned();
        p.append(id);
        self.get(p.as_str())
    }

    /// Whether the account number of an `accounts/{id}` response can be
    /// masked (its last four bytes begin a character).
    pub fn account_number_is_clean(&self, resp: &JsonValue) -> (r: bool)
        ensures
            r == mask_cuts_cleanly(field(data(resp.json()), "account_number"@)),
    {
        mask_is_clean(at(at(Some(resp), "data"), "account_number"))
    }

    /// The account of an `accounts/{id}` response: balances in minor units,
    /// the account number masked to its last four bytes.
    pub fn account_from(&self, id: &str, resp: &JsonValue) -> (r: BankAccount)
        requires
            mask_cuts_cleanly(field(data(resp.json()), "account_number"@)),
        ensures
            r@ == mono_account(id@, resp.json()),
    {
        let d = at(Some(resp), "data");
        BankAccount {
            id: id.to_owned(),
            name: text_or_default(at(d, "name")),
            account_type: text_opt(at(d, "type")),
            subtype: None,
            mask: mask_from(at(d, "account_number")),
            currency: text_opt(at(d, "currency")),
            balance_available: None,
            balance_current: hundredths_amount_of(at(d, "balance")),
            institution_id: None,
            institution_name: text_opt(at(at(d, "institution"), "name")),
            backend: "mono".to_owned(),
        }
    }

    /// The request for the balance of the one account.
    pub fn get_balances_request(&self) -> (r: Request)
        ensures
            r@ == mono_request(self@, Method::Get, "accounts/"@ + self@.account_id + "/balance"@, None),
    {
        let p = self.account_path("/balance");
        self.get(p.as_str())
    }

    /// The balances: that of the one account, read from its `balance`
    /// response.
    pub fn balances_from(&self, resp: &JsonValue) -> (r: Vec<Balance>)
        ensures
            r@.map_values(|b: Balance| b@) == seq![mono_balance(self@.account_id, resp.json())],
    {
        let d = at(Some(resp), "data");
        let b = Balance {
            account_id: self.account_id.clone(),
            account_name: Some(text_or_default(at(d, "name"))),
            available: None,
            current: hundredths_or_zero_of(at(d, "balance")),
            currency: text_opt(at(d, "currency")),
            backend: "mono".to_owned(),
        };
        let r = vec![b];
        assert(r@.map_values(|b: Balance| b@) =~= seq![mono_balance(self@.account_id, resp.json())]);
        r
    }

    /// The request for `limit` transactions of an account over a period.
    pub fn list_transactions_request(&self, account_id: &str, from: &str, to: &str, limit: u32) -> (r: Request)
        ensures
            r@ == mono_request(self@, Method::Get, mono_transactions_path(account_id@, from@, to@, limit), None),
    {
        let mut p = "accounts/".to_owned();
        p.append(account_id);
        p.append("/transactions?start=");
        p.append(from);
        p.append("&end=");
        p.append(to);
        p.append("&limit=");
        p.append(decimal_text(limit as u64).as_str());
        self.get(p.as_str())
    }

    /// The request that a search reads: `limit` transactions from 2020 to
    /// 2030.
    pub fn search_transactions_request(&self, limit: u32) -> (r: Request)
        ensures
            r@ == mono_request(
                self@,
                Method::Get,
                mono_transactions_path(self@.account_id, "2020-01-01"@, "2030-12-31"@, limit),
                None,
            ),
    {
        self.list_transactions_request(self.account_id.as_str(), "2020-01-01", "2030-12-31", limit)
    }

    /// The first `limit` transactions of a transactions response, each of
    /// the account asked for.
    pub fn transactions_from(&self, account_id: &str, resp: &JsonValue, limit: u32) -> (r: Vec<Transaction>)
        ensures
            r@.map_values(|t: Transaction| t@) == first_n(
                map_items(data(resp.json()), |j: Json| mono_transaction(account_id@, Some(j))),
                limit as nat,
            ),
            r@.len() <= limit,
    {
        let f = |t: &JsonValue| -> (r: Transaction)
            ensures
                r@ == mono_transaction(account_id@, Some(t.json())),
            { transaction_of(account_id, Some(t)) };
        let all = collect_items(at(Some(resp), "data"), f, Ghost(|j: Json| mono_transaction(account_id@, Some(j))));
        keep_first(all, limit)
    }

    /// Of the first `limit` transactions of a search's response, those whose
    /// description or merchant contains the query, ignoring case, in their
    /// order.
    pub fn search_results(&self, resp: &JsonValue, query: &str, limit: u32) -> (r: Vec<Transaction>)
        ensures
            transactions_view(r@) == first_n(
                map_items(data(resp.json()), |j: Json| mono_transaction(self@.account_id, Some(j))),
                limit as nat,
            ).filter(|t: TransactionView| transaction_matches(t, query@)),
            r@.len() <= limit,
    {
        let first = self.transactions_from(self.account_id.as_str(), resp, limit);
        let r = search_matches(first, query);
        proof {
            transactions_view(first@).lemma_filter_len(|t: TransactionView| transaction_matches(t, query@));
        }
        r
    }

    /// The request for one transaction.
    pub fn get_transaction_request(&self, id: &str) -> (r: Request)
        ensures
            r@ == mono_request(self@, Method::Get, "accounts/"@ + self@.account_id + "/transactions/"@ + id@, None),
    {
        let mut p = self.account_path("/transactions/");
        p.append(id);
        self.get(p.as_str())
    }

    /// The request that categorising a transaction sends: the lookup's own
    /// request, so no write is sent; its answer reads as `transaction_from`
    /// reads it.
    pub fn categorize_transaction_request(&self, id: &str) -> (r: Request)
        ensures
            r@ == mono_request(self@, Method::Get, "accounts/"@ + self@.account_id + "/transactions/"@ + id@, None),
    {
        self.get_transaction_request(id)
    }

    /// The transaction of a single-transaction response.
    pub fn transaction_from(&self, resp: &JsonValue) -> (r: Transaction)
        ensures
            r@ == mono_transaction(self@.account_id, data(resp.json())),
    {
        transaction_of(self.account_id.as_str(), at(Some(resp), "data"))
    }

    /// The request for the account holder.
    pub fn get_identity_request(&self) -> (r: Request)
        ensures
            r@ == mono_request(self@, Method::Get, "accounts/"@ + self@.account_id + "/identity"@, None),
    {
        let p = self.account_path("/identity");
        self.get(p.as_str())
    }

    /// The account holder of an identity response.
    pub fn identity_from(&self, resp: &JsonValue) -> (r: Identity)
        ensures
            r@ == (IdentityView {
                name: as_text(field(data(resp.json()), "full_name"@)),
                email: as_text(field(data(resp.json()), "email"@)),
                phone: as_text(field(data(resp.json()), "phone"@)),
                address: as_text(field(data(resp.json()), "address_line1"@)),
                backend: "mono"@,
            }),
    {
        let d = at(Some(resp), "data");
        Identity {
            name: text_opt(at(d, "full_name")),
            email: text_opt(at(d, "email")),
            phone: text_opt(at(d, "phone")),
            address: text_opt(at(d, "address_line1")),
            backend: "mono".to_owned(),
        }
    }

    /// The request for the institutions, of one country when one is given.
    pub fn list_institutions_request(&self, country: Option<&str>) -> (r: Request)
        ensures
            r@ == mono_request(self@, Method::Get, match country {
                Some(c) => "coverage?country="@ + c@,
                None => "coverage"@,
            }, None),
    {
        let p = match country {
            Some(c) => {
                let mut p = "coverage?country=".to_owned();
                p.append(c);
                p
            },
            None => "coverage".to_owned(),
        };
        self.get(p.as_str())
    }

    /// The first `limit` institutions of a coverage response.
    pub fn institutions_from(&self, resp: &JsonValue, limit: u32) -> (r: Vec<Institution>)
        ensures
            r@.map_values(|i: Institution| i@) == first_n(
                map_items(data(resp.json()), |j: Json| mono_institution(Some(j))),
                limit as nat,
            ),
            r@.len() <= limit,
    {
        let all = collect_items(at(Some(resp), "data"), institution_of, Ghost(|j: Json| mono_institution(Some(j))));
        keep_first(all, limit)
    }

    /// The request that starts a payment of `minor_units` (the amount times
    /// 100, truncated) to a recipient.
    pub fn initiate_payment_request(&self, minor_units: i64, recipient: &str, reference: &str) -> (r: Request)
        ensures
            r@ == mono_request(
                self@,
                Method::Post,
                "payments/initiate"@,
                Some(Json::Object(
                    seq![
                        ("amount"@, int_json(minor_units)),
                        ("type"@, Json::Str("onetime"@)),
                        ("description"@, Json::Str(reference@)),
                        ("account"@, Json::Str(recipient@)),
                    ],
                )),
            ),
    {
        let amount = if minor_units < 0 {
            JsonValue::Number(JsonNumber::NegInt(minor_units))
        } else {
            JsonValue::Number(JsonNumber::PosInt(minor_units as u64))
        };
        let body = obj4(
            "amount",
            amount,
            "type",
            string_value("onetime"),
            "description",
            string_value(reference),
            "account",
            string_value(recipient),
        );
        self.post("payments/initiate", body)
    }

    /// The payment that a `payments/initiate` response reports: its id and
    /// status (`pending` when none is given), with the amount (a float, by
    /// its IEEE-754 bits), recipient and reference asked for.
    pub fn initiated_payment(&self, resp: &JsonValue, amount_bits: u64, recipient: &str, reference: &str) -> (r: Payment)
        ensures
            r@ == (PaymentView {
                id: text_or_empty(field(data(resp.json()), "id"@)),
                status: match as_text(field(data(resp.json()), "status"@)) {
                    Some(s) => s,
                    None => "pending"@,
                },
                amount: AmountView::Number(JsonNumber::Float(amount_bits)),
                currency: None,
                recipient: Some(recipient@),
                reference: Some(reference@),
                created_at: None,
                backend: "mono"@,
            }),
    {
        let d = at(Some(resp), "data");
        let status = match text_opt(at(d, "status")) {
            Some(s) => s,
            None => "pending".to_owned(),
        };
        Payment {
            id: text_or_default(at(d, "id")),
            status,
            amount: Amount::Number(JsonNumber::Float(amount_bits)),
            currency: None,
            recipient: Some(recipient.to_owned()),
            reference: Some(reference.to_owned()),
            created_at: None,
            backend: "mono".to_owned(),
        }
    }

    /// The request for the status of a payment.
    pub fn get_payment_status_request(&self, id: &str) -> (r: Request)
        ensures
            r@ == mono_request(self@, Method::Get, "payments/"@ + id@, None),
    {
        let mut p = "payments/".to_owned();
        p.append(id);
        self.get(p.as_str())
    }

    /// The payment of a payment response.
    pub fn payment_from(&self, resp: &JsonValue) -> (r: Payment)
        ensures
            r@ == mono_payment(data(resp.json())),
    {
        payment_of(at(Some(resp), "data"))
    }

    /// The request for the payments.
    pub fn list_payments_request(&self) -> (r: Request)
        ensures
            r@ == mono_request(self@, Method::Get, "payments"@, None),
    {
        self.get("payments")
    }

    /// The first `limit` payments of a payments response.
    pub fn payments_from(&self, resp: &JsonValue, limit: u32) -> (r: Vec<Payment>)
        ensures
            r@.map_values(|p: Payment| p@) == first_n(
                map_items(data(resp.json()), |j: Json| mono_payment(Some(j))),
                limit as nat,
            ),
            r@.len() <= limit,
    {
        let f = |p: &JsonValue| -> (r: Payment)
            ensures
                r@ == mono_payment(Some(p.json())),
            { payment_of(Some(p)) };
        let all = collect_items(at(Some(resp), "data"), f, Ghost(|j: Json| mono_payment(Some(j))));
        keep_first(all, limit)
    }

    /// The request for the statement of an account over `{from}_{to}`.
    pub fn get_statement_request(&self, account_id: &str, from: &str, to: &str) -> (r: Request)
        ensures
            r@ == mono_request(
                self@,
                Method::Post,
                "accounts/"@ + account_id@ + "/statement"@,
                Some(Json::Object(seq![("period"@, Json::Str(from@ + "_"@ + to@))])),
            ),
    {
        let mut p = "accounts/".to_owned();
        p.append(account_id);
        p.append("/statement");
        let mut period = from.to_owned();
        period.append("_");
        period.append(to);
        self.post(p.as_str(), obj1("period", JsonValue::Str(period)))
    }

    /// The statement of the account asked for, from a statement response: balances in minor units, the
    /// number of its transactions (modulo 2^32).
    pub fn statement_from(&self, resp: &JsonValue, account_id: &str, from: &str, to: &str) -> (r: Statement)
        ensures
            r@ == (StatementView {
                account_id: account_id@,
                period_start: from@,
                period_end: to@,
                opening_balance: hundredths_amount(field(data(resp.json()), "opening_balance"@)),
                closing_balance: hundredths_amount(field(data(resp.json()), "closing_balance"@)),
                transaction_count: match as_items(field(data(resp.json()), "transactions"@)) {
                    Some(a) => a.len() as u32,
                    None => 0,
                },
                backend: "mono"@,
            }),
    {
        let d = at(Some(resp), "data");
        let count = match items_of(at(d, "transactions")) {
            Some(a) => a.len() as u32,
            None => 0,
        };
        Statement {
            account_id: account_id.to_owned(),
            period_start: from.to_owned(),
            period_end: to.to_owned(),
            opening_balance: hundredths_amount_of(at(d, "opening_balance")),
            closing_balance: hundredths_amount_of(at(d, "closing_balance")),
            transaction_count: count,
            backend: "mono".to_owned(),
        }
    }

    /// The request that triggers a sync.
    pub fn sync_transactions_request(&self) -> (r: Request)
        ensures
            r@ == mono_request(self@, Method::Post, "accounts/"@ + self@.account_id + "/sync"@, Some(Json::Object(Seq::empty()))),
    {
        let p = self.account_path("/sync");
        self.post(p.as_str(), crate::plaid::empty_object())
    }

    /// What a sync answers once its request succeeded.
    pub fn sync_message(&self) -> (r: String)
        ensures
            r@ == "Sync triggered"@,
    {
        "Sync triggered".to_owned()
    }
}

fn transaction_of(account_id: &str, t: Option<&JsonValue>) -> (r: Transaction)
    ensures
        r@ == mono_transaction(account_id@, view_opt(t)),
{
    Transaction {
        id: text_or_default(at(t, "_id")),
        account_id: account_id.to_owned(),
        amount: hundredths_or_zero_of(at(t, "amount")),
        currency: None,
        date: text_or_default(at(t, "date")),
        description: text_or_default(at(t, "narration")),
        category: text_opt(at(t, "category")),
        merchant_name: None,
        pending: false,
        transaction_type: text_opt(at(t, "type")),
        backend: "mono".to_owned(),
    }
}

fn institution_of(i: &JsonValue) -> (r: Institution)
    ensures
        r@ == mono_institution(Some(i.json())),
{
    let a = Some(i);
    Institution {
        id: text_or_default(at(a, "_id")),
        name: text_or_default(at(a, "name")),
        country: text_opt(at(a, "country")),
        url: None,
        logo: text_opt(at(a, "icon")),
        backend: "mono".to_owned(),
    }
}

fn payment_of(p: Option<&JsonValue>) -> (r: Payment)
    ensures
        r@ == mono_payment(view_opt(p)),
{
    Payment {
        id: text_or_default(at(p, "id")),
        status: text_or_default(at(p, "status")),
        amount: hundredths_or_zero_of(at(p, "amount")),
        currency: None,
        recipient: text_opt(at(p, "account")),
        reference: text_opt(at(p, "description")),
        created_at: text_opt(at(p, "created_at")),
        backend: "mono".to_owned(),
    }
}

} // verus!
