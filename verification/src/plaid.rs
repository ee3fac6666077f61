//! Plaid (US, Canada, EU): what to ask the API and how to read its answers.
use vstd::prelude::*;
use vstd::string::*;
use crate::json::{
    Json, JsonNumber, JsonValue, arr1, as_flag, as_items, as_text, at, collect_items, entries_json,
    field, find_first, first_item, first_of, flag_of, items_of, lemma_find_first_at,
    lemma_find_first_none, lemma_object_json, map_items, first_n, keep_first, merge_members, merge_members_exec, obj1,
    obj2, obj3, object_value, string_value, text_is, text_opt, text_or_default, text_or_empty,
    view_opt,
};
use crate::request::{Auth, AuthView, Method, Request, RequestView, join_url, join_url_text};
use crate::text::{decimal, decimal_text, same_text, to_upper, uppercase};
use crate::types::{
    Amount, AmountView, Balance, BalanceView, BankAccount, BankAccountView, BackendError, Identity,
    IdentityView, Institution, InstitutionView, Payment, PaymentView, Statement, StatementView,
    Transaction, TransactionView, amount_opt_view, number_amount, number_amount_of, number_or_zero,
    number_or_zero_of, zero, zero_amount, transactions_view, transaction_matches, search_matches,
};

verus! {

/// The Plaid API of one environment, with the credentials of one item.
pub struct PlaidBackend {
    base_url: String,
    client_id: String,
    secret: String,
    access_token: String,
}

pub struct PlaidView {
    pub base_url: Seq<char>,
    pub client_id: Seq<char>,
    pub secret: Seq<char>,
    pub access_token: Seq<char>,
}

impl View for PlaidBackend {
    type V = PlaidView;

    closed spec fn view(&self) -> PlaidView {
        PlaidView {
            base_url: self.base_url@,
            client_id: self.client_id@,
            secret: self.secret@,
            access_token: self.access_token@,
        }
    }
}

/// The API host of an environment: production and development by name,
/// the sandbox for every other name.
pub open spec fn plaid_base_url(environment: Seq<char>) -> Seq<char> {
    if environment == "production"@ {
        "https://production.plaid.com"@
    } else if environment == "development"@ {
        "https://development.plaid.com"@
    } else {
        "https://sandbox.plaid.com"@
    }
}

/// The credential members that every request body carries.
pub open spec fn plaid_credentials(p: PlaidView, with_token: bool) -> Seq<(Seq<char>, Json)> {
    if with_token {
        seq![
            ("client_id"@, Json::Str(p.client_id)),
            ("secret"@, Json::Str(p.secret)),
            ("access_token"@, Json::Str(p.access_token)),
        ]
    } else {
        seq![("client_id"@, Json::Str(p.client_id)), ("secret"@, Json::Str(p.secret))]
    }
}

/// The body of a request: the credentials, then each member of `extra` set
/// on them when `extra` is an object.
pub open spec fn plaid_body(p: PlaidView, with_token: bool, extra: Json) -> Json {
    match extra {
        Json::Object(members) => Json::Object(merge_members(plaid_credentials(p, with_token), members)),
        _ => Json::Object(plaid_credentials(p, with_token)),
    }
}

/// A POST of `extra` (with the credentials) to `path`.
pub open spec fn plaid_request(p: PlaidView, path: Seq<char>, with_token: bool, extra: Json) -> RequestView {
    RequestView {
        method: Method::Post,
        url: join_url(p.base_url, path),
        auth: AuthView::InBody,
        body: Some(plaid_body(p, with_token, extra)),
    }
}

pub open spec fn plaid_account(acc: Json) -> BankAccountView {
    let a = Some(acc);
    let balances = field(a, "balances"@);
    BankAccountView {
        id: text_or_empty(field(a, "account_id"@)),
        name: text_or_empty(field(a, "name"@)),
        account_type: as_text(field(a, "type"@)),
        subtype: as_text(field(a, "subtype"@)),
        mask: as_text(field(a, "mask"@)),
        currency: as_text(field(balances, "iso_currency_code"@)),
        balance_available: number_amount(field(balances, "available"@)),
        balance_current: number_amount(field(balances, "current"@)),
        institution_id: None,
        institution_name: None,
        backend: "plaid"@,
    }
}

pub open spec fn plaid_balance(acc: Json) -> BalanceView {
    let a = Some(acc);
    let balances = field(a, "balances"@);
    BalanceView {
        account_id: text_or_empty(field(a, "account_id"@)),
        account_name: as_text(field(a, "name"@)),
        available: number_amount(field(balances, "available"@)),
        current: number_or_zero(field(balances, "current"@)),
        currency: as_text(field(balances, "iso_currency_code"@)),
        backend: "plaid"@,
    }
}

/// A transaction; its type is read only where `with_type` holds.
pub open spec fn plaid_transaction(t: Json, with_type: bool) -> TransactionView {
    let a = Some(t);
    TransactionView {
        id: text_or_empty(field(a, "transaction_id"@)),
        account_id: text_or_empty(field(a, "account_id"@)),
        amount: number_or_zero(field(a, "amount"@)),
        currency: as_text(field(a, "iso_currency_code"@)),
        date: text_or_empty(field(a, "date"@)),
        description: text_or_empty(field(a, "name"@)),
        category: as_text(first_item(field(a, "category"@))),
        merchant_name: as_text(field(a, "merchant_name"@)),
        pending: match as_flag(field(a, "pending"@)) {
            Some(b) => b,
            None => false,
        },
        transaction_type: if with_type { as_text(field(a, "transaction_type"@)) } else { None },
        backend: "plaid"@,
    }
}

pub open spec fn plaid_identity(resp: Json) -> IdentityView {
    let owner = first_item(field(first_item(field(Some(resp), "accounts"@)), "owners"@));
    IdentityView {
        name: as_text(first_item(field(owner, "names"@))),
        email: as_text(field(first_item(field(owner, "emails"@)), "data"@)),
        phone: as_text(field(first_item(field(owner, "phone_numbers"@)), "data"@)),
        address: as_text(field(field(first_item(field(owner, "addresses"@)), "data"@), "street"@)),
        backend: "plaid"@,
    }
}

pub open spec fn plaid_institution(i: Json) -> InstitutionView {
    let a = Some(i);
    InstitutionView {
        id: text_or_empty(field(a, "institution_id"@)),
        name: text_or_empty(field(a, "name"@)),
        country: as_text(first_item(field(a, "country_codes"@))),
        url: as_text(field(a, "url"@)),
        logo: as_text(field(a, "logo"@)),
        backend: "plaid"@,
    }
}

pub open spec fn plaid_payment(p: Json) -> PaymentView {
    let a = Some(p);
    PaymentView {
        id: text_or_empty(field(a, "payment_id"@)),
        status: text_or_empty(field(a, "status"@)),
        amount: number_or_zero(field(field(a, "amount"@), "value"@)),
        currency: as_text(field(field(a, "amount"@), "currency"@)),
        recipient: as_text(field(a, "recipient_id"@)),
        reference: as_text(field(a, "reference"@)),
        created_at: as_text(field(a, "created_at"@)),
        backend: "plaid"@,
    }
}

/// The number of elements of an array member, 0 for anything else.
pub open spec fn item_count(v: Option<Json>) -> nat {
    match as_items(v) {
        Some(items) => items.len(),
        None => 0,
    }
}

/// `Synced: {added} added, {modified} modified`.
pub open spec fn plaid_sync_summary(resp: Json) -> Seq<char> {
    "Synced: "@ + decimal(item_count(field(Some(resp), "added"@))) + " added, "@ + decimal(
        item_count(field(Some(resp), "modified"@)),
    ) + " modified"@
}

/// A JSON number for a float given by its IEEE-754 bits; `null` for a
/// non-finite float, as `serde_json` writes one.
pub open spec fn float_json(bits: u64) -> Json {
    if (bits >> 52u64) & 0x7ffu64 != 0x7ffu64 {
        Json::Number(JsonNumber::Float(bits))
    } else {
        Json::Null
    }
}

pub fn float_value(bits: u64) -> (r: JsonValue)
    ensures
        r.json() == float_json(bits),
{
    if (bits >> 52u64) & 0x7ffu64 != 0x7ffu64 {
        JsonValue::Number(JsonNumber::Float(bits))
    } else {
        JsonValue::Null
    }
}

/// A JSON number for a count.
pub fn count_value(n: u32) -> (r: JsonValue)
    ensures
        r.json() == Json::Number(JsonNumber::PosInt(n as u64)),
{
    JsonValue::Number(JsonNumber::PosInt(n as u64))
}

/// The empty JSON object.
pub fn empty_object() -> (r: JsonValue)
    ensures
        r.json() == Json::Object(Seq::empty()),
{
    let r = object_value(Vec::new());
    assert(r.json()->Object_0 =~= Seq::<(Seq<char>, Json)>::empty());
    r
}

} // verus!

verus! {

/// Whether a transaction has the id asked for.
pub open spec fn plaid_has_id(t: Json, id: Seq<char>) -> bool {
    as_text(field(Some(t), "transaction_id"@)) == Some(id)
}

/// The country an institution listing asks for: the given code
/// upper-cased, or the US.
pub open spec fn plaid_country(country: Option<&str>) -> Seq<char> {
    match country {
        Some(c) => uppercase(c@),
        None => "US"@,
    }
}

/// The list of transactions of a response.
pub open spec fn plaid_transaction_list(resp: Json) -> Seq<Json> {
    match as_items(field(Some(resp), "transactions"@)) {
        Some(items) => items,
        None => Seq::empty(),
    }
}

/// The balance the statement closes on: the current balance of the first
/// balance for the account, or zero.
pub open spec fn closing_of(balances: Seq<BalanceView>, account_id: Seq<char>) -> AmountView {
    match find_first(balances, |b: BalanceView| b.account_id == account_id) {
        Some(b) => b.current,
        None => zero(),
    }
}

pub open spec fn balances_view(balances: Seq<Balance>) -> Seq<BalanceView> {
    balances.map_values(|b: Balance| b@)
}

impl PlaidBackend {
    /// The backend for an environment (`production`, `development`, or the
    /// sandbox for any other name) with the given credentials.
    pub fn new(client_id: String, secret: String, access_token: String, environment: &str) -> (r: Self)
        ensures
            r@ == (PlaidView {
                base_url: plaid_base_url(environment@),
                client_id: client_id@,
                secret: secret@,
                access_token: access_token@,
            }),
    {
        let base = if same_text(environment, "production") {
            "https://production.plaid.com"
        } else if same_text(environment, "development") {
            "https://development.plaid.com"
        } else {
            "https://sandbox.plaid.com"
        };
        PlaidBackend { base_url: base.to_owned(), client_id, secret, access_token }
    }

    /// `plaid`.
    pub fn name(&self) -> (r: &'static str)
        ensures
            r@ == "plaid"@,
    {
        "plaid"
    }

    fn credentials(&self, with_token: bool) -> (r: Vec<(String, JsonValue)>)
        ensures
            entries_json(r@) == plaid_credentials(self@, with_token),
    {
        let mut r = vec![
            ("client_id".to_owned(), JsonValue::Str(self.client_id.clone())),
            ("secret".to_owned(), JsonValue::Str(self.secret.clone())),
        ];
        if with_token {
            r.push(("access_token".to_owned(), JsonValue::Str(self.access_token.clone())));
        }
        assert(entries_json(r@) =~= plaid_credentials(self@, with_token));
        r
    }

    /// The body of a request: the credentials with the members of `extra`
    /// set on them.
    pub fn body(&self, with_token: bool, extra: JsonValue) -> (r: JsonValue)
        ensures
            r.json() == plaid_body(self@, with_token, extra.json()),
    {
        let ghost extra_json = extra.json();
        let mut entries = self.credentials(with_token);
        match extra {
            JsonValue::Object(members) => {
                proof {
                    lemma_object_json(members);
                }
                merge_members_exec(&mut entries, members);
            },
            _ => {},
        }
        proof {
            lemma_object_json(entries);
        }
        JsonValue::Object(entries)
    }

    fn request(&self, path: &str, with_token: bool, extra: JsonValue) -> (r: Request)
        ensures
            r@ == plaid_request(self@, path@, with_token, extra.json()),
    {
        Request {
            method: Method::Post,
            url: join_url_text(self.base_url.as_str(), path),
            auth: Auth::InBody,
            body: Some(self.body(with_token, extra)),
        }
    }

    /// A POST of `extra` to `path`, with the access token.
    pub fn post(&self, path: &str, extra: JsonValue) -> (r: Request)
        ensures
            r@ == plaid_request(self@, path@, true, extra.json()),
    {
        self.request(path, true, extra)
    }

    /// A POST of `extra` to `path`, without the access token.
    pub fn post_no_token(&self, path: &str, extra: JsonValue) -> (r: Request)
        ensures
            r@ == plaid_request(self@, path@, false, extra.json()),
    {
        self.request(path, false, extra)
    }

    /// The request that lists the accounts.
    pub fn list_accounts_request(&self) -> (r: Request)
        ensures
            r@ == plaid_request(self@, "accounts/get"@, true, Json::Object(Seq::empty())),
    {
        self.post("accounts/get", crate::plaid::empty_object())
    }

    /// The accounts of an `accounts/get` response.
    pub fn accounts_from(&self, resp: &JsonValue) -> (r: Vec<BankAccount>)
        ensures
            r@.map_values(|a: BankAccount| a@) == map_items(field(Some(resp.json()), "accounts"@), |j: Json| plaid_account(j)),
    {
        collect_items(at(Some(resp), "accounts"), account_of, Ghost(|j: Json| plaid_account(j)))
    }

    /// The request for one account.
    pub fn get_account_request(&self, id: &str) -> (r: Request)
        ensures
            r@ == plaid_request(
                self@,
                "accounts/get"@,
                true,
                Json::Object(seq![("options"@, Json::Object(seq![("account_ids"@, Json::Array(seq![Json::Str(id@)]))]))]),
            ),
    {
        self.post("accounts/get", obj1("options", obj1("account_ids", arr1(string_value(id)))))
    }

    /// The first account of a response; an error when there is none.
    pub fn account_from(&self, resp: &JsonValue) -> (r: Result<BankAccount, BackendError>)
        ensures
            match first_item(field(Some(resp.json()), "accounts"@)) {
                Some(acc) => r matches Ok(a) && a@ == plaid_account(acc),
                None => r matches Err(BackendError::AccountNotFound),
            },
    {
        match first_of(at(Some(resp), "accounts")) {
            Some(acc) => Ok(account_of(acc)),
            None => Err(BackendError::AccountNotFound),
        }
    }

    /// The request for the balances.
    pub fn get_balances_request(&self) -> (r: Request)
        ensures
            r@ == plaid_request(self@, "accounts/balance/get"@, true, Json::Object(Seq::empty())),
    {
        self.post("accounts/balance/get", crate::plaid::empty_object())
    }

    /// The balances of an `accounts/balance/get` response.
    pub fn balances_from(&self, resp: &JsonValue) -> (r: Vec<Balance>)
        ensures
            r@.map_values(|b: Balance| b@) == map_items(field(Some(resp.json()), "accounts"@), |j: Json| plaid_balance(j)),
    {
        collect_items(at(Some(resp), "accounts"), balance_of, Ghost(|j: Json| plaid_balance(j)))
    }

    /// The request for the transactions of one account over a period.
    pub fn list_transactions_request(&self, account_id: &str, from: &str, to: &str, limit: u32) -> (r: Request)
        ensures
            r@ == plaid_request(
                self@,
                "transactions/get"@,
                true,
                Json::Object(
                    seq![
                        ("start_date"@, Json::Str(from@)),
                        ("end_date"@, Json::Str(to@)),
                        ("options"@, Json::Object(seq![
                            ("account_ids"@, Json::Array(seq![Json::Str(account_id@)])),
                            ("count"@, Json::Number(JsonNumber::PosInt(limit as u64))),
                        ])),
                    ],
                ),
            ),
    {
        let options = obj2("account_ids", arr1(string_value(account_id)), "count", count_value(limit));
        self.post("transactions/get", obj3("start_date", string_value(from), "end_date", string_value(to), "options", options))
    }

    /// The first `limit` transactions of a `transactions/get` response, with
    /// their types.
    pub fn transactions_from(&self, resp: &JsonValue, limit: u32) -> (r: Vec<Transaction>)
        ensures
            r@.map_values(|t: Transaction| t@) == first_n(
                map_items(field(Some(resp.json()), "transactions"@), |j: Json| plaid_transaction(j, true)),
                limit as nat,
            ),
            r@.len() <= limit,
    {
        let all = collect_items(at(Some(resp), "transactions"), typed_transaction_of, Ghost(|j: Json| plaid_transaction(j, true)));
        keep_first(all, limit)
    }

    /// The request that looks a transaction up (and searches): every
    /// transaction of the whole period, `count` of them.
    pub fn all_transactions_request(&self, count: u32) -> (r: Request)
        ensures
            r@ == plaid_request(
                self@,
                "transactions/get"@,
                true,
                Json::Object(
                    seq![
                        ("start_date"@, Json::Str("2020-01-01"@)),
                        ("end_date"@, Json::Str("2030-12-31"@)),
                        ("options"@, Json::Object(seq![("count"@, Json::Number(JsonNumber::PosInt(count as u64)))])),
                    ],
                ),
            ),
    {
        let options = obj1("count", count_value(count));
        self.post(
            "transactions/get",
            obj3("start_date", string_value("2020-01-01"), "end_date", string_value("2030-12-31"), "options", options),
        )
    }

    /// The request for one transaction.
    pub fn get_transaction_request(&self) -> (r: Request)
        ensures
            r@ == plaid_request(
                self@,
                "transactions/get"@,
                true,
                Json::Object(
                    seq![
                        ("start_date"@, Json::Str("2020-01-01"@)),
                        ("end_date"@, Json::Str("2030-12-31"@)),
                        ("options"@, Json::Object(seq![("count"@, Json::Number(JsonNumber::PosInt(500)))])),
                    ],
                ),
            ),
    {
        self.all_transactions_request(500)
    }

    /// The request that categorising a transaction sends: the lookup's own
    /// request, so no write is sent; its answer reads as `transaction_from`
    /// reads it.
    pub fn categorize_transaction_request(&self) -> (r: Request)
        ensures
            r@ == plaid_request(
                self@,
                "transactions/get"@,
                true,
                Json::Object(
                    seq![
                        ("start_date"@, Json::Str("2020-01-01"@)),
                        ("end_date"@, Json::Str("2030-12-31"@)),
                        ("options"@, Json::Object(seq![("count"@, Json::Number(JsonNumber::PosInt(500)))])),
                    ],
                ),
            ),
    {
        self.get_transaction_request()
    }

    /// The first transaction of a response with the id asked for (without
    /// its type); an error when none has it.
    pub fn transaction_from(&self, resp: &JsonValue, id: &str) -> (r: Result<Transaction, BackendError>)
        ensures
            match find_first(plaid_transaction_list(resp.json()), |t: Json| plaid_has_id(t, id@)) {
                Some(t) => r matches Ok(x) && x@ == plaid_transaction(t, false),
                None => r matches Err(BackendError::TransactionNotFound),
            },
    {
        match items_of(at(Some(resp), "transactions")) {
            Some(items) => {
                let ghost js = items@.map_values(|x: JsonValue| x.json());
                let ghost p = |t: Json| plaid_has_id(t, id@);
                assert(plaid_transaction_list(resp.json()) == js);
                let mut i: usize = 0;
                while i < items.len()
                    invariant
                        i <= items@.len(),
                        js == items@.map_values(|x: JsonValue| x.json()),
                        plaid_transaction_list(resp.json()) == js,
                        p == (|t: Json| plaid_has_id(t, id@)),
                        forall|j: int| 0 <= j < i ==> !p(#[trigger] js[j]),
                    decreases items@.len() - i,
                {
                    assert(js[i as int] == items@[i as int].json());
                    if text_is(at(Some(&items[i]), "transaction_id"), id) {
                        proof {
                            lemma_find_first_at(js, p, i as int);
                        }
                        return Ok(transaction_of(&items[i]));
                    }
                    i += 1;
                }
                proof {
                    lemma_find_first_none(js, p);
                }
                Err(BackendError::TransactionNotFound)
            },
            None => {
                assert(plaid_transaction_list(resp.json()) =~= Seq::<Json>::empty());
                Err(BackendError::TransactionNotFound)
            },
        }
    }

    /// The request that a search reads: `limit` transactions of the whole
    /// period.
    pub fn search_transactions_request(&self, limit: u32) -> (r: Request)
        ensures
            r@ == plaid_request(
                self@,
                "transactions/get"@,
                true,
                Json::Object(
                    seq![
                        ("start_date"@, Json::Str("2020-01-01"@)),
                        ("end_date"@, Json::Str("2030-12-31"@)),
                        ("options"@, Json::Object(seq![("count"@, Json::Number(JsonNumber::PosInt(limit as u64)))])),
                    ],
                ),
            ),
    {
        self.all_transactions_request(limit)
    }

    /// Of the first `limit` transactions of a response (read without their
    /// types), those whose description or merchant contains the query,
    /// ignoring case, in their order.
    pub fn search_results(&self, resp: &JsonValue, query: &str, limit: u32) -> (r: Vec<Transaction>)
        ensures
            transactions_view(r@) == first_n(
                map_items(field(Some(resp.json()), "transactions"@), |j: Json| plaid_transaction(j, false)),
                limit as nat,
            ).filter(|t: TransactionView| transaction_matches(t, query@)),
            r@.len() <= limit,
    {
        let all = collect_items(at(Some(resp), "transactions"), transaction_of, Ghost(|j: Json| plaid_transaction(j, false)));
        let first = keep_first(all, limit);
        let r = search_matches(first, query);
        proof {
            let v = transactions_view(first@);
            v.lemma_filter_len(|t: TransactionView| transaction_matches(t, query@));
        }
        r
    }

    /// The request for the account holder.
    pub fn get_identity_request(&self) -> (r: Request)
        ensures
            r@ == plaid_request(self@, "identity/get"@, true, Json::Object(Seq::empty())),
    {
        self.post("identity/get", crate::plaid::empty_object())
    }

    /// The holder of the first account of an `identity/get` response: the
    /// first of each of its first owner's names, emails, phone numbers and
    /// addresses.
    pub fn identity_from(&self, resp: &JsonValue) -> (r: Identity)
        ensures
            r@ == plaid_identity(resp.json()),
    {
        let owner = first_of(at(first_of(at(Some(resp), "accounts")), "owners"));
        Identity {
            name: text_opt(first_of(at(owner, "names"))),
            email: text_opt(at(first_of(at(owner, "emails")), "data")),
            phone: text_opt(at(first_of(at(owner, "phone_numbers")), "data")),
            address: text_opt(at(at(first_of(at(owner, "addresses")), "data"), "street")),
            backend: "plaid".to_owned(),
        }
    }

    /// The request for `limit` institutions of a country (upper-cased), of
    /// the US when none is given.
    pub fn list_institutions_request(&self, country: Option<&str>, limit: u32) -> (r: Request)
        ensures
            r@ == plaid_request(
                self@,
                "institutions/get"@,
                false,
                Json::Object(
                    seq![
                        ("count"@, Json::Number(JsonNumber::PosInt(limit as u64))),
                        ("offset"@, Json::Number(JsonNumber::PosInt(0))),
                        ("country_codes"@, Json::Array(seq![Json::Str(plaid_country(country))])),
                    ],
                ),
            ),
    {
        let code = match country {
            Some(c) => to_upper(c),
            None => "US".to_owned(),
        };
        assert(code@ == plaid_country(country));
        let body = obj3("count", count_value(limit), "offset", count_value(0), "country_codes", arr1(JsonValue::Str(code)));
        self.post_no_token("institutions/get", body)
    }

    /// The first `limit` institutions of an `institutions/get` response.
    pub fn institutions_from(&self, resp: &JsonValue, limit: u32) -> (r: Vec<Institution>)
        ensures
            r@.map_values(|i: Institution| i@) == first_n(
                map_items(field(Some(resp.json()), "institutions"@), |j: Json| plaid_institution(j)),
                limit as nat,
            ),
            r@.len() <= limit,
    {
        let all = collect_items(at(Some(resp), "institutions"), institution_of, Ghost(|j: Json| plaid_institution(j)));
        keep_first(all, limit)
    }

    /// The request for one institution, looked up in the US, GB and EU.
    pub fn get_institution_request(&self, id: &str) -> (r: Request)
        ensures
            r@ == plaid_request(
                self@,
                "institutions/get_by_id"@,
                false,
                Json::Object(
                    seq![
                        ("institution_id"@, Json::Str(id@)),
                        ("country_codes"@, Json::Array(seq![Json::Str("US"@), Json::Str("GB"@), Json::Str("EU"@)])),
                    ],
                ),
            ),
    {
        let codes = crate::json::arr3(string_value("US"), string_value("GB"), string_value("EU"));
        self.post_no_token("institutions/get_by_id", obj2("institution_id", string_value(id), "country_codes", codes))
    }

    /// The institution of an `institutions/get_by_id` response.
    pub fn institution_from(&self, resp: &JsonValue) -> (r: Institution)
        ensures
            r@ == plaid_institution(match field(Some(resp.json()), "institution"@) {
                Some(j) => j,
                None => Json::Null,
            }),
    {
        match at(Some(resp), "institution") {
            Some(i) => institution_of(i),
            None => institution_of(&JsonValue::Null),
        }
    }

    /// The request that starts a payment of an amount (a float, by its
    /// IEEE-754 bits) to a recipient.
    pub fn initiate_payment_request(&self, amount_bits: u64, currency: &str, recipient: &str, reference: &str) -> (r: Request)
        ensures
            r@ == plaid_request(
                self@,
                "payment_initiation/payment/create"@,
                false,
                Json::Object(
                    seq![
                        ("recipient_id"@, Json::Str(recipient@)),
                        ("reference"@, Json::Str(reference@)),
                        ("amount"@, Json::Object(seq![("value"@, float_json(amount_bits)), ("currency"@, Json::Str(currency@))])),
                    ],
                ),
            ),
    {
        let amount = obj2("value", float_value(amount_bits), "currency", string_value(currency));
        self.post_no_token(
            "payment_initiation/payment/create",
            obj3("recipient_id", string_value(recipient), "reference", string_value(reference), "amount", amount),
        )
    }

    /// The payment that a `payment_initiation/payment/create` response
    /// reports: its id and status (`created` when none is given), with the
    /// amount, currency, recipient and reference asked for.
    pub fn initiated_payment(
        &self,
        resp: &JsonValue,
        amount_bits: u64,
        currency: &str,
        recipient: &str,
        reference: &str,
    ) -> (r: Payment)
        ensures
            r@ == (PaymentView {
                id: text_or_empty(field(Some(resp.json()), "payment_id"@)),
                status: match as_text(field(Some(resp.json()), "status"@)) {
                    Some(s) => s,
                    None => "created"@,
                },
                amount: AmountView::Number(JsonNumber::Float(amount_bits)),
                currency: Some(currency@),
                recipient: Some(recipient@),
                reference: Some(reference@),
                created_at: None,
                backend: "plaid"@,
            }),
    {
        let status = match text_opt(at(Some(resp), "status")) {
            Some(s) => s,
            None => "created".to_owned(),
        };
        Payment {
            id: text_or_default(at(Some(resp), "payment_id")),
            status,
            amount: Amount::Number(JsonNumber::Float(amount_bits)),
            currency: Some(currency.to_owned()),
            recipient: Some(recipient.to_owned()),
            reference: Some(reference.to_owned()),
            created_at: None,
            backend: "plaid".to_owned(),
        }
    }

    /// The request for the status of a payment.
    pub fn get_payment_status_request(&self, id: &str) -> (r: Request)
        ensures
            r@ == plaid_request(
                self@,
                "payment_initiation/payment/get"@,
                false,
                Json::Object(seq![("payment_id"@, Json::Str(id@))]),
            ),
    {
        self.post_no_token("payment_initiation/payment/get", obj1("payment_id", string_value(id)))
    }

    /// The payment of a `payment_initiation/payment/get` response.
    pub fn payment_from(&self, resp: &JsonValue) -> (r: Payment)
        ensures
            r@ == plaid_payment(resp.json()),
    {
        payment_of(resp)
    }

    /// The request for `limit` payments.
    pub fn list_payments_request(&self, limit: u32) -> (r: Request)
        ensures
            r@ == plaid_request(
                self@,
                "payment_initiation/payment/list"@,
                false,
                Json::Object(seq![("count"@, Json::Number(JsonNumber::PosInt(limit as u64)))]),
            ),
    {
        self.post_no_token("payment_initiation/payment/list", obj1("count", count_value(limit)))
    }

    /// The first `limit` payments of a `payment_initiation/payment/list`
    /// response.
    pub fn payments_from(&self, resp: &JsonValue, limit: u32) -> (r: Vec<Payment>)
        ensures
            r@.map_values(|p: Payment| p@) == first_n(
                map_items(field(Some(resp.json()), "payments"@), |j: Json| plaid_payment(j)),
                limit as nat,
            ),
            r@.len() <= limit,
    {
        let all = collect_items(at(Some(resp), "payments"), payment_of, Ghost(|j: Json| plaid_payment(j)));
        keep_first(all, limit)
    }

    /// The statement of an account over a period: the number of its
    /// transactions (500 at most were asked for; the count is taken modulo
    /// 2^32), and the current balance as the closing balance.
    pub fn statement_from(
        &self,
        account_id: &str,
        from: &str,
        to: &str,
        transaction_count: usize,
        balances: Vec<Balance>,
    ) -> (r: Statement)
        ensures
            r@ == (StatementView {
                account_id: account_id@,
                period_start: from@,
                period_end: to@,
                opening_balance: None,
                closing_balance: Some(closing_of(balances_view(balances@), account_id@)),
                transaction_count: transaction_count as u32,
                backend: "plaid"@,
            }),
    {
        let closing = current_balance(balances, account_id);
        Statement {
            account_id: account_id.to_owned(),
            period_start: from.to_owned(),
            period_end: to.to_owned(),
            opening_balance: None,
            closing_balance: Some(closing),
            transaction_count: transaction_count as u32,
            backend: "plaid".to_owned(),
        }
    }

    /// The request that syncs the transactions.
    pub fn sync_transactions_request(&self) -> (r: Request)
        ensures
            r@ == plaid_request(self@, "transactions/sync"@, true, Json::Object(Seq::empty())),
    {
        self.post("transactions/sync", crate::plaid::empty_object())
    }

    /// `Synced: {added} added, {modified} modified`, counted from a
    /// `transactions/sync` response.
    pub fn sync_summary(&self, resp: &JsonValue) -> (r: String)
        ensures
            r@ == plaid_sync_summary(resp.json()),
    {
        let added = match items_of(at(Some(resp), "added")) {
            Some(a) => a.len(),
            None => 0,
        };
        let modified = match items_of(at(Some(resp), "modified")) {
            Some(a) => a.len(),
            None => 0,
        };
        let mut r = "Synced: ".to_owned();
        r.append(decimal_text(added as u64).as_str());
        r.append(" added, ");
        r.append(decimal_text(modified as u64).as_str());
        r.append(" modified");
        r
    }
}

/// The current balance of the first balance for an account, or zero.
pub fn current_balance(balances: Vec<Balance>, account_id: &str) -> (r: Amount)
    ensures
        r@ == closing_of(balances_view(balances@), account_id@),
{
    let mut list = balances;
    let ghost bs = balances_view(list@);
    let ghost p = |b: BalanceView| b.account_id == account_id@;
    let mut i: usize = 0;
    while i < list.len()
        invariant
            i <= list@.len(),
            bs == balances_view(list@),
            bs == balances_view(balances@),
            p == (|b: BalanceView| b.account_id == account_id@),
            forall|j: int| 0 <= j < i ==> !p(#[trigger] bs[j]),
        decreases list@.len() - i,
    {
        if same_text(list[i].account_id.as_str(), account_id) {
            proof {
                lemma_find_first_at(bs, p, i as int);
                assert(bs[i as int] == list@[i as int]@);
            }
            let b = list.remove(i);
            return b.current;
        }
        i += 1;
    }
    proof {
        lemma_find_first_none(bs, p);
    }
    zero_amount()
}

fn account_of(acc: &JsonValue) -> (r: BankAccount)
    ensures
        r@ == plaid_account(acc.json()),
{
    let a = Some(acc);
    let balances = at(a, "balances");
    BankAccount {
        id: text_or_default(at(a, "account_id")),
        name: text_or_default(at(a, "name")),
        account_type: text_opt(at(a, "type")),
        subtype: text_opt(at(a, "subtype")),
        mask: text_opt(at(a, "mask")),
        currency: text_opt(at(balances, "iso_currency_code")),
        balance_available: number_amount_of(at(balances, "available")),
        balance_current: number_amount_of(at(balances, "current")),
        institution_id: None,
        institution_name: None,
        backend: "plaid".to_owned(),
    }
}

fn balance_of(acc: &JsonValue) -> (r: Balance)
    ensures
        r@ == plaid_balance(acc.json()),
{
    let a = Some(acc);
    let balances = at(a, "balances");
    Balance {
        account_id: text_or_default(at(a, "account_id")),
        account_name: text_opt(at(a, "name")),
        available: number_amount_of(at(balances, "available")),
        current: number_or_zero_of(at(balances, "current")),
        currency: text_opt(at(balances, "iso_currency_code")),
        backend: "plaid".to_owned(),
    }
}

fn transaction_with(t: &JsonValue, with_type: bool) -> (r: Transaction)
    ensures
        r@ == plaid_transaction(t.json(), with_type),
{
    let a = Some(t);
    Transaction {
        id: text_or_default(at(a, "transaction_id")),
        account_id: text_or_default(at(a, "account_id")),
        amount: number_or_zero_of(at(a, "amount")),
        currency: text_opt(at(a, "iso_currency_code")),
        date: text_or_default(at(a, "date")),
        description: text_or_default(at(a, "name")),
        category: text_opt(first_of(at(a, "category"))),
        merchant_name: text_opt(at(a, "merchant_name")),
        pending: match flag_of(at(a, "pending")) {
            Some(b) => b,
            None => false,
        },
        transaction_type: if with_type { text_opt(at(a, "transaction_type")) } else { None },
        backend: "plaid".to_owned(),
    }
}

fn typed_transaction_of(t: &JsonValue) -> (r: Transaction)
    ensures
        r@ == plaid_transaction(t.json(), true),
{
    transaction_with(t, true)
}

fn transaction_of(t: &JsonValue) -> (r: Transaction)
    ensures
        r@ == plaid_transaction(t.json(), false),
{
    transaction_with(t, false)
}

fn institution_of(i: &JsonValue) -> (r: Institution)
    ensures
        r@ == plaid_institution(i.json()),
{
    let a = Some(i);
    Institution {
        id: text_or_default(at(a, "institution_id")),
        name: text_or_default(at(a, "name")),
        country: text_opt(first_of(at(a, "country_codes"))),
        url: text_opt(at(a, "url")),
        logo: text_opt(at(a, "logo")),
        backend: "plaid".to_owned(),
    }
}

fn payment_of(p: &JsonValue) -> (r: Payment)
    ensures
        r@ == plaid_payment(p.json()),
{
    let a = Some(p);
    let amount = at(a, "amount");
    Payment {
        id: text_or_default(at(a, "payment_id")),
        status: text_or_default(at(a, "status")),
        amount: number_or_zero_of(at(amount, "value")),
        currency: text_opt(at(amount, "currency")),
        recipient: text_opt(at(a, "recipient_id")),
        reference: text_opt(at(a, "reference")),
        created_at: text_opt(at(a, "created_at")),
        backend: "plaid".to_owned(),
    }
}

} // verus!
