//! Open Banking (UK, EU; PSD2): what to ask a bank's API and how to read
//! its answers. Amounts come as decimal text, their direction apart.
use vstd::prelude::*;
use vstd::string::*;
use crate::json::{
    Json, JsonValue, as_items, as_text, at, collect_items, field, first_item, first_of, items_of,
    first_n, find_first, keep_first, map_items, obj1, obj2, obj5, string_value, text_is, text_opt, text_or_default, text_or_empty,
    view_opt,
};
use crate::request::{Auth, AuthView, Method, Request, RequestView, join_url, join_url_text};
use crate::text::{trim_trailing_slashes, without_trailing_slashes};
use crate::types::{
    Amount, AmountView, Balance, BalanceView, BankAccount, BankAccountView, BackendError, Identity,
    IdentityView, Institution, Payment, PaymentView, Statement, StatementView, Transaction,
    TransactionView, amount_opt_view, decimal_amount, decimal_amount_of, decimal_or_zero,
    decimal_or_zero_of, find_transaction, mask_cuts_cleanly, mask_from, mask_is_clean, mask_of,
    search_matches, transaction_matches, transactions_view,
};

verus! {

/// A bank's Open Banking API and the OAuth2 token that opens it.
pub struct OpenBankingBackend {
    base_url: String,
    token: String,
}

pub struct OpenBankingView {
    pub base_url: Seq<char>,
    pub token: Seq<char>,
}

impl View for OpenBankingBackend {
    type V = OpenBankingView;

    closed spec fn view(&self) -> OpenBankingView {
        OpenBankingView { base_url: self.base_url@, token: self.token@ }
    }
}

/// A request to `path`, authenticated by the bearer token.
pub open spec fn ob_request(o: OpenBankingView, method: Method, path: Seq<char>, body: Option<Json>) -> RequestView {
    RequestView { method, url: join_url(o.base_url, path), auth: AuthView::Bearer(o.token), body }
}

/// `resp["Data"][key]`.
pub open spec fn data_member(resp: Json, key: Seq<char>) -> Option<Json> {
    field(field(Some(resp), "Data"@), key)
}

/// The account number member of an account: its first `Account` entry's
/// `Identification`.
pub open spec fn account_number(acc: Option<Json>) -> Option<Json> {
    field(first_item(field(acc, "Account"@)), "Identification"@)
}

/// An account of an accounts listing: named by its nickname, else its
/// description; masked to the last four bytes of its account number.
pub open spec fn ob_listed_account(acc: Option<Json>) -> BankAccountView {
    BankAccountView {
        id: text_or_empty(field(acc, "AccountId"@)),
        name: match as_text(field(acc, "Nickname"@)) {
            Some(s) => s,
            None => text_or_empty(field(acc, "Description"@)),
        },
        account_type: as_text(field(acc, "AccountType"@)),
        subtype: as_text(field(acc, "AccountSubType"@)),
        mask: mask_of(account_number(acc)),
        currency: as_text(field(acc, "Currency"@)),
        balance_available: None,
        balance_current: None,
        institution_id: None,
        institution_name: None,
        backend: "open_banking"@,
    }
}

/// An account of a single-account answer: named by its nickname only, not
/// masked.
pub open spec fn ob_account(acc: Option<Json>) -> BankAccountView {
    BankAccountView {
        id: text_or_empty(field(acc, "AccountId"@)),
        name: text_or_empty(field(acc, "Nickname"@)),
        account_type: as_text(field(acc, "AccountType"@)),
        subtype: as_text(field(acc, "AccountSubType"@)),
        mask: None,
        currency: as_text(field(acc, "Currency"@)),
        balance_available: None,
        balance_current: None,
        institution_id: None,
        institution_name: None,
        backend: "open_banking"@,
    }
}

/// A balance: available only when in credit.
pub open spec fn ob_balance(b: Option<Json>) -> BalanceView {
    let amount = field(b, "Amount"@);
    BalanceView {
        account_id: text_or_empty(field(b, "AccountId"@)),
        account_name: None,
        available: if as_text(field(b, "CreditDebitIndicator"@)) == Some("Credit"@) {
            decimal_amount(field(amount, "Amount"@))
        } else {
            None
        },
        current: decimal_or_zero(field(amount, "Amount"@), false),
        currency: as_text(field(amount, "Currency"@)),
        backend: "open_banking"@,
    }
}

/// A transaction: a debit counts negative.
pub open spec fn ob_transaction(t: Option<Json>) -> TransactionView {
    let amount = field(t, "Amount"@);
    TransactionView {
        id: text_or_empty(field(t, "TransactionId"@)),
        account_id: text_or_empty(field(t, "AccountId"@)),
        amount: decimal_or_zero(field(amount, "Amount"@), as_text(field(t, "CreditDebitIndicator"@)) == Some("Debit"@)),
        currency: as_text(field(amount, "Currency"@)),
        date: text_or_empty(field(t, "BookingDateTime"@)),
        description: text_or_empty(field(t, "TransactionInformation"@)),
        category: as_text(field(field(t, "BankTransactionCode"@), "Code"@)),
        merchant_name: as_text(field(field(t, "MerchantDetails"@), "MerchantName"@)),
        pending: as_text(field(t, "Status"@)) == Some("Pending"@),
        transaction_type: as_text(field(t, "CreditDebitIndicator"@)),
        backend: "open_banking"@,
    }
}

/// A payment of a payment answer.
pub open spec fn ob_payment(d: Option<Json>) -> PaymentView {
    let initiation = field(d, "Initiation"@);
    let instructed = field(initiation, "InstructedAmount"@);
    PaymentView {
        id: text_or_empty(field(d, "DomesticPaymentId"@)),
        status: text_or_empty(field(d, "Status"@)),
        amount: decimal_or_zero(field(instructed, "Amount"@), false),
        currency: as_text(field(instructed, "Currency"@)),
        recipient: as_text(field(field(initiation, "CreditorAccount"@), "Identification"@)),
        reference: as_text(field(initiation, "InstructionIdentification"@)),
        created_at: as_text(field(d, "CreationDateTime"@)),
        backend: "open_banking"@,
    }
}

/// The balance amount member of a statement: `s[key]["Amount"]["Amount"]`.
pub open spec fn statement_amount(s: Option<Json>, key: Seq<char>) -> Option<Json> {
    field(field(field(s, key), "Amount"@), "Amount"@)
}

/// `accounts/{id}/transactions?fromBookingDateTime={from}T00:00:00Z&toBookingDateTime={to}T23:59:59Z`.
pub open spec fn ob_transactions_path(account_id: Seq<char>, from: Seq<char>, to: Seq<char>) -> Seq<char> {
    "accounts/"@ + account_id + "/transactions?fromBookingDateTime="@ + from + "T00:00:00Z&toBookingDateTime="@ + to + "T23:59:59Z"@
}

/// `accounts/{id}/statements?fromStatementDateTime={from}T00:00:00Z&toStatementDateTime={to}T23:59:59Z`.
pub open spec fn ob_statements_path(account_id: Seq<char>, from: Seq<char>, to: Seq<char>) -> Seq<char> {
    "accounts/"@ + account_id + "/statements?fromStatementDateTime="@ + from + "T00:00:00Z&toStatementDateTime="@ + to + "T23:59:59Z"@
}

/// The transactions of a transactions answer.
pub open spec fn ob_transactions(resp: Json) -> Seq<TransactionView> {
    map_items(data_member(resp, "Transaction"@), |j: Json| ob_transaction(Some(j)))
}

/// What a lookup finds in the latest answer: the first of its first 500
/// transactions with the id asked for.
pub open spec fn ob_lookup_hit(answer: Option<Json>, id: Seq<char>) -> Option<TransactionView> {
    match answer {
        Some(a) => find_first(first_n(ob_transactions(a), 500), |t: TransactionView| t.id == id),
        None => None,
    }
}

/// What a whole lookup across accounts finds, from their answers in account
/// order: the hit of the first answer that has one; nothing when none has.
pub open spec fn ob_lookup_found(answers: Seq<Json>, id: Seq<char>) -> Option<TransactionView>
    decreases answers.len(),
{
    if answers.len() == 0 {
        None
    } else {
        match ob_lookup_hit(Some(answers[0]), id) {
            Some(t) => Some(t),
            None => ob_lookup_found(answers.drop_first(), id),
        }
    }
}

/// The matches of a search across accounts, from their answers in account
/// order: of each answer's first 200 transactions, those that match, each
/// answer's in their order.
pub open spec fn ob_search_found(answers: Seq<Json>, query: Seq<char>) -> Seq<TransactionView>
    decreases answers.len(),
{
    if answers.len() == 0 {
        Seq::empty()
    } else {
        ob_search_found(answers.drop_last(), query) + first_n(ob_transactions(answers.last()), 200).filter(
            |t: TransactionView| transaction_matches(t, query),
        )
    }
}

/// The entries of an accounts listing.
pub open spec fn listed_accounts(resp: Json) -> Seq<Json> {
    match as_items(data_member(resp, "Account"@)) {
        Some(items) => items,
        None => Seq::empty(),
    }
}

/// Every listed account's number can be masked.
pub open spec fn ob_masks_cut_cleanly(resp: Json) -> bool {
    forall|i: int| 0 <= i < listed_accounts(resp).len() ==> mask_cuts_cleanly(account_number(Some(#[trigger] listed_accounts(resp)[i])))
}

/// The next move of a lookup across accounts.
pub enum LookupStep {
    /// Send this request and look through the transactions it answers.
    Fetch(Request),
    /// The lookup is over.
    Finished(Result<Transaction, BackendError>),
}

impl OpenBankingBackend {
    /// The backend for a bank's API root (without its trailing slashes) and
    /// a token.
    pub fn new(base_url: String, token: String) -> (r: Self)
        ensures
            r@ == (OpenBankingView { base_url: without_trailing_slashes(base_url@), token: token@ }),
    {
        OpenBankingBackend { base_url: trim_trailing_slashes(base_url.as_str()), token }
    }

    /// `open_banking`.
    pub fn name(&self) -> (r: &'static str)
        ensures
            r@ == "open_banking"@,
    {
        "open_banking"
    }

    /// A GET of `path`.
    pub fn get(&self, path: &str) -> (r: Request)
        ensures
            r@ == ob_request(self@, Method::Get, path@, None),
    {
        Request {
            method: Method::Get,
            url: join_url_text(self.base_url.as_str(), path),
            auth: Auth::Bearer(self.token.clone()),
            body: None,
        }
    }

    /// A POST of `body` to `path`.
    pub fn post(&self, path: &str, body: JsonValue) -> (r: Request)
        ensures
            r@ == ob_request(self@, Method::Post, path@, Some(body.json())),
    {
        Request {
            method: Method::Post,
            url: join_url_text(self.base_url.as_str(), path),
            auth: Auth::Bearer(self.token.clone()),
            body: Some(body),
        }
    }

    /// The request that lists the accounts.
    pub fn list_accounts_request(&self) -> (r: Request)
        ensures
            r@ == ob_request(self@, Method::Get, "accounts"@, None),
    {
        self.get("accounts")
    }

    /// Whether every account number of an accounts listing can be masked.
    pub fn account_numbers_are_clean(&self, resp: &JsonValue) -> (r: bool)
        ensures
            r == ob_masks_cut_cleanly(resp.json()),
    {
        match items_of(at(at(Some(resp), "Data"), "Account")) {
            Some(items) => {
                let ghost all = listed_accounts(resp.json());
                assert(all =~= items@.map_values(|x: JsonValue| x.json()));
                let mut i: usize = 0;
                while i < items.len()
                    invariant
                        i <= items@.len(),
                        all == items@.map_values(|x: JsonValue| x.json()),
                        all == listed_accounts(resp.json()),
                        forall|k: int| 0 <= k < i ==> mask_cuts_cleanly(account_number(Some(#[trigger] all[k]))),
                    decreases items@.len() - i,
                {
                    assert(all[i as int] == items@[i as int].json());
                    if !mask_is_clean(at(first_of(at(Some(&items[i]), "Account")), "Identification")) {
                        return false;
                    }
                    i += 1;
                }
                true
            },
            None => true,
        }
    }

    /// The accounts of an accounts listing.
    pub fn accounts_from(&self, resp: &JsonValue) -> (r: Vec<BankAccount>)
        requires
            ob_masks_cut_cleanly(resp.json()),
        ensures
            r@.map_values(|a: BankAccount| a@) == map_items(data_member(resp.json(), "Account"@), |j: Json| ob_listed_account(Some(j))),
    {
        let mut out: Vec<BankAccount> = Vec::new();
        match items_of(at(at(Some(resp), "Data"), "Account")) {
            Some(items) => {
                let ghost all = listed_accounts(resp.json());
                assert(all =~= items@.map_values(|x: JsonValue| x.json()));
                let mut i: usize = 0;
                while i < items.len()
                    invariant
                        i <= items@.len(),
                        all == items@.map_values(|x: JsonValue| x.json()),
                        all == listed_accounts(resp.json()),
                        ob_masks_cut_cleanly(resp.json()),
                        out@.map_values(|a: BankAccount| a@) =~= items@.take(i as int).map_values(
                            |x: JsonValue| ob_listed_account(Some(x.json())),
                        ),
                    decreases items@.len() - i,
                {
                    assert(all[i as int] == items@[i as int].json());
                    let a = listed_account_of(&items[i]);
                    let ghost before = out@;
                    out.push(a);
                    assert(out@.map_values(|a: BankAccount| a@) =~= before.map_values(|a: BankAccount| a@).push(
                        ob_listed_account(Some(items@[i as int].json())),
                    ));
                    assert(items@.take(i + 1) =~= items@.take(i as int).push(items@[i as int]));
                    i += 1;
                }
                assert(items@.take(i as int) =~= items@);
                assert(map_items(data_member(resp.json(), "Account"@), |j: Json| ob_listed_account(Some(j)))
                    =~= items@.map_values(|x: JsonValue| ob_listed_account(Some(x.json()))));
            },
            None => {
                assert(out@.map_values(|a: BankAccount| a@) =~= Seq::<BankAccountView>::empty());
            },
        }
        out
    }

    /// The request for one account.
    pub fn get_account_request(&self, id: &str) -> (r: Request)
        ensures
            r@ == ob_request(self@, Method::Get, "accounts/"@ + id@, None),
    {
        let mut p = "accounts/".to_owned();
        p.append(id);
        self.get(p.as_str())
    }

    /// The first account of a single-account answer; an error when there is
    /// none.
    pub fn account_from(&self, resp: &JsonValue) -> (r: Result<BankAccount, BackendError>)
        ensures
            match first_item(data_member(resp.json(), "Account"@)) {
                Some(acc) => r matches Ok(a) && a@ == ob_account(Some(acc)),
                None => r matches Err(BackendError::NotFound),
            },
    {
        match first_of(at(at(Some(resp), "Data"), "Account")) {
            Some(acc) => {
                let a = Some(acc);
                Ok(BankAccount {
                    id: text_or_default(at(a, "AccountId")),
                    name: text_or_default(at(a, "Nickname")),
                    account_type: text_opt(at(a, "AccountType")),
                    subtype: text_opt(at(a, "AccountSubType")),
                    mask: None,
                    currency: text_opt(at(a, "Currency")),
                    balance_available: None,
                    balance_current: None,
                    institution_id: None,
                    institution_name: None,
                    backend: "open_banking".to_owned(),
                })
            },
            None => Err(BackendError::NotFound),
        }
    }

    /// The request for the balances.
    pub fn get_balances_request(&self) -> (r: Request)
        ensures
            r@ == ob_request(self@, Method::Get, "balances"@, None),
    {
        self.get("balances")
    }

    /// The balances of a balances answer.
    pub fn balances_from(&self, resp: &JsonValue) -> (r: Vec<Balance>)
        ensures
            r@.map_values(|b: Balance| b@) == map_items(data_member(resp.json(), "Balance"@), |j: Json| ob_balance(Some(j))),
    {
        collect_items(at(at(Some(resp), "Data"), "Balance"), balance_of, Ghost(|j: Json| ob_balance(Some(j))))
    }

    /// The request for the transactions of an account over a period (whole
    /// days).
    pub fn list_transactions_request(&self, account_id: &str, from: &str, to: &str) -> (r: Request)
        ensures
            r@ == ob_request(self@, Method::Get, ob_transactions_path(account_id@, from@, to@), None),
    {
        let mut p = "accounts/".to_owned();
        p.append(account_id);
        p.append("/transactions?fromBookingDateTime=");
        p.append(from);
        p.append("T00:00:00Z&toBookingDateTime=");
        p.append(to);
        p.append("T23:59:59Z");
        self.get(p.as_str())
    }

    /// The request that a lookup or a search makes for each account: its
    /// transactions from 2020 to 2030.
    pub fn all_transactions_request(&self, account_id: &str) -> (r: Request)
        ensures
            r@ == ob_request(self@, Method::Get, ob_transactions_path(account_id@, "2020-01-01"@, "2030-12-31"@), None),
    {
        self.list_transactions_request(account_id, "2020-01-01", "2030-12-31")
    }

    /// What a lookup of a transaction across the accounts does next, once
    /// `checked` accounts have been looked through and `answer` is the
    /// latest account's answer (none before the first): finish with the
    /// transaction it has with the id, if any; else fetch the transactions
    /// of the next account; else, after the last, fail.
    pub fn lookup_step(&self, accounts: &Vec<BankAccount>, checked: usize, answer: Option<&JsonValue>, id: &str) -> (r: LookupStep)
        ensures
            match ob_lookup_hit(view_opt(answer), id@) {
                Some(t) => r matches LookupStep::Finished(Ok(x)) && x@ == t,
                None => if checked < accounts@.len() {
                    r matches LookupStep::Fetch(q) && q@ == ob_request(
                        self@,
                        Method::Get,
                        ob_transactions_path(accounts@[checked as int].id@, "2020-01-01"@, "2030-12-31"@),
                        None,
                    )
                } else {
                    r matches LookupStep::Finished(Err(BackendError::TransactionNotFound))
                },
            },
    {
        let found = match answer {
            Some(a) => find_transaction(self.transactions_from(a, 500), id),
            None => None,
        };
        match found {
            Some(t) => LookupStep::Finished(Ok(t)),
            None => {
                if checked < accounts.len() {
                    LookupStep::Fetch(self.all_transactions_request(accounts[checked].id.as_str()))
                } else {
                    LookupStep::Finished(Err(BackendError::TransactionNotFound))
                }
            },
        }
    }

    /// What a search across the accounts fetches next, once `checked`
    /// accounts have been searched: the transactions of the next account,
    /// or nothing after the last.
    pub fn search_step(&self, accounts: &Vec<BankAccount>, checked: usize) -> (r: Option<Request>)
        ensures
            checked < accounts@.len() ==> (r matches Some(q) && q@ == ob_request(
                self@,
                Method::Get,
                ob_transactions_path(accounts@[checked as int].id@, "2020-01-01"@, "2030-12-31"@),
                None,
            )),
            checked >= accounts@.len() ==> r is None,
    {
        if checked < accounts.len() {
            Some(self.all_transactions_request(accounts[checked].id.as_str()))
        } else {
            None
        }
    }

    /// The first `limit` transactions of a transactions answer.
    pub fn transactions_from(&self, resp: &JsonValue, limit: u32) -> (r: Vec<Transaction>)
        ensures
            r@.map_values(|t: Transaction| t@) == first_n(ob_transactions(resp.json()), limit as nat),
            r@.len() <= limit,
    {
        let all = collect_items(at(at(Some(resp), "Data"), "Transaction"), transaction_of, Ghost(|j: Json| ob_transaction(Some(j))));
        keep_first(all, limit)
    }

    /// The result of a search across accounts, from the accounts' answers in
    /// account order: the matches of each answer's first 200 transactions,
    /// one answer after another, then at most `limit` of them.
    pub fn search_results(&self, answers: &Vec<JsonValue>, query: &str, limit: u32) -> (r: Vec<Transaction>)
        ensures
            transactions_view(r@) == first_n(
                ob_search_found(answers@.map_values(|a: JsonValue| a.json()), query@),
                limit as nat,
            ),
            r@.len() <= limit,
    {
        let ghost js = answers@.map_values(|a: JsonValue| a.json());
        let mut out: Vec<Transaction> = Vec::new();
        let mut i: usize = 0;
        while i < answers.len()
            invariant
                i <= answers@.len(),
                js == answers@.map_values(|a: JsonValue| a.json()),
                transactions_view(out@) == ob_search_found(js.take(i as int), query@),
            decreases answers@.len() - i,
        {
            let txns = self.transactions_from(&answers[i], 200);
            let mut hits = search_matches(txns, query);
            let ghost before = out@;
            let ghost found = hits@;
            out.append(&mut hits);
            proof {
                let t = js.take(i + 1);
                assert(t.drop_last() =~= js.take(i as int));
                assert(t.last() == answers@[i as int].json());
                assert(transactions_view(out@) =~= transactions_view(before) + transactions_view(found));
            }
            i += 1;
        }
        assert(js.take(i as int) =~= js);
        keep_first(out, limit)
    }

    /// The request for the account holder.
    pub fn get_identity_request(&self) -> (r: Request)
        ensures
            r@ == ob_request(self@, Method::Get, "party"@, None),
    {
        self.get("party")
    }

    /// The account holder of a party answer; the address is not read.
    pub fn identity_from(&self, resp: &JsonValue) -> (r: Identity)
        ensures
            r@ == (IdentityView {
                name: as_text(field(data_member(resp.json(), "Party"@), "Name"@)),
                email: as_text(field(data_member(resp.json(), "Party"@), "Email"@)),
                phone: as_text(field(data_member(resp.json(), "Party"@), "Phone"@)),
                address: None,
                backend: "open_banking"@,
            }),
    {
        let p = at(at(Some(resp), "Data"), "Party");
        Identity {
            name: text_opt(at(p, "Name")),
            email: text_opt(at(p, "Email")),
            phone: text_opt(at(p, "Phone")),
            address: None,
            backend: "open_banking".to_owned(),
        }
    }

    /// The institutions: none, Open Banking has no directory of them.
    pub fn list_institutions(&self) -> (r: Vec<Institution>)
        ensures
            r@.len() == 0,
    {
        Vec::new()
    }

    /// An institution: always the error that there is no directory.
    pub fn get_institution(&self) -> (r: Result<Institution, BackendError>)
        ensures
            r matches Err(BackendError::NoInstitutionDirectory),
    {
        Err(BackendError::NoInstitutionDirectory)
    }

    /// The request that starts a domestic payment; the amount is given as
    /// the decimal text that the bank receives.
    pub fn initiate_payment_request(
        &self,
        account_id: &str,
        amount_text: &str,
        currency: &str,
        recipient: &str,
        reference: &str,
    ) -> (r: Request)
        ensures
            r@ == ob_request(
                self@,
                Method::Post,
                "domestic-payments"@,
                Some(Json::Object(seq![("Data"@, Json::Object(seq![("Initiation"@, Json::Object(seq![
                    ("InstructionIdentification"@, Json::Str(reference@)),
                    ("EndToEndIdentification"@, Json::Str(reference@)),
                    ("InstructedAmount"@, Json::Object(seq![("Amount"@, Json::Str(amount_text@)), ("Currency"@, Json::Str(currency@))])),
                    ("DebtorAccount"@, Json::Object(seq![("Identification"@, Json::Str(account_id@))])),
                    ("CreditorAccount"@, Json::Object(seq![("Identification"@, Json::Str(recipient@))])),
                ]))]))])),
            ),
    {
        let initiation = obj5(
            "InstructionIdentification",
            string_value(reference),
            "EndToEndIdentification",
            string_value(reference),
            "InstructedAmount",
            obj2("Amount", string_value(amount_text), "Currency", string_value(currency)),
            "DebtorAccount",
            obj1("Identification", string_value(account_id)),
            "CreditorAccount",
            obj1("Identification", string_value(recipient)),
        );
        self.post("domestic-payments", obj1("Data", obj1("Initiation", initiation)))
    }

    /// The payment that a `domestic-payments` answer reports: its id, status
    /// (`Pending` when none is given) and creation time, with the amount (a
    /// float, by its IEEE-754 bits), currency, recipient and reference asked
    /// for.
    pub fn initiated_payment(
        &self,
        resp: &JsonValue,
        amount_bits: u64,
        currency: &str,
        recipient: &str,
        reference: &str,
    ) -> (r: Payment)
        ensures
            r@ == (PaymentView {
                id: text_or_empty(data_member(resp.json(), "DomesticPaymentId"@)),
                status: match as_text(data_member(resp.json(), "Status"@)) {
                    Some(s) => s,
                    None => "Pending"@,
                },
                amount: AmountView::Number(crate::json::JsonNumber::Float(amount_bits)),
                currency: Some(currency@),
                recipient: Some(recipient@),
                reference: Some(reference@),
                created_at: as_text(data_member(resp.json(), "CreationDateTime"@)),
                backend: "open_banking"@,
            }),
    {
        let d = at(Some(resp), "Data");
        let status = match text_opt(at(d, "Status")) {
            Some(s) => s,
            None => "Pending".to_owned(),
        };
        Payment {
            id: text_or_default(at(d, "DomesticPaymentId")),
            status,
            amount: Amount::Number(crate::json::JsonNumber::Float(amount_bits)),
            currency: Some(currency.to_owned()),
            recipient: Some(recipient.to_owned()),
            reference: Some(reference.to_owned()),
            created_at: text_opt(at(d, "CreationDateTime")),
            backend: "open_banking".to_owned(),
        }
    }

    /// The request for the status of a payment.
    pub fn get_payment_status_request(&self, id: &str) -> (r: Request)
        ensures
            r@ == ob_request(self@, Method::Get, "domestic-payments/"@ + id@, None),
    {
        let mut p = "domestic-payments/".to_owned();
        p.append(id);
        self.get(p.as_str())
    }

    /// The payment of a payment answer.
    pub fn payment_from(&self, resp: &JsonValue) -> (r: Payment)
        ensures
            r@ == ob_payment(field(Some(resp.json()), "Data"@)),
    {
        let d = at(Some(resp), "Data");
        let initiation = at(d, "Initiation");
        let instructed = at(initiation, "InstructedAmount");
        Payment {
            id: text_or_default(at(d, "DomesticPaymentId")),
            status: text_or_default(at(d, "Status")),
            amount: decimal_or_zero_of(at(instructed, "Amount"), false),
            currency: text_opt(at(instructed, "Currency")),
            recipient: text_opt(at(at(initiation, "CreditorAccount"), "Identification")),
            reference: text_opt(at(initiation, "InstructionIdentification")),
            created_at: text_opt(at(d, "CreationDateTime")),
            backend: "open_banking".to_owned(),
        }
    }

    /// The payments: none, Open Banking has no list of them.
    pub fn list_payments(&self) -> (r: Vec<Payment>)
        ensures
            r@.len() == 0,
    {
        Vec::new()
    }

    /// The request for the statements of an account over a period.
    pub fn get_statement_request(&self, account_id: &str, from: &str, to: &str) -> (r: Request)
        ensures
            r@ == ob_request(self@, Method::Get, ob_statements_path(account_id@, from@, to@), None),
    {
        let mut p = "accounts/".to_owned();
        p.append(account_id);
        p.append("/statements?fromStatementDateTime=");
        p.append(from);
        p.append("T00:00:00Z&toStatementDateTime=");
        p.append(to);
        p.append("T23:59:59Z");
        self.get(p.as_str())
    }

    /// The statement of a statements answer: the balances of its first
    /// statement; no count of transactions.
    pub fn statement_from(&self, resp: &JsonValue, account_id: &str, from: &str, to: &str) -> (r: Statement)
        ensures
            r@ == (StatementView {
                account_id: account_id@,
                period_start: from@,
                period_end: to@,
                opening_balance: decimal_amount(statement_amount(first_item(data_member(resp.json(), "Statement"@)), "StartBalance"@)),
                closing_balance: decimal_amount(statement_amount(first_item(data_member(resp.json(), "Statement"@)), "EndBalance"@)),
                transaction_count: 0,
                backend: "open_banking"@,
            }),
    {
        let s = first_of(at(at(Some(resp), "Data"), "Statement"));
        Statement {
            account_id: account_id.to_owned(),
            period_start: from.to_owned(),
            period_end: to.to_owned(),
            opening_balance: decimal_amount_of(at(at(at(s, "StartBalance"), "Amount"), "Amount")),
            closing_balance: decimal_amount_of(at(at(at(s, "EndBalance"), "Amount"), "Amount")),
            transaction_count: 0,
            backend: "open_banking".to_owned(),
        }
    }

    /// What a sync answers: Open Banking needs none.
    pub fn sync_message(&self) -> (r: String)
        ensures
            r@ == "Open Banking transactions are real-time — no sync needed"@,
    {
        "Open Banking transactions are real-time — no sync needed".to_owned()
    }
}

fn listed_account_of(acc: &JsonValue) -> (r: BankAccount)
    requires
        mask_cuts_cleanly(account_number(Some(acc.json()))),
    ensures
        r@ == ob_listed_account(Some(acc.json())),
{
    let a = Some(acc);
    let name = match text_opt(at(a, "Nickname")) {
        Some(s) => s,
        None => text_or_default(at(a, "Description")),
    };
    BankAccount {
        id: text_or_default(at(a, "AccountId")),
        name,
        account_type: text_opt(at(a, "AccountType")),
        subtype: text_opt(at(a, "AccountSubType")),
        mask: mask_from(at(first_of(at(a, "Account")), "Identification")),
        currency: text_opt(at(a, "Currency")),
        balance_available: None,
        balance_current: None,
        institution_id: None,
        institution_name: None,
        backend: "open_banking".to_owned(),
    }
}

fn balance_of(b: &JsonValue) -> (r: Balance)
    ensures
        r@ == ob_balance(Some(b.json())),
{
    let a = Some(b);
    let amount = at(a, "Amount");
    let available = if text_is(at(a, "CreditDebitIndicator"), "Credit") {
        decimal_amount_of(at(amount, "Amount"))
    } else {
        None
    };
    Balance {
        account_id: text_or_default(at(a, "AccountId")),
        account_name: None,
        available,
        current: decimal_or_zero_of(at(amount, "Amount"), false),
        currency: text_opt(at(amount, "Currency")),
        backend: "open_banking".to_owned(),
    }
}

fn transaction_of(t: &JsonValue) -> (r: Transaction)
    ensures
        r@ == ob_transaction(Some(t.json())),
{
    let a = Some(t);
    let amount = at(a, "Amount");
    let debit = text_is(at(a, "CreditDebitIndicator"), "Debit");
    Transaction {
        id: text_or_default(at(a, "TransactionId")),
        account_id: text_or_default(at(a, "AccountId")),
        amount: decimal_or_zero_of(at(amount, "Amount"), debit),
        currency: text_opt(at(amount, "Currency")),
        date: text_or_default(at(a, "BookingDateTime")),
        description: text_or_default(at(a, "TransactionInformation")),
        category: text_opt(at(at(a, "BankTransactionCode"), "Code")),
        merchant_name: text_opt(at(at(a, "MerchantDetails"), "MerchantName")),
        pending: text_is(at(a, "Status"), "Pending"),
        transaction_type: text_opt(at(a, "CreditDebitIndicator")),
        backend: "open_banking".to_owned(),
    }
}

} // verus!
