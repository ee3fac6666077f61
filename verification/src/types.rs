//! The banking records that every backend reports in one shape.
use vstd::prelude::*;
use crate::json::{JsonNumber, text_view};

verus! {

/// An amount of money as a backend reported it. Working out its value is
/// floating-point arithmetic, which is left to the caller; the variant says
/// which arithmetic the report calls for.
#[derive(Debug)]
pub enum Amount {
    /// The value of the reported number.
    Number(JsonNumber),
    /// The reported number counts minor units (kobo, cents): the value is a
    /// hundredth of it.
    Hundredths(JsonNumber),
    /// Decimal text, negated where `negated` holds. Text that does not read as
    /// a number counts as zero where an amount is required, and as no amount
    /// where one is optional.
    Decimal { text: String, negated: bool },
}

pub enum AmountView {
    Number(JsonNumber),
    Hundredths(JsonNumber),
    Decimal { text: Seq<char>, negated: bool },
}

impl View for Amount {
    type V = AmountView;

    open spec fn view(&self) -> AmountView {
        match self {
            Amount::Number(n) => AmountView::Number(*n),
            Amount::Hundredths(n) => AmountView::Hundredths(*n),
            Amount::Decimal { text, negated } => AmountView::Decimal { text: text@, negated: *negated },
        }
    }
}

/// The amount zero (`0.0`), as IEEE-754 bits.
pub open spec fn zero() -> AmountView {
    AmountView::Number(JsonNumber::Float(0))
}

pub fn zero_amount() -> (r: Amount)
    ensures
        r@ == zero(),
{
    Amount::Number(JsonNumber::Float(0))
}

pub open spec fn amount_opt_view(a: Option<Amount>) -> Option<AmountView> {
    match a {
        Some(x) => Some(x@),
        None => None,
    }
}

/// A linked bank account.
#[derive(Debug)]
pub struct BankAccount {
    pub id: String,
    pub name: String,
    pub account_type: Option<String>,
    pub subtype: Option<String>,
    pub mask: Option<String>,
    pub currency: Option<String>,
    pub balance_available: Option<Amount>,
    pub balance_current: Option<Amount>,
    pub institution_id: Option<String>,
    pub institution_name: Option<String>,
    pub backend: String,
}

pub struct BankAccountView {
    pub id: Seq<char>,
    pub name: Seq<char>,
    pub account_type: Option<Seq<char>>,
    pub subtype: Option<Seq<char>>,
    pub mask: Option<Seq<char>>,
    pub currency: Option<Seq<char>>,
    pub balance_available: Option<AmountView>,
    pub balance_current: Option<AmountView>,
    pub institution_id: Option<Seq<char>>,
    pub institution_name: Option<Seq<char>>,
    pub backend: Seq<char>,
}

impl View for BankAccount {
    type V = BankAccountView;

    open spec fn view(&self) -> BankAccountView {
        BankAccountView {
            id: self.id@,
            name: self.name@,
            account_type: text_view(self.account_type),
            subtype: text_view(self.subtype),
            mask: text_view(self.mask),
            currency: text_view(self.currency),
            balance_available: amount_opt_view(self.balance_available),
            balance_current: amount_opt_view(self.balance_current),
            institution_id: text_view(self.institution_id),
            institution_name: text_view(self.institution_name),
            backend: self.backend@,
        }
    }
}

/// A posted or pending transaction.
#[derive(Debug)]
pub struct Transaction {
    pub id: String,
    pub account_id: String,
    pub amount: Amount,
    pub currency: Option<String>,
    pub date: String,
    pub description: String,
    pub category: Option<String>,
    pub merchant_name: Option<String>,
    pub pending: bool,
    pub transaction_type: Option<String>,
    pub backend: String,
}

pub struct TransactionView {
    pub id: Seq<char>,
    pub account_id: Seq<char>,
    pub amount: AmountView,
    pub currency: Option<Seq<char>>,
    pub date: Seq<char>,
    pub description: Seq<char>,
    pub category: Option<Seq<char>>,
    pub merchant_name: Option<Seq<char>>,
    pub pending: bool,
    pub transaction_type: Option<Seq<char>>,
    pub backend: Seq<char>,
}

impl View for Transaction {
    type V = TransactionView;

    open spec fn view(&self) -> TransactionView {
        TransactionView {
            id: self.id@,
            account_id: self.account_id@,
            amount: self.amount@,
            currency: text_view(self.currency),
            date: self.date@,
            description: self.description@,
            category: text_view(self.category),
            merchant_name: text_view(self.merchant_name),
            pending: self.pending,
            transaction_type: text_view(self.transaction_type),
            backend: self.backend@,
        }
    }
}

/// The balance of one account.
#[derive(Debug)]
pub struct Balance {
    pub account_id: String,
    pub account_name: Option<String>,
    pub available: Option<Amount>,
    pub current: Amount,
    pub currency: Option<String>,
    pub backend: String,
}

pub struct BalanceView {
    pub account_id: Seq<char>,
    pub account_name: Option<Seq<char>>,
    pub available: Option<AmountView>,
    pub current: AmountView,
    pub currency: Option<Seq<char>>,
    pub backend: Seq<char>,
}

impl View for Balance {
    type V = BalanceView;

    open spec fn view(&self) -> BalanceView {
        BalanceView {
            account_id: self.account_id@,
            account_name: text_view(self.account_name),
            available: amount_opt_view(self.available),
            current: self.current@,
            currency: text_view(self.currency),
            backend: self.backend@,
        }
    }
}

/// The account holder.
#[derive(Debug)]
pub struct Identity {
    pub name: Option<String>,
    pub email: Option<String>,
    pub phone: Option<String>,
    pub address: Option<String>,
    pub backend: String,
}

pub struct IdentityView {
    pub name: Option<Seq<char>>,
    pub email: Option<Seq<char>>,
    pub phone: Option<Seq<char>>,
    pub address: Option<Seq<char>>,
    pub backend: Seq<char>,
}

impl View for Identity {
    type V = IdentityView;

    open spec fn view(&self) -> IdentityView {
        IdentityView {
            name: text_view(self.name),
            email: text_view(self.email),
            phone: text_view(self.phone),
            address: text_view(self.address),
            backend: self.backend@,
        }
    }
}

/// A bank or other financial institution.
#[derive(Debug)]
pub struct Institution {
    pub id: String,
    pub name: String,
    pub country: Option<String>,
    pub url: Option<String>,
    pub logo: Option<String>,
    pub backend: String,
}

pub struct InstitutionView {
    pub id: Seq<char>,
    pub name: Seq<char>,
    pub country: Option<Seq<char>>,
    pub url: Option<Seq<char>>,
    pub logo: Option<Seq<char>>,
    pub backend: Seq<char>,
}

impl View for Institution {
    type V = InstitutionView;

    open spec fn view(&self) -> InstitutionView {
        InstitutionView {
            id: self.id@,
            name: self.name@,
            country: text_view(self.country),
            url: text_view(self.url),
            logo: text_view(self.logo),
            backend: self.backend@,
        }
    }
}

/// A payment or transfer.
#[derive(Debug)]
pub struct Payment {
    pub id: String,
    pub status: String,
    pub amount: Amount,
    pub currency: Option<String>,
    pub recipient: Option<String>,
    pub reference: Option<String>,
    pub created_at: Option<String>,
    pub backend: String,
}

pub struct PaymentView {
    pub id: Seq<char>,
    pub status: Seq<char>,
    pub amount: AmountView,
    pub currency: Option<Seq<char>>,
    pub recipient: Option<Seq<char>>,
    pub reference: Option<Seq<char>>,
    pub created_at: Option<Seq<char>>,
    pub backend: Seq<char>,
}

impl View for Payment {
    type V = PaymentView;

    open spec fn view(&self) -> PaymentView {
        PaymentView {
            id: self.id@,
            status: self.status@,
            amount: self.amount@,
            currency: text_view(self.currency),
            recipient: text_view(self.recipient),
            reference: text_view(self.reference),
            created_at: text_view(self.created_at),
            backend: self.backend@,
        }
    }
}

/// A statement for one account over a period.
#[derive(Debug)]
pub struct Statement {
    pub account_id: String,
    pub period_start: String,
    pub period_end: String,
    pub opening_balance: Option<Amount>,
    pub closing_balance: Option<Amount>,
    pub transaction_count: u32,
    pub backend: String,
}

pub struct StatementView {
    pub account_id: Seq<char>,
    pub period_start: Seq<char>,
    pub period_end: Seq<char>,
    pub opening_balance: Option<AmountView>,
    pub closing_balance: Option<AmountView>,
    pub transaction_count: u32,
    pub backend: Seq<char>,
}

impl View for Statement {
    type V = StatementView;

    open spec fn view(&self) -> StatementView {
        StatementView {
            account_id: self.account_id@,
            period_start: self.period_start@,
            period_end: self.period_end@,
            opening_balance: amount_opt_view(self.opening_balance),
            closing_balance: amount_opt_view(self.closing_balance),
            transaction_count: self.transaction_count,
            backend: self.backend@,
        }
    }
}

/// Why a backend operation failed.
#[derive(Debug)]
pub enum BackendError {
    /// Plaid reported no account for the id asked for.
    AccountNotFound,
    /// Open Banking reported no account for the id asked for.
    NotFound,
    /// No transaction has the id asked for.
    TransactionNotFound,
    /// No institution has the id asked for.
    InstitutionNotFound,
    /// Open Banking has no institution directory.
    NoInstitutionDirectory,
    /// The request failed on its way (connection, HTTP status, body); the
    /// text is the failure's own description.
    Request(String),
}

/// The message a backend error is shown with.
pub open spec fn error_message(e: BackendError) -> Seq<char> {
    match e {
        BackendError::AccountNotFound => "account not found"@,
        BackendError::NotFound => "not found"@,
        BackendError::TransactionNotFound => "transaction not found"@,
        BackendError::InstitutionNotFound => "institution not found"@,
        BackendError::NoInstitutionDirectory => "Open Banking does not provide an institution directory API"@,
        BackendError::Request(text) => text@,
    }
}

impl BackendError {
    /// The message the error is shown with.
    pub fn message(&self) -> (r: String)
        ensures
            r@ == error_message(*self),
    {
        match self {
            BackendError::AccountNotFound => "account not found".to_owned(),
            BackendError::NotFound => "not found".to_owned(),
            BackendError::TransactionNotFound => "transaction not found".to_owned(),
            BackendError::InstitutionNotFound => "institution not found".to_owned(),
            BackendError::NoInstitutionDirectory => "Open Banking does not provide an institution directory API".to_owned(),
            BackendError::Request(text) => text.clone(),
        }
    }
}

} // verus!

verus! {

use crate::json::{Json, JsonValue, as_num, view_opt, number_of};

/// `v.as_f64()`: the reported number, if `v` is one.
pub open spec fn number_amount(v: Option<Json>) -> Option<AmountView> {
    match as_num(v) {
        Some(n) => Some(AmountView::Number(n)),
        None => None,
    }
}

/// `v.as_f64().unwrap_or(0.0)`.
pub open spec fn number_or_zero(v: Option<Json>) -> AmountView {
    match number_amount(v) {
        Some(a) => a,
        None => zero(),
    }
}

/// `v.as_f64().map(|x| x / 100.0)`.
pub open spec fn hundredths_amount(v: Option<Json>) -> Option<AmountView> {
    match as_num(v) {
        Some(n) => Some(AmountView::Hundredths(n)),
        None => None,
    }
}

/// `v.as_f64().map(|x| x / 100.0).unwrap_or(0.0)`.
pub open spec fn hundredths_or_zero(v: Option<Json>) -> AmountView {
    match hundredths_amount(v) {
        Some(a) => a,
        None => zero(),
    }
}

pub fn number_amount_of(v: Option<&JsonValue>) -> (r: Option<Amount>)
    ensures
        amount_opt_view(r) == number_amount(view_opt(v)),
{
    match number_of(v) {
        Some(n) => Some(Amount::Number(n)),
        None => None,
    }
}

pub fn number_or_zero_of(v: Option<&JsonValue>) -> (r: Amount)
    ensures
        r@ == number_or_zero(view_opt(v)),
{
    match number_of(v) {
        Some(n) => Amount::Number(n),
        None => zero_amount(),
    }
}

pub fn hundredths_amount_of(v: Option<&JsonValue>) -> (r: Option<Amount>)
    ensures
        amount_opt_view(r) == hundredths_amount(view_opt(v)),
{
    match number_of(v) {
        Some(n) => Some(Amount::Hundredths(n)),
        None => None,
    }
}

pub fn hundredths_or_zero_of(v: Option<&JsonValue>) -> (r: Amount)
    ensures
        r@ == hundredths_or_zero(view_opt(v)),
{
    match number_of(v) {
        Some(n) => Amount::Hundredths(n),
        None => zero_amount(),
    }
}

} // verus!

verus! {

use crate::json::{as_text, text_opt, text_or_default, text_or_empty, find_first, lemma_find_first_at, lemma_find_first_none};
use crate::text::{has_infix, lowercase, same_text, to_lower, contains_text};

/// Decimal text read as a required amount: missing text is the empty text,
/// which reads as zero.
pub open spec fn decimal_or_zero(v: Option<Json>, negated: bool) -> AmountView {
    AmountView::Decimal { text: text_or_empty(v), negated }
}

/// Decimal text read as an optional amount: no amount without text.
pub open spec fn decimal_amount(v: Option<Json>) -> Option<AmountView> {
    match as_text(v) {
        Some(s) => Some(AmountView::Decimal { text: s, negated: false }),
        None => None,
    }
}

pub fn decimal_or_zero_of(v: Option<&JsonValue>, negated: bool) -> (r: Amount)
    ensures
        r@ == decimal_or_zero(view_opt(v), negated),
{
    Amount::Decimal { text: text_or_default(v), negated }
}

pub fn decimal_amount_of(v: Option<&JsonValue>) -> (r: Option<Amount>)
    ensures
        amount_opt_view(r) == decimal_amount(view_opt(v)),
{
    match text_opt(v) {
        Some(s) => Some(Amount::Decimal { text: s, negated: false }),
        None => None,
    }
}

pub open spec fn transactions_view(txns: Seq<Transaction>) -> Seq<TransactionView> {
    txns.map_values(|t: Transaction| t@)
}

pub open spec fn institutions_view(list: Seq<Institution>) -> Seq<InstitutionView> {
    list.map_values(|i: Institution| i@)
}

/// The merchant of a transaction, or the empty text when none is given.
pub open spec fn merchant_or_empty(t: TransactionView) -> Seq<char> {
    match t.merchant_name {
        Some(m) => m,
        None => Seq::empty(),
    }
}

/// A transaction matches a query when its description or its merchant
/// contains the query, all three lower-cased.
pub open spec fn transaction_matches(t: TransactionView, query: Seq<char>) -> bool {
    has_infix(lowercase(t.description), lowercase(query)) || has_infix(lowercase(merchant_or_empty(t)), lowercase(query))
}

/// The test of a search on texts that are already lower-cased: the
/// description or the merchant contains the query.
pub fn lowered_match(description: &str, merchant: &str, query: &str) -> (r: bool)
    ensures
        r == (has_infix(description@, query@) || has_infix(merchant@, query@)),
{
    contains_text(description, query) || contains_text(merchant, query)
}

/// The transactions whose description or merchant contains the query,
/// ignoring case, in their order.
pub fn search_matches(txns: Vec<Transaction>, query: &str) -> (r: Vec<Transaction>)
    ensures
        transactions_view(r@) == transactions_view(txns@).filter(|t: TransactionView| transaction_matches(t, query@)),
{
    let q = to_lower(query);
    let ghost all = transactions_view(txns@);
    let ghost pred = |t: TransactionView| transaction_matches(t, query@);
    let mut rest = txns;
    let mut out: Vec<Transaction> = Vec::new();
    let ghost mut done: int = 0;
    while rest.len() > 0
        invariant
            q@ == lowercase(query@),
            pred == (|t: TransactionView| transaction_matches(t, query@)),
            0 <= done <= all.len(),
            transactions_view(rest@) == all.skip(done),
            transactions_view(out@) == all.take(done).filter(pred),
        decreases rest@.len(),
    {
        assert(transactions_view(rest@).len() == rest@.len());
        assert(done < all.len());
        let ghost rest_before = rest@;
        let t = rest.remove(0);
        let ghost tv = t@;
        assert(tv == transactions_view(rest_before)[0]);
        assert(tv == all[done]) by {
            assert(all.skip(done)[0] == all[done]);
        }
        let description = to_lower(t.description.as_str());
        let merchant = match &t.merchant_name {
            Some(m) => to_lower(m.as_str()),
            None => to_lower(""),
        };
        proof {
            reveal_strlit("");
            assert(merchant_or_empty(tv) == match t.merchant_name {
                Some(m) => m@,
                None => ""@,
            });
        }
        let hit = lowered_match(description.as_str(), merchant.as_str(), q.as_str());
        proof {
            reveal_with_fuel(Seq::<_>::filter, 1);
            assert(all.take(done + 1).drop_last() =~= all.take(done));
            assert(all.take(done + 1).last() == all[done]);
        }
        let ghost before = out@;
        if hit {
            out.push(t);
            assert(transactions_view(out@) =~= transactions_view(before).push(tv));
        }
        proof {
            assert forall|k: int| 0 <= k < rest@.len() implies #[trigger] transactions_view(rest@)[k] == all.skip(done + 1)[k] by {
                assert(rest@[k] == rest_before[k + 1]);
                assert(transactions_view(rest_before)[k + 1] == all.skip(done)[k + 1]);
            }
            assert(transactions_view(rest@) =~= all.skip(done + 1));
            done = done + 1;
        }
    }
    assert(all.take(done) =~= all);
    out
}

/// The first transaction with the id asked for.
pub fn find_transaction(txns: Vec<Transaction>, id: &str) -> (r: Option<Transaction>)
    ensures
        match find_first(transactions_view(txns@), |t: TransactionView| t.id == id@) {
            Some(t) => r matches Some(x) && x@ == t,
            None => r is None,
        },
{
    let mut list = txns;
    let ghost all = transactions_view(list@);
    let ghost p = |t: TransactionView| t.id == id@;
    let mut i: usize = 0;
    while i < list.len()
        invariant
            i <= list@.len(),
            all == transactions_view(list@),
            all == transactions_view(txns@),
            p == (|t: TransactionView| t.id == id@),
            forall|j: int| 0 <= j < i ==> !p(#[trigger] all[j]),
        decreases list@.len() - i,
    {
        if same_text(list[i].id.as_str(), id) {
            proof {
                lemma_find_first_at(all, p, i as int);
                assert(all[i as int] == list@[i as int]@);
            }
            return Some(list.remove(i));
        }
        i += 1;
    }
    proof {
        lemma_find_first_none(all, p);
    }
    None
}

/// The first institution with the id asked for; an error when none has it.
pub fn find_institution(list: Vec<Institution>, id: &str) -> (r: Result<Institution, BackendError>)
    ensures
        match find_first(institutions_view(list@), |i: InstitutionView| i.id == id@) {
            Some(i) => r matches Ok(x) && x@ == i,
            None => r matches Err(BackendError::InstitutionNotFound),
        },
{
    let mut rest = list;
    let ghost all = institutions_view(rest@);
    let ghost p = |i: InstitutionView| i.id == id@;
    let mut i: usize = 0;
    while i < rest.len()
        invariant
            i <= rest@.len(),
            all == institutions_view(rest@),
            all == institutions_view(list@),
            p == (|i: InstitutionView| i.id == id@),
            forall|j: int| 0 <= j < i ==> !p(#[trigger] all[j]),
        decreases rest@.len() - i,
    {
        if same_text(rest[i].id.as_str(), id) {
            proof {
                lemma_find_first_at(all, p, i as int);
                assert(all[i as int] == rest@[i as int]@);
            }
            return Ok(rest.remove(i));
        }
        i += 1;
    }
    proof {
        lemma_find_first_none(all, p);
    }
    Err(BackendError::InstitutionNotFound)
}

} // verus!

verus! {

use crate::text::{last_four, last_four_text};

/// The last four bytes of an account number, as the text they encode.
pub open spec fn mask_of(v: Option<Json>) -> Option<Seq<char>> {
    match as_text(v) {
        Some(s) => last_four(s),
        None => None,
    }
}

/// Reading the mask of `v` does not cut a character in two (where it
/// would, the slicing panics).
pub open spec fn mask_cuts_cleanly(v: Option<Json>) -> bool {
    match as_text(v) {
        Some(s) => last_four(s) is Some,
        None => true,
    }
}

/// `v.as_str().map(|s| s[s.len().saturating_sub(4)..].to_string())`.
pub fn mask_from(v: Option<&JsonValue>) -> (r: Option<String>)
    requires
        mask_cuts_cleanly(view_opt(v)),
    ensures
        crate::json::text_view(r) == mask_of(view_opt(v)),
{
    match crate::json::text_of(v) {
        Some(s) => last_four_text(s.as_str()),
        None => None,
    }
}

/// Whether reading the mask of `v` cuts cleanly.
pub fn mask_is_clean(v: Option<&JsonValue>) -> (r: bool)
    ensures
        r == mask_cuts_cleanly(view_opt(v)),
{
    match crate::json::text_of(v) {
        Some(s) => last_four_text(s.as_str()).is_some(),
        None => true,
    }
}

} // verus!
