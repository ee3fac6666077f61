//! What searches, lookups and readers give, stated from the transactions and
//! the answers' JSON members themselves.
use vstd::prelude::*;
use crate::json::{Json, JsonNumber, as_items, as_num, as_text, field, find_first, first_n};
use crate::mono::{data, mono_account, mono_balance, mono_payment, mono_transaction};
use crate::open_banking::{ob_balance, ob_lookup_hit, ob_transaction, ob_transactions};
use crate::plaid::{closing_of, plaid_has_id, plaid_account, plaid_balance, plaid_payment, plaid_transaction};
use crate::text::{has_infix, lowercase};
use crate::types::{AmountView, BalanceView, TransactionView, transaction_matches};

verus! {

/// A number read as an amount, as `as_f64().unwrap_or(0.0)` reads it: the
/// number itself, else zero.
pub open spec fn reported_or_zero(v: Option<Json>) -> AmountView {
    match as_num(v) {
        Some(n) => AmountView::Number(n),
        None => AmountView::Number(JsonNumber::Float(0)),
    }
}

/// A number of minor units read as an amount: a hundredth of it, else zero.
pub open spec fn minor_units_or_zero(v: Option<Json>) -> AmountView {
    match as_num(v) {
        Some(n) => AmountView::Hundredths(n),
        None => AmountView::Number(JsonNumber::Float(0)),
    }
}

/// The first element of `s` that satisfies `p` is found by `find_first`:
/// whenever some element satisfies it, the one found is the element at the
/// least such index.
pub proof fn lemma_find_first_is_first_match<T>(s: Seq<T>, p: spec_fn(T) -> bool, i: int)
    requires
        0 <= i < s.len(),
        p(s[i]),
    ensures
        exists|k: int|
            0 <= k <= i && p(s[k]) && find_first(s, p) == Some(s[k]) && (forall|j: int| 0 <= j < k ==> !p(#[trigger] s[j])),
    decreases s.len(),
{
    if p(s[0]) {
        assert(find_first(s, p) == Some(s[0]));
        assert(0 <= 0 <= i && p(s[0]) && find_first(s, p) == Some(s[0]) && (forall|j: int| 0 <= j < 0 ==> !p(#[trigger] s[j])));
    } else {
        let rest = s.drop_first();
        assert(rest[i - 1] == s[i]);
        lemma_find_first_is_first_match(rest, p, i - 1);
        let k = choose|k: int|
            0 <= k <= i - 1 && p(rest[k]) && find_first(rest, p) == Some(rest[k]) && (forall|j: int| 0 <= j < k ==> !p(#[trigger] rest[j]));
        assert(rest[k] == s[k + 1]);
        assert forall|j: int| 0 <= j < k + 1 implies !p(#[trigger] s[j]) by {
            if j > 0 {
                assert(s[j] == rest[j - 1]);
            }
        }
        assert(0 <= k + 1 <= i && p(s[k + 1]) && find_first(s, p) == Some(s[k + 1]));
    }
}

/// What a search of `all` for `query` keeps, as `search_matches` states it.
pub open spec fn searched(all: Seq<TransactionView>, query: Seq<char>) -> Seq<TransactionView> {
    all.filter(|t: TransactionView| transaction_matches(t, query))
}

/// A search keeps every transaction whose description contains the query,
/// and every one whose merchant contains it, both ignoring case; it keeps
/// nothing else, and nothing that was not searched.
pub proof fn lemma_search_keeps_description_and_merchant_hits(all: Seq<TransactionView>, query: Seq<char>)
    ensures
        forall|i: int|
            0 <= i < all.len() && has_infix(lowercase(#[trigger] all[i].description), lowercase(query)) ==> searched(all, query).contains(all[i]),
        forall|i: int|
            0 <= i < all.len() && (#[trigger] all[i].merchant_name) is Some && has_infix(
                lowercase(all[i].merchant_name.unwrap()),
                lowercase(query),
            ) ==> searched(all, query).contains(all[i]),
        forall|t: TransactionView|
            #[trigger] searched(all, query).contains(t) ==> all.contains(t) && (
            has_infix(lowercase(t.description), lowercase(query)) || has_infix(
                lowercase(
                    match t.merchant_name {
                        Some(m) => m,
                        None => Seq::<char>::empty(),
                    },
                ),
                lowercase(query),
            )),
{
    let pred = |t: TransactionView| transaction_matches(t, query);
    let found = all.filter(pred);
    assert forall|i: int|
        0 <= i < all.len() && has_infix(lowercase(#[trigger] all[i].description), lowercase(query)) implies found.contains(all[i]) by {
        all.lemma_filter_contains(pred, i);
    }
    assert forall|i: int|
        0 <= i < all.len() && (#[trigger] all[i].merchant_name) is Some && has_infix(
            lowercase(all[i].merchant_name.unwrap()),
            lowercase(query),
        ) implies found.contains(all[i]) by {
        all.lemma_filter_contains(pred, i);
    }
    assert forall|t: TransactionView| #[trigger] found.contains(t) implies all.contains(t) && (has_infix(
        lowercase(t.description),
        lowercase(query),
    ) || has_infix(
        lowercase(
            match t.merchant_name {
                Some(m) => m,
                None => Seq::<char>::empty(),
            },
        ),
        lowercase(query),
    )) by {
        all.lemma_filter_contains_rev(pred, t);
        let k = choose|k: int| 0 <= k < found.len() && found[k] == t;
        all.lemma_filter_pred(pred, k);
    }
}

/// A lookup in an account's answer finds the transaction with the id asked
/// for wherever it stands among the answer's first 500 transactions: the
/// first of them that has the id.
pub proof fn lemma_lookup_finds_any_listed_id(answer: Json, id: Seq<char>, i: int)
    requires
        0 <= i < ob_transactions(answer).len(),
        i < 500,
        ob_transactions(answer)[i].id == id,
    ensures
        ob_lookup_hit(Some(answer), id) matches Some(x) && x.id == id && exists|k: int|
            0 <= k <= i && x == ob_transactions(answer)[k] && (forall|j: int|
                0 <= j < k ==> (#[trigger] ob_transactions(answer)[j]).id != id),
{
    let s = first_n(ob_transactions(answer), 500);
    let p = |t: TransactionView| t.id == id;
    assert(s[i] == ob_transactions(answer)[i]);
    lemma_find_first_is_first_match(s, p, i);
    let k = choose|k: int| 0 <= k <= i && p(s[k]) && find_first(s, p) == Some(s[k]) && (forall|j: int| 0 <= j < k ==> !p(#[trigger] s[j]));
    assert(s[k] == ob_transactions(answer)[k]);
    assert forall|j: int| 0 <= j < k implies (#[trigger] ob_transactions(answer)[j]).id != id by {
        assert(s[j] == ob_transactions(answer)[j]);
        assert(!p(s[j]));
    }
}

/// A lookup that finds something finds a transaction with the id asked for,
/// from among the answer's transactions.
pub proof fn lemma_lookup_hit_has_the_id(answer: Json, id: Seq<char>)
    ensures
        ob_lookup_hit(Some(answer), id) matches Some(x) ==> x.id == id && ob_transactions(answer).contains(x),
        ob_lookup_hit(Some(answer), id) is None ==> forall|i: int|
            0 <= i < ob_transactions(answer).len() && i < 500 ==> (#[trigger] ob_transactions(answer)[i]).id != id,
{
    if let Some(x) = ob_lookup_hit(Some(answer), id) {
        let s = first_n(ob_transactions(answer), 500);
        crate::laws::lemma_find_first_sound(s, |t: TransactionView| t.id == id);
        let k = choose|k: int| 0 <= k < s.len() && s[k] == x;
        assert(ob_transactions(answer)[k] == x);
    } else {
        assert forall|i: int| 0 <= i < ob_transactions(answer).len() && i < 500 implies (#[trigger] ob_transactions(
            answer,
        )[i]).id != id by {
            if ob_transactions(answer)[i].id == id {
                lemma_lookup_finds_any_listed_id(answer, id, i);
            }
        }
    }
}

/// A statement closes on the current balance of the first balance listed
/// for the account asked for, and on zero when none is listed for it.
pub proof fn lemma_closing_balance_is_the_accounts(balances: Seq<BalanceView>, account_id: Seq<char>)
    ensures
        forall|i: int|
            0 <= i < balances.len() && #[trigger] balances[i].account_id == account_id && (forall|j: int|
                0 <= j < i ==> (#[trigger] balances[j]).account_id != account_id) ==> closing_of(balances, account_id)
                == balances[i].current,
        (forall|i: int| 0 <= i < balances.len() ==> (#[trigger] balances[i]).account_id != account_id) ==> closing_of(
            balances,
            account_id,
        ) == AmountView::Number(JsonNumber::Float(0)),
{
    let p = |b: BalanceView| b.account_id == account_id;
    assert forall|i: int|
        0 <= i < balances.len() && #[trigger] balances[i].account_id == account_id && (forall|j: int|
            0 <= j < i ==> (#[trigger] balances[j]).account_id != account_id) implies closing_of(balances, account_id)
        == balances[i].current by {
        crate::json::lemma_find_first_at(balances, p, i);
    }
    if forall|i: int| 0 <= i < balances.len() ==> (#[trigger] balances[i]).account_id != account_id {
        crate::json::lemma_find_first_none(balances, p);
    }
}

/// Plaid balances and accounts: the current balance is the account's
/// `balances.current` number and the available balance its
/// `balances.available` number; the balance names the account's
/// `account_id`.
pub proof fn lemma_plaid_balances_read_their_members(acc: Json)
    ensures
        plaid_balance(acc).current == reported_or_zero(field(field(Some(acc), "balances"@), "current"@)),
        plaid_balance(acc).available == match as_num(field(field(Some(acc), "balances"@), "available"@)) {
            Some(n) => Some(AmountView::Number(n)),
            None => None,
        },
        plaid_balance(acc).account_id == match as_text(field(Some(acc), "account_id"@)) {
            Some(s) => s,
            None => Seq::empty(),
        },
        plaid_account(acc).balance_current == match as_num(field(field(Some(acc), "balances"@), "current"@)) {
            Some(n) => Some(AmountView::Number(n)),
            None => None,
        },
        plaid_account(acc).balance_available == match as_num(field(field(Some(acc), "balances"@), "available"@)) {
            Some(n) => Some(AmountView::Number(n)),
            None => None,
        },
{
}

/// The balance of each listed Plaid account is read from that account's
/// own members.
pub proof fn lemma_plaid_balance_list(resp: Json, i: int)
    requires
        as_items(field(Some(resp), "accounts"@)) matches Some(items) && 0 <= i < items.len(),
    ensures
        ({
            let items = as_items(field(Some(resp), "accounts"@)).unwrap();
            let read = crate::json::map_items(field(Some(resp), "accounts"@), |j: Json| plaid_balance(j));
            &&& read.len() == items.len()
            &&& read[i].current == reported_or_zero(field(field(Some(items[i]), "balances"@), "current"@))
            &&& read[i].account_id == match as_text(field(Some(items[i]), "account_id"@)) {
                Some(s) => s,
                None => Seq::empty(),
            }
        }),
{
}

/// Plaid transactions and payments carry the reported numbers as their
/// amounts, and a transaction's description and merchant are its `name`
/// and `merchant_name` texts.
pub proof fn lemma_plaid_amounts_and_texts(t: Json, with_type: bool, p: Json)
    ensures
        plaid_transaction(t, with_type).amount == reported_or_zero(field(Some(t), "amount"@)),
        plaid_transaction(t, with_type).id == match as_text(field(Some(t), "transaction_id"@)) {
            Some(s) => s,
            None => Seq::empty(),
        },
        plaid_transaction(t, with_type).description == match as_text(field(Some(t), "name"@)) {
            Some(s) => s,
            None => Seq::empty(),
        },
        plaid_transaction(t, with_type).merchant_name == as_text(field(Some(t), "merchant_name"@)),
        plaid_payment(p).amount == reported_or_zero(field(field(Some(p), "amount"@), "value"@)),
{
}

/// Mono reports amounts in minor units: a payment's, a transaction's and a
/// balance's amount is a hundredth of the reported number (zero only when
/// no number is given), and an account's balance likewise.
pub proof fn lemma_mono_amounts_are_minor_units(p: Option<Json>, t: Option<Json>, account_id: Seq<char>, resp: Json)
    ensures
        mono_payment(p).amount == minor_units_or_zero(field(p, "amount"@)),
        mono_payment(data(resp)).amount == minor_units_or_zero(field(data(resp), "amount"@)),
        mono_transaction(account_id, t).amount == minor_units_or_zero(field(t, "amount"@)),
        mono_transaction(account_id, t).account_id == account_id,
        mono_balance(account_id, resp).current == minor_units_or_zero(field(data(resp), "balance"@)),
        mono_balance(account_id, resp).account_id == account_id,
        mono_account(account_id, resp).balance_current == match as_num(field(data(resp), "balance"@)) {
            Some(n) => Some(AmountView::Hundredths(n)),
            None => None,
        },
{
}

/// Open Banking amounts are the reported decimal text; a debit counts
/// negative, and a balance is available only when in credit.
pub proof fn lemma_open_banking_amounts(t: Option<Json>, b: Option<Json>)
    ensures
        ob_transaction(t).amount == (AmountView::Decimal {
            text: match as_text(field(field(t, "Amount"@), "Amount"@)) {
                Some(s) => s,
                None => Seq::empty(),
            },
            negated: as_text(field(t, "CreditDebitIndicator"@)) == Some("Debit"@),
        }),
        ob_transaction(t).id == match as_text(field(t, "TransactionId"@)) {
            Some(s) => s,
            None => Seq::empty(),
        },
        ob_balance(b).available is Some ==> as_text(field(b, "CreditDebitIndicator"@)) == Some("Credit"@),
        ob_balance(b).current == (AmountView::Decimal {
            text: match as_text(field(field(b, "Amount"@), "Amount"@)) {
                Some(s) => s,
                None => Seq::empty(),
            },
            negated: false,
        }),
{
}

/// A limit keeps the leading entries: exactly the first `n` of them, or all
/// when there are no more than `n`, in their order.
pub proof fn lemma_limit_keeps_the_leading_entries<T>(s: Seq<T>, n: nat)
    ensures
        first_n(s, n).len() == if s.len() <= n { s.len() } else { n },
        forall|i: int| 0 <= i < first_n(s, n).len() ==> #[trigger] first_n(s, n)[i] == s[i],
{
}

/// A Plaid lookup by id matches exactly the transactions whose
/// `transaction_id` is the id asked for.
pub proof fn lemma_plaid_lookup_matches_the_id(t: Json, id: Seq<char>)
    ensures
        plaid_has_id(t, id) <==> as_text(field(Some(t), "transaction_id"@)) == Some(id),
{
}

} // verus!
