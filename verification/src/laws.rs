//! What holds of the library as a whole.
use vstd::prelude::*;
use crate::json::{Json, distinct_keys, find_first, lemma_merge_lookup, lookup};
use crate::mono::{mono_account, mono_balance, mono_institution, mono_payment, mono_transaction};
use crate::open_banking::{ob_account, ob_balance, ob_listed_account, ob_lookup_found, ob_lookup_hit, ob_payment, ob_transaction};
use crate::plaid::{
    PlaidView, plaid_account, plaid_balance, plaid_body, plaid_credentials, plaid_identity,
    plaid_institution, plaid_payment, plaid_transaction,
};
use crate::text::{byte_tail, last_four, lowercase, without_trailing_slashes};
use crate::types::{TransactionView, transaction_matches};

verus! {

/// Every Plaid request body carries each member of the operation's
/// parameters, and each credential that the parameters do not set.
pub proof fn lemma_plaid_body_members(p: PlaidView, with_token: bool, params: Seq<(Seq<char>, Json)>, key: Seq<char>)
    requires
        distinct_keys(params),
    ensures
        plaid_body(p, with_token, Json::Object(params)) is Object,
        lookup(plaid_body(p, with_token, Json::Object(params))->Object_0, key) == match lookup(params, key) {
            Some(v) => Some(v),
            None => lookup(plaid_credentials(p, with_token), key),
        },
{
    lemma_merge_lookup(plaid_credentials(p, with_token), params, key);
}

/// Whatever a backend answers, every record read from it names that
/// backend: one schema, whichever backend serves it.
pub proof fn lemma_records_name_their_backend(j: Json, o: Option<Json>, id: Seq<char>, with_type: bool)
    ensures
        plaid_account(j).backend == "plaid"@,
        plaid_balance(j).backend == "plaid"@,
        plaid_transaction(j, with_type).backend == "plaid"@,
        plaid_identity(j).backend == "plaid"@,
        plaid_institution(j).backend == "plaid"@,
        plaid_payment(j).backend == "plaid"@,
        mono_account(id, j).backend == "mono"@,
        mono_balance(id, j).backend == "mono"@,
        mono_transaction(id, o).backend == "mono"@,
        mono_institution(o).backend == "mono"@,
        mono_payment(o).backend == "mono"@,
        ob_listed_account(o).backend == "open_banking"@,
        ob_account(o).backend == "open_banking"@,
        ob_balance(o).backend == "open_banking"@,
        ob_transaction(o).backend == "open_banking"@,
        ob_payment(o).backend == "open_banking"@,
{
}

/// A search gives back exactly the transactions whose description or
/// merchant contains the query (all lower-cased), each one that many times, in their order:
/// each result matches and was listed, and each listed match is a result.
pub proof fn lemma_search_sound_and_complete(all: Seq<TransactionView>, query: Seq<char>)
    ensures
        ({
            let found = all.filter(|t: TransactionView| transaction_matches(t, query));
            &&& forall|i: int| 0 <= i < found.len() ==> transaction_matches(#[trigger] found[i], query) && all.contains(found[i])
            &&& forall|t: TransactionView| #[trigger] all.contains(t) && transaction_matches(t, query) ==> found.contains(t)
            &&& found.len() <= all.len()
        }),
{
    let pred = |t: TransactionView| transaction_matches(t, query);
    let found = all.filter(pred);
    all.lemma_filter_len(pred);
    assert forall|i: int| 0 <= i < found.len() implies transaction_matches(#[trigger] found[i], query) && all.contains(found[i]) by {
        all.lemma_filter_pred(pred, i);
        assert(found.contains(found[i]));
        all.lemma_filter_contains_rev(pred, found[i]);
    }
    assert forall|t: TransactionView| #[trigger] all.contains(t) && transaction_matches(t, query) implies found.contains(t) by {
        let i = choose|i: int| 0 <= i < all.len() && all[i] == t;
        all.lemma_filter_contains(pred, i);
    }
}

/// Searching the results of a search with the same query changes nothing.
pub proof fn lemma_search_idempotent(all: Seq<TransactionView>, query: Seq<char>)
    ensures
        all.filter(|t: TransactionView| transaction_matches(t, query)).filter(|t: TransactionView| transaction_matches(t, query))
            == all.filter(|t: TransactionView| transaction_matches(t, query)),
    decreases all.len(),
{
    let pred = |t: TransactionView| transaction_matches(t, query);
    reveal_with_fuel(Seq::<_>::filter, 2);
    if all.len() > 0 {
        lemma_search_idempotent(all.drop_last(), query);
        let sub = all.drop_last().filter(pred);
        if pred(all.last()) {
            let f = sub.push(all.last());
            assert(f.drop_last() =~= sub);
            assert(f.last() == all.last());
        }
    }
}

/// Matching ignores case: two queries that lower-case alike select the
/// same transactions.
pub proof fn lemma_search_ignores_case(all: Seq<TransactionView>, q1: Seq<char>, q2: Seq<char>)
    requires
        lowercase(q1) == lowercase(q2),
    ensures
        all.filter(|t: TransactionView| transaction_matches(t, q1)) == all.filter(|t: TransactionView| transaction_matches(t, q2)),
{
    let p1 = |t: TransactionView| transaction_matches(t, q1);
    let p2 = |t: TransactionView| transaction_matches(t, q2);
    assert(p1 =~= p2);
}

/// A lookup across accounts, taken one answer at a time as `lookup_step`
/// takes it, gives the whole lookup's result: once the answers of the first
/// `k` accounts have had no hit, the hit of the next answer is the first
/// hit in account order; and when every answer has been looked through
/// without one, the transaction is not found.
pub proof fn lemma_lookup_finds_first_hit(answers: Seq<Json>, id: Seq<char>, k: int)
    requires
        0 <= k <= answers.len(),
        forall|i: int| 0 <= i < k ==> (#[trigger] ob_lookup_hit(Some(answers[i]), id)) is None,
    ensures
        k < answers.len() && ob_lookup_hit(Some(answers[k]), id) is Some ==> ob_lookup_found(answers, id) == ob_lookup_hit(
            Some(answers[k]),
            id,
        ),
        k == answers.len() ==> ob_lookup_found(answers, id) is None,
    decreases k,
{
    if k > 0 {
        let rest = answers.drop_first();
        assert(ob_lookup_hit(Some(answers[0]), id) is None);
        assert forall|i: int| 0 <= i < k - 1 implies (#[trigger] ob_lookup_hit(Some(rest[i]), id)) is None by {
            assert(rest[i] == answers[i + 1]);
            assert(ob_lookup_hit(Some(answers[i + 1]), id) is None);
        }
        lemma_lookup_finds_first_hit(rest, id, k - 1);
        if k < answers.len() {
            assert(rest[k - 1] == answers[k]);
        }
    }
}

/// A lookup finds an element that satisfies the test, and the first one.
pub proof fn lemma_find_first_sound<T>(s: Seq<T>, p: spec_fn(T) -> bool)
    ensures
        find_first(s, p) matches Some(x) ==> p(x) && s.contains(x),
        find_first(s, p) is None ==> forall|i: int| 0 <= i < s.len() ==> !p(#[trigger] s[i]),
    decreases s.len(),
{
    if s.len() > 0 {
        lemma_find_first_sound(s.drop_first(), p);
        if !p(s[0]) {
            if let Some(x) = find_first(s, p) {
                let i = choose|i: int| 0 <= i < s.drop_first().len() && s.drop_first()[i] == x;
                assert(s[i + 1] == x);
            } else {
                assert forall|i: int| 0 <= i < s.len() implies !p(#[trigger] s[i]) by {
                    if i > 0 {
                        assert(s[i] == s.drop_first()[i - 1]);
                    }
                }
            }
        }
    }
}

/// An API root loses exactly its trailing slashes: what is left is a
/// prefix of it that does not end in a slash, and only slashes follow it.
/// So a path joined to the root stands behind exactly one slash.
pub proof fn lemma_trimmed_root(s: Seq<char>)
    ensures
        without_trailing_slashes(s).len() <= s.len(),
        without_trailing_slashes(s) == s.take(without_trailing_slashes(s).len() as int),
        without_trailing_slashes(s).len() == 0 || without_trailing_slashes(s).last() != '/',
        forall|i: int| without_trailing_slashes(s).len() <= i < s.len() ==> s[i] == '/',
    decreases s.len(),
{
    if s.len() > 0 && s.last() == '/' {
        lemma_trimmed_root(s.drop_last());
        let t = without_trailing_slashes(s.drop_last());
        assert(s.drop_last().take(t.len() as int) =~= s.take(t.len() as int));
        assert forall|i: int| t.len() <= i < s.len() implies s[i] == '/' by {
            if i < s.len() - 1 {
                assert(s[i] == s.drop_last()[i]);
            }
        }
    } else {
        assert(s.take(s.len() as int) =~= s);
    }
}

/// The mask of an account number is a tail of it.
pub proof fn lemma_mask_is_tail(s: Seq<char>)
    ensures
        last_four(s) matches Some(t) ==> t.len() <= s.len() && t == s.skip(s.len() - t.len()),
{
    lemma_byte_tail_is_tail(s, 4);
}

proof fn lemma_byte_tail_is_tail(s: Seq<char>, budget: int)
    ensures
        byte_tail(s, budget) matches Some(t) ==> t.len() <= s.len() && t == s.skip(s.len() - t.len()),
    decreases s.len(),
{
    if s.len() > 0 && budget > 0 {
        lemma_byte_tail_is_tail(s.drop_last(), budget - crate::text::utf8_width(s.last()));
        if let Some(t) = byte_tail(s, budget) {
            let u = t.drop_last();
            assert(byte_tail(s.drop_last(), budget - crate::text::utf8_width(s.last())) == Some(u)) by {
                assert(t == u.push(s.last()));
            }
            assert(t =~= s.skip(s.len() - t.len()));
        }
    } else if let Some(t) = byte_tail(s, budget) {
        assert(t =~= s.skip(s.len() - t.len()));
    }
}

} // verus!
