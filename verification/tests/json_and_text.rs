use mcp_banking::json::{at, first_of, merge_members_exec, text_is, text_opt, text_or_default, JsonNumber, JsonValue};
use mcp_banking::text::{contains_text, decimal_text, last_four_text, trim_trailing_slashes};

fn s(x: &str) -> JsonValue {
    JsonValue::Str(x.to_string())
}

fn obj(pairs: Vec<(&str, JsonValue)>) -> JsonValue {
    JsonValue::Object(pairs.into_iter().map(|(k, v)| (k.to_string(), v)).collect())
}

#[test]
fn member_lookup_finds_present_keys_only() {
    let v = obj(vec![("a", s("x")), ("b", obj(vec![("c", s("y"))]))]);
    assert_eq!(text_or_default(at(Some(&v), "a")), "x");
    assert_eq!(text_or_default(at(at(Some(&v), "b"), "c")), "y");
    assert!(at(Some(&v), "missing").is_none());
    assert!(at(at(Some(&v), "a"), "c").is_none());
    assert_eq!(text_or_default(at(Some(&v), "missing")), "");
    assert_eq!(text_opt(at(Some(&v), "b")), None);
}

#[test]
fn first_element_of_an_array() {
    let v = obj(vec![("list", JsonValue::Array(vec![s("one"), s("two")])), ("empty", JsonValue::Array(vec![]))]);
    assert_eq!(text_opt(first_of(at(Some(&v), "list"))), Some("one".to_string()));
    assert!(first_of(at(Some(&v), "empty")).is_none());
    assert!(first_of(at(Some(&v), "missing")).is_none());
}

#[test]
fn text_comparison_is_exact() {
    let v = s("Debit");
    assert!(text_is(Some(&v), "Debit"));
    assert!(!text_is(Some(&v), "debit"));
    assert!(!text_is(None, "Debit"));
}

#[test]
fn merging_sets_and_appends_members() {
    let mut base = vec![("client_id".to_string(), s("id")), ("secret".to_string(), s("sh"))];
    let extra = vec![("secret".to_string(), s("new")), ("count".to_string(), JsonValue::Number(JsonNumber::PosInt(5)))];
    merge_members_exec(&mut base, extra);
    assert_eq!(base.len(), 3);
    assert_eq!(base[0].0, "client_id");
    assert_eq!(text_or_default(Some(&base[1].1)), "new");
    assert_eq!(base[2].0, "count");
}

#[test]
fn decimal_numerals() {
    assert_eq!(decimal_text(0), "0");
    assert_eq!(decimal_text(7), "7");
    assert_eq!(decimal_text(50), "50");
    assert_eq!(decimal_text(1234567890), "1234567890");
    assert_eq!(decimal_text(u64::MAX), u64::MAX.to_string());
}

#[test]
fn infix_search() {
    assert!(contains_text("uber trip", "uber"));
    assert!(contains_text("uber trip", "trip"));
    assert!(contains_text("uber trip", ""));
    assert!(contains_text("", ""));
    assert!(!contains_text("uber", "uber trip"));
    assert!(!contains_text("uber trip", "Uber"));
    assert!(contains_text("naïve café", "é"));
}

#[test]
fn last_four_bytes() {
    assert_eq!(last_four_text("1234567890"), Some("7890".to_string()));
    assert_eq!(last_four_text("12"), Some("12".to_string()));
    assert_eq!(last_four_text(""), Some(String::new()));
    assert_eq!(last_four_text("ab€"), Some("b€".to_string()));
    assert_eq!(last_four_text("€€"), None);
    assert_eq!(last_four_text("x😀"), Some("😀".to_string()));
}

#[test]
fn trailing_slashes_trimmed() {
    assert_eq!(trim_trailing_slashes("https://bank/v3.1//"), "https://bank/v3.1");
    assert_eq!(trim_trailing_slashes("https://bank/v3.1"), "https://bank/v3.1");
    assert_eq!(trim_trailing_slashes("///"), "");
    assert_eq!(trim_trailing_slashes("a/b"), "a/b");
}
