use vstd::prelude::*;
use vstd::string::*;
use crate::json::text_view;

verus! {

/// The ten decimal digits, in order.
pub open spec fn digits() -> Seq<char> {
    seq!['0', '1', '2', '3', '4', '5', '6', '7', '8', '9']
}

/// The decimal numeral of `n`, without leading zeros.
pub open spec fn decimal(n: nat) -> Seq<char>
    decreases n,
{
    if n < 10 {
        seq![digits()[n as int]]
    } else {
        decimal(n / 10).push(digits()[(n % 10) as int])
    }
}

fn digit_text(d: u64) -> (r: &'static str)
    requires
        d < 10,
    ensures
        r@ == seq![digits()[d as int]],
{
    match d {
        0 => { proof { reveal_strlit("0"); } "0" },
        1 => { proof { reveal_strlit("1"); } "1" },
        2 => { proof { reveal_strlit("2"); } "2" },
        3 => { proof { reveal_strlit("3"); } "3" },
        4 => { proof { reveal_strlit("4"); } "4" },
        5 => { proof { reveal_strlit("5"); } "5" },
        6 => { proof { reveal_strlit("6"); } "6" },
        7 => { proof { reveal_strlit("7"); } "7" },
        8 => { proof { reveal_strlit("8"); } "8" },
        _ => { proof { reveal_strlit("9"); } "9" },
    }
}

/// The decimal numeral of `n`, as `format!("{n}")` writes it.
pub fn decimal_text(n: u64) -> (r: String)
    ensures
        r@ == decimal(n as nat),
    decreases n,
{
    if n < 10 {
        digit_text(n).to_owned()
    } else {
        let mut s = decimal_text(n / 10);
        s.append(digit_text(n % 10));
        s
    }
}

/// `needle` occurs in `hay` as a run of consecutive characters.
pub open spec fn has_infix(hay: Seq<char>, needle: Seq<char>) -> bool {
    exists|i: int| 0 <= i && i + needle.len() <= hay.len() && #[trigger] hay.subrange(i, i + needle.len()) == needle
}

/// The characters of `s`, in order.
pub fn chars_of(s: &str) -> (r: Vec<char>)
    ensures
        r@ == s@,
{
    let n = s.unicode_len();
    let mut r: Vec<char> = Vec::new();
    let mut i: usize = 0;
    while i < n
        invariant
            n == s@.len(),
            i <= n,
            r@ == s@.take(i as int),
        decreases n - i,
    {
        let c = s.get_char(i);
        r.push(c);
        i += 1;
        assert(r@ =~= s@.take(i as int));
    }
    assert(r@ =~= s@);
    r
}

fn matches_at(hay: &Vec<char>, needle: &Vec<char>, start: usize) -> (r: bool)
    requires
        start + needle@.len() <= hay@.len(),
    ensures
        r == (hay@.subrange(start as int, start + needle@.len()) == needle@),
{
    let mut j: usize = 0;
    while j < needle.len()
        invariant
            start + needle@.len() <= hay@.len(),
            j <= needle@.len(),
            forall|k: int| 0 <= k < j ==> hay@[start + k] == needle@[k],
        decreases needle@.len() - j,
    {
        assert(start + j < hay.len());
        if hay[start + j] != needle[j] {
            assert(hay@.subrange(start as int, start + needle@.len())[j as int] != needle@[j as int]);
            return false;
        }
        j += 1;
    }
    assert(hay@.subrange(start as int, start + needle@.len()) =~= needle@);
    true
}

/// `hay.contains(needle)`.
pub fn contains_text(hay: &str, needle: &str) -> (r: bool)
    ensures
        r == has_infix(hay@, needle@),
{
    let h = chars_of(hay);
    let n = chars_of(needle);
    if n.len() > h.len() {
        return false;
    }
    let last = h.len() - n.len();
    let mut i: usize = 0;
    while i <= last
        invariant
            h@ == hay@,
            n@ == needle@,
            last + n@.len() == h@.len(),
            i <= last,
            forall|k: int| 0 <= k < i ==> #[trigger] h@.subrange(k, k + n@.len()) != n@,
        ensures
            forall|k: int| 0 <= k <= last ==> #[trigger] h@.subrange(k, k + n@.len()) != n@,
        decreases last - i,
    {
        if matches_at(&h, &n, i) {
            return true;
        }
        if i == last {
            break;
        }
        i += 1;
    }
    assert forall|k: int| 0 <= k && k + needle@.len() <= hay@.len() implies #[trigger] hay@.subrange(k, k + needle@.len()) != needle@ by {
        assert(k <= last);
    }
    false
}

/// What `str::to_lowercase` gives for a text.
pub uninterp spec fn lowercase(s: Seq<char>) -> Seq<char>;

/// Calls `str::to_lowercase`. Its result is the Unicode lower-case mapping of
/// the text, which depends on the text alone; the contract names it and says
/// nothing more of it.
#[verifier::external_body]
pub(crate) fn to_lower(s: &str) -> (r: String)
    ensures
        r@ == lowercase(s@),
{
    s.to_lowercase()
}

/// What `str::to_uppercase` gives for a text.
pub uninterp spec fn uppercase(s: Seq<char>) -> Seq<char>;

/// Calls `str::to_uppercase`. Its result is the Unicode upper-case mapping of
/// the text, which depends on the text alone; the contract names it and says
/// nothing more of it.
#[verifier::external_body]
pub(crate) fn to_upper(s: &str) -> (r: String)
    ensures
        r@ == uppercase(s@),
{
    s.to_uppercase()
}

/// How many bytes UTF-8 spends on `c`.
pub open spec fn utf8_width(c: char) -> int {
    if (c as u32) < 0x80 {
        1
    } else if (c as u32) < 0x800 {
        2
    } else if (c as u32) < 0x10000 {
        3
    } else {
        4
    }
}

/// The characters that the last `budget` bytes of the UTF-8 encoding of `s`
/// encode, or nothing where those bytes begin inside a character. A text of
/// fewer bytes is kept whole.
pub open spec fn byte_tail(s: Seq<char>, budget: int) -> Option<Seq<char>>
    decreases s.len(),
{
    if s.len() == 0 || budget <= 0 {
        Some(Seq::empty())
    } else if utf8_width(s.last()) > budget {
        None
    } else {
        match byte_tail(s.drop_last(), budget - utf8_width(s.last())) {
            Some(t) => Some(t.push(s.last())),
            None => None,
        }
    }
}

/// The last four bytes of `s`, as `s[s.len().saturating_sub(4)..]` slices
/// them; nothing where that slice would begin inside a character (the
/// slicing panics there).
pub open spec fn last_four(s: Seq<char>) -> Option<Seq<char>> {
    byte_tail(s, 4)
}

fn char_width(c: char) -> (r: usize)
    ensures
        r == utf8_width(c),
{
    let u = c as u32;
    if u < 0x80 {
        1
    } else if u < 0x800 {
        2
    } else if u < 0x10000 {
        3
    } else {
        4
    }
}

/// `s[s.len().saturating_sub(4)..]`, or nothing where that slice would
/// begin inside a character.
pub fn last_four_text(s: &str) -> (r: Option<String>)
    ensures
        text_view(r) == last_four(s@),
{
    let cs = chars_of(s);
    let mut k = cs.len();
    let mut budget: usize = 4;
    proof {
        assert(s@.take(k as int) =~= s@);
        match byte_tail(s@, 4) {
            Some(t) => { assert(t + s@.skip(k as int) =~= t); },
            None => {},
        }
    }
    while k > 0 && budget > 0
        invariant
            cs@ == s@,
            k <= cs@.len(),
            budget <= 4,
            byte_tail(s@, 4) == (match byte_tail(s@.take(k as int), budget as int) {
                Some(t) => Some(t + s@.skip(k as int)),
                None => None,
            }),
        decreases k,
    {
        let w = char_width(cs[k - 1]);
        if w > budget {
            assert(byte_tail(s@.take(k as int), budget as int) is None) by {
                assert(s@.take(k as int).last() == s@[k - 1]);
            }
            return None;
        }
        proof {
            let t = s@.take(k as int);
            assert(t.last() == s@[k - 1]);
            assert(t.drop_last() =~= s@.take(k - 1));
            match byte_tail(t.drop_last(), budget - w) {
                Some(u) => {
                    assert(u.push(s@[k - 1]) + s@.skip(k as int) =~= u + s@.skip(k - 1));
                },
                None => {},
            }
        }
        budget -= w;
        k -= 1;
    }
    proof {
        assert(byte_tail(s@.take(k as int), budget as int) == Some(Seq::<char>::empty()));
        assert(Seq::<char>::empty() + s@.skip(k as int) =~= s@.skip(k as int));
    }
    Some(s.substring_char(k, cs.len()).to_owned())
}

/// `s` with every trailing `/` removed.
pub open spec fn without_trailing_slashes(s: Seq<char>) -> Seq<char>
    decreases s.len(),
{
    if s.len() > 0 && s.last() == '/' {
        without_trailing_slashes(s.drop_last())
    } else {
        s
    }
}

proof fn lemma_trailing_slashes(s: Seq<char>, k: int)
    requires
        0 <= k <= s.len(),
        forall|j: int| k <= j < s.len() ==> s[j] == '/',
    ensures
        without_trailing_slashes(s) == without_trailing_slashes(s.take(k)),
    decreases s.len() - k,
{
    if k < s.len() {
        assert(s.drop_last().take(k) =~= s.take(k));
        lemma_trailing_slashes(s.drop_last(), k);
    } else {
        assert(s.take(k) =~= s);
    }
}

/// `s.trim_end_matches('/')`.
pub fn trim_trailing_slashes(s: &str) -> (r: String)
    ensures
        r@ == without_trailing_slashes(s@),
{
    let cs = chars_of(s);
    let mut k = cs.len();
    while k > 0 && cs[k - 1] == '/'
        invariant
            cs@ == s@,
            k <= cs@.len(),
            forall|j: int| k <= j < cs@.len() ==> cs@[j] == '/',
        decreases k,
    {
        k -= 1;
    }
    proof {
        lemma_trailing_slashes(s@, k as int);
        if k > 0 {
            assert(s@.take(k as int).last() == s@[k - 1]);
        }
    }
    s.substring_char(0, k).to_owned()
}

} // verus!

verus! {

/// `a == b`.
pub fn same_text(a: &str, b: &str) -> (r: bool)
    ensures
        r == (a@ == b@),
{
    a.to_owned() == b.to_owned()
}

} // verus!
