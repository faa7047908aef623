//! Text helpers: trimming, ASCII lower-casing and joining.
use vstd::prelude::*;
use crate::account_id::AccountId;

verus! {

/// Whether a character has the Unicode `White_Space` property, which
/// `char::is_whitespace` tests: tab to carriage return, space, next line,
/// no-break space, Ogham space mark, the spaces from en quad to hair space,
/// line and paragraph separators, narrow no-break space, medium mathematical
/// space and ideographic space.
pub open spec fn is_white_space(c: char) -> bool {
    let n = c as u32;
    ||| 0x09 <= n && n <= 0x0d
    ||| n == 0x20
    ||| n == 0x85
    ||| n == 0xa0
    ||| n == 0x1680
    ||| 0x2000 <= n && n <= 0x200a
    ||| n == 0x2028
    ||| n == 0x2029
    ||| n == 0x202f
    ||| n == 0x205f
    ||| n == 0x3000
}

/// `s` without its leading white space.
pub open spec fn trim_start_chars(s: Seq<char>) -> Seq<char>
    decreases s.len(),
{
    if s.len() > 0 && is_white_space(s[0]) {
        trim_start_chars(s.drop_first())
    } else {
        s
    }
}

/// `s` without its trailing white space.
pub open spec fn trim_end_chars(s: Seq<char>) -> Seq<char>
    decreases s.len(),
{
    if s.len() > 0 && is_white_space(s.last()) {
        trim_end_chars(s.drop_last())
    } else {
        s
    }
}

/// `s` without leading and trailing white space.
pub open spec fn trimmed(s: Seq<char>) -> Seq<char> {
    trim_end_chars(trim_start_chars(s))
}

/// `A` to `Z` become `a` to `z`; every other character stays.
pub open spec fn ascii_lower(c: char) -> char {
    if 'A' <= c && c <= 'Z' {
        ((c as u32) + 32) as char
    } else {
        c
    }
}

/// `s` with each character ASCII-lower-cased.
pub open spec fn ascii_lowercase(s: Seq<char>) -> Seq<char> {
    s.map_values(|c: char| ascii_lower(c))
}

/// The items of `list` one after the other with `sep` between each two.
pub open spec fn joined(list: Seq<Seq<char>>, sep: Seq<char>) -> Seq<char>
    decreases list.len(),
{
    if list.len() == 0 {
        Seq::empty()
    } else if list.len() == 1 {
        list[0]
    } else {
        joined(list.drop_last(), sep) + sep + list.last()
    }
}

/// The texts of a list of account IDs.
pub open spec fn account_id_texts(ids: Seq<AccountId>) -> Seq<Seq<char>> {
    ids.map_values(|id: AccountId| id@)
}

/// The texts of a list of strings.
pub open spec fn string_texts(items: Seq<String>) -> Seq<Seq<char>> {
    items.map_values(|s: String| s@)
}

/// `str::trim`: claimed to give the string without its leading and trailing
/// characters that have the `White_Space` property, as its documentation says.
#[verifier::external_body]
pub(crate) fn trim(s: &str) -> (r: &str)
    ensures
        r@ == trimmed(s@),
        r@.len() > 0 ==> !is_white_space(r@[0]) && !is_white_space(r@.last()),
{
    s.trim()
}

/// `str::to_ascii_lowercase`: claimed to give a copy in which `A` to `Z` become
/// `a` to `z` and every other character stays, as its documentation says.
#[verifier::external_body]
pub(crate) fn to_ascii_lowercase(s: &str) -> (r: String)
    ensures
        r@ == ascii_lowercase(s@),
{
    s.to_ascii_lowercase()
}

/// Joins strings with a separator between each two.
pub fn join_strings(items: &Vec<String>, sep: &str) -> (r: String)
    ensures
        r@ == joined(string_texts(items@), sep@),
{
    let ghost texts = string_texts(items@);
    let mut r = String::new();
    let mut i: usize = 0;
    while i < items.len()
        invariant
            i <= items.len(),
            texts == string_texts(items@),
            r@ == joined(texts.take(i as int), sep@),
        decreases items.len() - i,
    {
        if i > 0 {
            r.append(sep);
        }
        r.append(items[i].as_str());
        assert(texts.take(i + 1).drop_last() =~= texts.take(i as int));
        i = i + 1;
    }
    assert(texts.take(items.len() as int) =~= texts);
    r
}

/// Joins the texts of account IDs with a separator between each two.
pub fn join_account_ids(ids: &Vec<AccountId>, sep: &str) -> (r: String)
    ensures
        r@ == joined(account_id_texts(ids@), sep@),
{
    let ghost texts = account_id_texts(ids@);
    let mut r = String::new();
    let mut i: usize = 0;
    while i < ids.len()
        invariant
            i <= ids.len(),
            texts == account_id_texts(ids@),
            r@ == joined(texts.take(i as int), sep@),
        decreases ids.len() - i,
    {
        if i > 0 {
            r.append(sep);
        }
        r.append(ids[i].as_str());
        assert(texts.take(i + 1).drop_last() =~= texts.take(i as int));
        i = i + 1;
    }
    assert(texts.take(ids.len() as int) =~= texts);
    r
}

} // verus!
