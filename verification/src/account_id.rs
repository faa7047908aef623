//! NEAR account identifiers: their validity rules and their kinds.
use vstd::prelude::*;

verus! {

/// The error that the NEAR account ID parser reports for an invalid ID.
#[verifier::external_type_specification]
#[verifier::external_body]
pub struct ExParseAccountError(near_primitives::account::id::ParseAccountError);

/// `-`, `_` and `.` separate the parts of an account ID.
pub open spec fn is_separator(c: char) -> bool {
    c == '-' || c == '_' || c == '.'
}

/// The characters an account ID may hold: lower-case letters, digits and separators.
pub open spec fn is_account_id_char(c: char) -> bool {
    ('a' <= c && c <= 'z') || ('0' <= c && c <= '9') || is_separator(c)
}

/// An account ID is valid when it has 2 to 64 characters, all of them
/// lower-case letters, digits or separators, does not start or end with a
/// separator and never holds two separators in a row.
pub open spec fn is_valid_account_id(s: Seq<char>) -> bool {
    &&& 2 <= s.len() <= 64
    &&& forall|i: int| 0 <= i < s.len() ==> is_account_id_char(#[trigger] s[i])
    &&& !is_separator(s[0])
    &&& !is_separator(s[s.len() - 1])
    &&& forall|i: int|
        0 <= i < s.len() - 1 ==> !(is_separator(#[trigger] s[i]) && is_separator(s[i + 1]))
}

/// A lower-case hexadecimal digit.
pub open spec fn is_lower_hex(c: char) -> bool {
    ('0' <= c && c <= '9') || ('a' <= c && c <= 'f')
}

/// A character of the lower-case Crockford base-32 alphabet (no `i`, `l`, `o`, `u`).
pub open spec fn is_crockford(c: char) -> bool {
    ('0' <= c && c <= '9') || ('a' <= c && c <= 'z' && c != 'i' && c != 'l' && c != 'o'
        && c != 'u')
}

/// All characters of `s` from index `from` on are lower-case hexadecimal digits.
pub open spec fn hex_from(s: Seq<char>, from: int) -> bool {
    forall|i: int| from <= i < s.len() ==> is_lower_hex(#[trigger] s[i])
}

/// 64 lower-case hexadecimal digits: the hex form of an ED25519 public key.
pub open spec fn is_near_implicit(s: Seq<char>) -> bool {
    s.len() == 64 && hex_from(s, 0)
}

/// `0x` followed by 40 lower-case hexadecimal digits.
pub open spec fn is_eth_implicit(s: Seq<char>) -> bool {
    s.len() == 42 && s[0] == '0' && s[1] == 'x' && hex_from(s, 2)
}

/// `0s` followed by 40 lower-case hexadecimal digits.
pub open spec fn is_near_deterministic(s: Seq<char>) -> bool {
    s.len() == 42 && s[0] == '0' && s[1] == 's' && hex_from(s, 2)
}

/// `0u` followed by 52 Crockford base-32 characters whose last one is `0` or `g`.
pub open spec fn is_universal(s: Seq<char>) -> bool {
    &&& s.len() == 54
    &&& s[0] == '0'
    &&& s[1] == 'u'
    &&& forall|i: int| 2 <= i < s.len() ==> is_crockford(#[trigger] s[i])
    &&& (s[53] == '0' || s[53] == 'g')
}

/// The kind of an account, as the NEAR protocol tells it from the ID alone.
#[derive(Clone, Copy, Debug, PartialEq, Eq, Structural)]
pub enum AccountType {
    NamedAccount,
    NearImplicitAccount,
    EthImplicitAccount,
    NearDeterministicAccount,
    UniversalAccount,
}

/// The kind of the account with ID `s`.
pub open spec fn account_type_of(s: Seq<char>) -> AccountType {
    if is_eth_implicit(s) {
        AccountType::EthImplicitAccount
    } else if is_near_implicit(s) {
        AccountType::NearImplicitAccount
    } else if is_near_deterministic(s) {
        AccountType::NearDeterministicAccount
    } else if is_universal(s) {
        AccountType::UniversalAccount
    } else {
        AccountType::NamedAccount
    }
}

/// The value of a lower-case hexadecimal digit.
pub open spec fn hex_digit_value(c: char) -> int {
    if '0' <= c && c <= '9' {
        c as int - '0' as int
    } else {
        c as int - 'a' as int + 10
    }
}

/// The bytes that a string of hexadecimal digit pairs stands for.
pub open spec fn hex_decoded(s: Seq<char>) -> Seq<u8> {
    Seq::new(
        s.len() / 2,
        |i: int| (hex_digit_value(s[2 * i]) * 16 + hex_digit_value(s[2 * i + 1])) as u8,
    )
}

/// The lower-case hexadecimal digit for a value below 16.
pub open spec fn hex_digit(v: int) -> char {
    if v < 10 {
        ('0' as int + v) as char
    } else {
        ('a' as int + v - 10) as char
    }
}

/// The lower-case hexadecimal form of a byte string, two digits per byte.
pub open spec fn hex_encoded(b: Seq<u8>) -> Seq<char> {
    Seq::new(
        2 * b.len(),
        |i: int|
            if i % 2 == 0 {
                hex_digit(b[i / 2] as int / 16)
            } else {
                hex_digit(b[i / 2] as int % 16)
            },
    )
}

/// `AccountId::validate` of `near_account_id` (re-exported by `near_primitives`):
/// claimed to succeed exactly on the IDs that follow the rules of
/// [`is_valid_account_id`].  Which kind of error it reports is left unsaid.
#[verifier::external_body]
fn validate_account_id(s: &str) -> (r: Result<(), near_primitives::account::id::ParseAccountError>)
    ensures
        r is Ok <==> is_valid_account_id(s@),
{
    near_primitives::types::AccountId::validate(s)
}

/// `AccountIdRef::get_account_type` of `near_account_id`, on an ID that
/// `AccountIdRef::new` accepts (a valid one): claimed to give the kind that
/// [`account_type_of`] tells from the ID's characters.
#[verifier::external_body]
fn near_account_type(s: &str) -> (r: AccountType)
    requires
        is_valid_account_id(s@),
    ensures
        r == account_type_of(s@),
{
    match near_primitives::account::id::AccountIdRef::new(s).unwrap().get_account_type() {
        near_primitives::account::id::AccountType::NamedAccount => AccountType::NamedAccount,
        near_primitives::account::id::AccountType::NearImplicitAccount => AccountType::NearImplicitAccount,
        near_primitives::account::id::AccountType::EthImplicitAccount => AccountType::EthImplicitAccount,
        near_primitives::account::id::AccountType::NearDeterministicAccount => AccountType::NearDeterministicAccount,
        near_primitives::account::id::AccountType::UniversalAccount => AccountType::UniversalAccount,
    }
}

/// A valid NEAR account ID.
#[derive(Debug, PartialEq, Eq)]
pub struct AccountId {
    id: String,
}

impl View for AccountId {
    type V = Seq<char>;

    closed spec fn view(&self) -> Seq<char> {
        self.id@
    }
}

impl AccountId {
    #[verifier::type_invariant]
    spec fn is_valid(&self) -> bool {
        is_valid_account_id(self.id@)
    }

    /// Parses an account ID; fails exactly when the text breaks the validity rules.
    pub fn parse(s: &str) -> (r: Result<AccountId, near_primitives::account::id::ParseAccountError>)
        ensures
            r is Ok <==> is_valid_account_id(s@),
            r matches Ok(id) ==> id@ == s@,
    {
        match validate_account_id(s) {
            Ok(()) => Ok(AccountId { id: s.to_string() }),
            Err(e) => Err(e),
        }
    }

    /// The account ID as text.
    pub fn as_str(&self) -> (r: &str)
        ensures
            r@ == self@,
            is_valid_account_id(self@),
    {
        proof {
            use_type_invariant(self);
        }
        self.id.as_str()
    }

    /// A copy of this account ID.
    pub fn duplicate(&self) -> (r: AccountId)
        ensures
            r == *self,
    {
        proof {
            use_type_invariant(self);
        }
        AccountId { id: self.id.clone() }
    }

    /// The kind of this account.
    pub fn get_account_type(&self) -> (r: AccountType)
        ensures
            r == account_type_of(self@),
    {
        near_account_type(self.as_str())
    }
}

/// The hexadecimal digits of a NEAR-implicit account ID are those of the bytes
/// they decode to: the ID is the hex form of the public key it stands for.
pub proof fn lemma_near_implicit_id_is_hex_of_key(s: Seq<char>)
    requires
        is_near_implicit(s),
    ensures
        hex_decoded(s).len() == 32,
        hex_encoded(hex_decoded(s)) == s,
{
    let b = hex_decoded(s);
    assert forall|i: int| 0 <= i < 64 implies #[trigger] hex_encoded(b)[i] == s[i] by {
        let k = i / 2;
        let hi = hex_digit_value(s[2 * k]);
        let lo = hex_digit_value(s[2 * k + 1]);
        assert(is_lower_hex(s[2 * k]));
        assert(is_lower_hex(s[2 * k + 1]));
        assert(0 <= hi < 16 && 0 <= lo < 16);
        assert(b[k] as int == hi * 16 + lo);
        assert((hi * 16 + lo) / 16 == hi) by (nonlinear_arith)
            requires
                0 <= hi < 16,
                0 <= lo < 16,
        ;
        assert((hi * 16 + lo) % 16 == lo) by (nonlinear_arith)
            requires
                0 <= hi < 16,
                0 <= lo < 16,
        ;
    }
    assert(hex_encoded(b) =~= s);
}

} // verus!
