//! Account names: the identity of the creator and of every caller.
use vstd::prelude::*;

verus! {

/// Shortest account name that the host runtime accepts.
pub const MIN_ACCOUNT_ID_LEN: usize = 2;

/// Longest account name that the host runtime accepts.
pub const MAX_ACCOUNT_ID_LEN: usize = 64;

/// A character that may stand between separators in an account name.
pub open spec fn is_id_alnum(c: char) -> bool {
    ('a' <= c && c <= 'z') || ('0' <= c && c <= '9')
}

/// A character that separates the parts of an account name.
pub open spec fn is_id_separator(c: char) -> bool {
    c == '-' || c == '_' || c == '.'
}

/// A well-formed account name: 2 to 64 characters, each a lower-case letter, a
/// digit or a separator, neither starting nor ending with a separator, and
/// never holding two separators side by side.
pub open spec fn is_valid_account_id(s: Seq<char>) -> bool {
    &&& MIN_ACCOUNT_ID_LEN <= s.len() <= MAX_ACCOUNT_ID_LEN
    &&& forall|i: int| 0 <= i < s.len() ==> is_id_alnum(#[trigger] s[i]) || is_id_separator(s[i])
    &&& !is_id_separator(s[0])
    &&& !is_id_separator(s[s.len() - 1])
    &&& forall|i: int|
        0 <= i < s.len() - 1 ==> !(is_id_separator(#[trigger] s[i]) && is_id_separator(s[i + 1]))
}

/// Relies on near_sdk::AccountId::validate (from near-account-id): it accepts a
/// name exactly when it has 2 to 64 bytes, all of them in `a-z`, `0-9`, `-`,
/// `_`, `.`, with no separator first, last, or next to another separator.
#[verifier::external_body]
fn validate_account_id(s: &str) -> (r: bool)
    ensures
        r == is_valid_account_id(s@),
{
    near_sdk::AccountId::validate(s).is_ok()
}

/// An account identifier, always a well-formed account name.
pub struct Account {
    id: String,
}

impl View for Account {
    type V = Seq<char>;

    closed spec fn view(&self) -> Seq<char> {
        self.id@
    }
}

impl Account {
    #[verifier::type_invariant]
    spec fn inv(&self) -> bool {
        is_valid_account_id(self.id@)
    }

    /// Reads an account name; `None` when the name is not well formed.
    pub fn parse(s: &str) -> (r: Option<Account>)
        ensures
            r.is_some() == is_valid_account_id(s@),
            r matches Some(a) ==> a@ == s@,
    {
        if validate_account_id(s) {
            Some(Account { id: s.to_string() })
        } else {
            None
        }
    }

    /// The account name as text.
    pub fn as_str(&self) -> (r: &str)
        ensures
            r@ == self@,
    {
        self.id.as_str()
    }
}

impl Clone for Account {
    fn clone(&self) -> (r: Account)
        ensures
            r@ == self@,
    {
        proof {
            use_type_invariant(self);
        }
        Account { id: self.id.clone() }
    }
}

impl PartialEq for Account {
    fn eq(&self, other: &Account) -> (r: bool) {
        self.id == other.id
    }
}

impl vstd::std_specs::cmp::PartialEqSpecImpl for Account {
    open spec fn obeys_eq_spec() -> bool {
        true
    }

    open spec fn eq_spec(&self, other: &Account) -> bool {
        self@ == other@
    }
}

} // verus!
