//! Naming and validation: the ledger's account-identifier syntax, and the
//! derivation of a factory sub-account identifier from a short name.

use vstd::prelude::*;
use vstd::string::StringExecFns;

use crate::errors::FactoryError;

verus! {

/// A separator character of the account-identifier syntax.
pub open spec fn is_separator_char(c: char) -> bool {
    c == '-' || c == '_' || c == '.'
}

/// A character the account-identifier syntax accepts anywhere.
pub open spec fn is_account_id_char(c: char) -> bool {
    ||| 'a' as u32 <= c as u32 && c as u32 <= 'z' as u32
    ||| '0' as u32 <= c as u32 && c as u32 <= '9' as u32
    ||| is_separator_char(c)
}

/// The ledger's account-identifier syntax: 2 to 64 characters drawn from
/// a-z, 0-9, '-', '_' and '.', where no separator stands first or last and
/// no two separators stand side by side.
pub open spec fn valid_account_id(s: Seq<char>) -> bool {
    &&& 2 <= s.len() <= 64
    &&& forall|i: int| 0 <= i < s.len() ==> is_account_id_char(#[trigger] s[i])
    &&& !is_separator_char(s[0])
    &&& !is_separator_char(s[s.len() - 1])
    &&& forall|i: int| 0 < i < s.len()
        ==> !(is_separator_char(s[i - 1]) && is_separator_char(#[trigger] s[i]))
}

/// The deterministic child identifier: the short name, a dot, then the
/// factory's own identifier.
pub open spec fn child_id_seq(name: Seq<char>, factory: Seq<char>) -> Seq<char> {
    name + seq!['.'] + factory
}

/// Relies on `near_sdk::AccountId::validate` (crate `near-account-id`): it
/// returns `Ok` exactly on the strings of 2 to 64 characters drawn from a-z,
/// 0-9, '-', '_' and '.' in which no separator stands first, last, or beside
/// another separator. Its length bounds are byte counts, but every string of
/// that alphabet is ASCII, so on all strings the byte-count rule and the
/// character-count rule accept and reject together.
#[verifier::external_body]
fn ledger_account_id_is_valid(s: &str) -> (b: bool)
    ensures
        b == valid_account_id(s@),
{
    near_sdk::AccountId::validate(s).is_ok()
}

/// An identifier of a ledger account, held as its text.
#[derive(Debug)]
pub struct AccountId {
    pub id: String,
}

impl View for AccountId {
    type V = Seq<char>;

    open spec fn view(&self) -> Seq<char> {
        self.id@
    }
}

impl Clone for AccountId {
    fn clone(&self) -> (r: Self)
        ensures
            r == *self,
    {
        AccountId { id: self.id.clone() }
    }
}

impl AccountId {
    /// The identifier satisfies the ledger's syntax.
    pub open spec fn wf(&self) -> bool {
        valid_account_id(self@)
    }

    /// Accepts the text as an account identifier exactly when it satisfies
    /// the ledger's syntax.
    pub fn new(id: String) -> (r: Result<AccountId, FactoryError>)
        ensures
            r is Ok <==> valid_account_id(id@),
            r is Ok ==> r->Ok_0@ == id@ && r->Ok_0.wf(),
            r is Err ==> r->Err_0 == FactoryError::InvalidIdentifier,
    {
        if ledger_account_id_is_valid(id.as_str()) {
            Ok(AccountId { id })
        } else {
            Err(FactoryError::InvalidIdentifier)
        }
    }

    pub fn as_str(&self) -> (s: &str)
        ensures
            s@ == self@,
    {
        self.id.as_str()
    }

    /// The two identifiers hold the same text.
    pub fn same_id(&self, other: &AccountId) -> (b: bool)
        ensures
            b == (self@ == other@),
    {
        self.id == other.id
    }
}

/// Derives the child identifier `{name}.{factory}` and accepts it exactly
/// when the derived string satisfies the ledger's syntax. This is a pure
/// check: it moves no value and issues no action.
pub fn make_child_account_id(name: &str, factory: &AccountId) -> (r: Result<
    AccountId,
    FactoryError,
>)
    ensures
        r is Ok <==> valid_account_id(child_id_seq(name@, factory@)),
        r is Ok ==> r->Ok_0@ == child_id_seq(name@, factory@),
        r is Err ==> r->Err_0 == FactoryError::InvalidIdentifier,
{
    let mut child: String = name.to_owned();
    proof {
        reveal_strlit(".");
        assert("."@ =~= seq!['.']);
    }
    child.append(".");
    child.append(factory.as_str());
    proof {
        assert(child@ =~= child_id_seq(name@, factory@));
    }
    AccountId::new(child)
}

} // verus!
