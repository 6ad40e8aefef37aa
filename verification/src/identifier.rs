//! Validated account and key identifiers.

use vstd::prelude::*;

use crate::errors::QueryError;

verus! {

/// An opaque, validated name of an account or key on the ledger.
///
/// Immutable once constructed. [`AccountIdentifier::new`] is the validating
/// constructor; a value built another way may be ill-formed, and the
/// dispatcher re-checks [`AccountIdentifier::wf`] at its boundary rather than
/// trusting the caller.
#[derive(Clone, Debug, PartialEq, Eq)]
pub struct AccountIdentifier {
    /// The identifier text as the caller supplied it.
    pub text: String,
}

impl AccountIdentifier {
    /// A usable identifier is non-empty.
    pub open spec fn wf(self) -> bool {
        self.text@.len() > 0
    }

    /// Validates `text` and wraps it. An empty identifier fails with
    /// [`QueryError::InvalidIdentifier`]; any other text is accepted unchanged.
    pub fn new(text: String) -> (r: Result<AccountIdentifier, QueryError>)
        ensures
            text@.len() == 0 <==> r == Err::<AccountIdentifier, QueryError>(
                QueryError::InvalidIdentifier,
            ),
            text@.len() > 0 ==> (r matches Ok(id) && id.text@ == text@ && id.wf()),
    {
        if text.as_str().is_empty() {
            Err(QueryError::InvalidIdentifier)
        } else {
            Ok(AccountIdentifier { text })
        }
    }

    /// Whether this identifier passes the same validation as the constructor.
    pub fn is_wf(&self) -> (r: bool)
        ensures
            r == self.wf(),
    {
        !self.text.as_str().is_empty()
    }
}

} // verus!
