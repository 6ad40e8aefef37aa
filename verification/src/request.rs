//! Typed queries and the variant tag that discriminates them.

use vstd::prelude::*;

use crate::identifier::AccountIdentifier;

verus! {

/// The discriminator naming which query (and response) shape a message
/// encodes. Exactly one response variant corresponds to each request variant.
#[derive(Clone, Copy, Debug, PartialEq, Eq, Structural)]
pub enum VariantTag {
    /// An account balance.
    Balance,
    /// A validator's public key record.
    ValidatorKey,
}

/// A query to issue against the ledger. An immutable value object built from
/// the caller's input; the dispatcher never mutates it.
#[derive(Clone, Debug, PartialEq, Eq)]
pub enum QueryRequest {
    /// Look up the balance of an account.
    BalanceRequest(AccountIdentifier),
    /// Retrieve the public key record of a validator.
    ValidatorKeyRequest(AccountIdentifier),
}

impl QueryRequest {
    /// The response variant this request calls for.
    pub open spec fn spec_tag(self) -> VariantTag {
        match self {
            QueryRequest::BalanceRequest(_) => VariantTag::Balance,
            QueryRequest::ValidatorKeyRequest(_) => VariantTag::ValidatorKey,
        }
    }

    /// The identifier the request names, whichever variant it is.
    pub open spec fn spec_identifier(self) -> AccountIdentifier {
        match self {
            QueryRequest::BalanceRequest(id) => id,
            QueryRequest::ValidatorKeyRequest(id) => id,
        }
    }

    /// A request is well-formed when its identifier is.
    pub open spec fn wf(self) -> bool {
        self.spec_identifier().wf()
    }

    /// Returns the response variant this request calls for.
    pub fn tag(&self) -> (t: VariantTag)
        ensures
            t == self.spec_tag(),
    {
        match self {
            QueryRequest::BalanceRequest(_) => VariantTag::Balance,
            QueryRequest::ValidatorKeyRequest(_) => VariantTag::ValidatorKey,
        }
    }

    /// Returns the identifier the request names.
    pub fn identifier(&self) -> (id: &AccountIdentifier)
        ensures
            *id == self.spec_identifier(),
    {
        match self {
            QueryRequest::BalanceRequest(id) => id,
            QueryRequest::ValidatorKeyRequest(id) => id,
        }
    }

    /// Whether this request passes the boundary validation: its identifier is
    /// non-empty.
    pub fn is_wf(&self) -> (r: bool)
        ensures
            r == self.wf(),
    {
        self.identifier().is_wf()
    }
}

} // verus!
