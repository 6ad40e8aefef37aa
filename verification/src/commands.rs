//! The command surface: the values the command-line shell hands in.
//!
//! The shell only collects free arguments; turning them into a validated
//! [`QueryRequest`] happens here. A command with anything other than exactly
//! one non-empty free argument is rejected with
//! [`QueryError::InvalidIdentifier`] — never a panic.

use vstd::prelude::*;

use crate::errors::QueryError;
use crate::identifier::AccountIdentifier;
use crate::request::QueryRequest;

verus! {

/// The `cosmos` command group: which ledger query was invoked.
#[derive(Clone, Debug)]
pub enum Cosmos {
    /// Look up an account balance.
    Balance(Balance),
    /// Retrieve a validator's key record.
    GravityKeys(GravityKeys),
}

/// The balance subcommand: its free arguments and the help flag.
#[derive(Clone, Debug)]
pub struct Balance {
    /// The free arguments; exactly one is accepted, the account identifier.
    pub free: Vec<String>,
    /// Whether help was requested; the shell handles help text itself.
    pub help: bool,
}

/// The validator-key subcommand: its free arguments and the help flag.
#[derive(Clone, Debug)]
pub struct GravityKeys {
    /// The free arguments; exactly one is accepted, the key identifier.
    pub free: Vec<String>,
    /// Whether help was requested; the shell handles help text itself.
    pub help: bool,
}

/// Whether a free-argument list carries exactly one non-empty identifier.
pub open spec fn spec_args_valid(free: Seq<String>) -> bool {
    free.len() == 1 && free[0]@.len() > 0
}

/// Validates a free-argument list into its one identifier.
fn identifier_of_args(free: &Vec<String>) -> (r: Result<AccountIdentifier, QueryError>)
    ensures
        match r {
            Ok(id) => spec_args_valid(free@) && id.wf() && id.text@ == free@[0]@,
            Err(e) => e == QueryError::InvalidIdentifier && !spec_args_valid(free@),
        },
{
    if free.len() != 1 {
        return Err(QueryError::InvalidIdentifier);
    }
    AccountIdentifier::new(free[0].clone())
}

impl Balance {
    /// Builds the balance query this invocation asks for, or rejects the
    /// arguments.
    pub fn request(&self) -> (r: Result<QueryRequest, QueryError>)
        ensures
            match r {
                Ok(q) => {
                    &&& spec_args_valid(self.free@)
                    &&& q matches QueryRequest::BalanceRequest(id)
                    &&& q.wf()
                    &&& q.spec_identifier().text@ == self.free@[0]@
                },
                Err(e) => e == QueryError::InvalidIdentifier && !spec_args_valid(self.free@),
            },
    {
        match identifier_of_args(&self.free) {
            Ok(id) => Ok(QueryRequest::BalanceRequest(id)),
            Err(e) => Err(e),
        }
    }
}

impl GravityKeys {
    /// Builds the validator-key query this invocation asks for, or rejects
    /// the arguments.
    pub fn request(&self) -> (r: Result<QueryRequest, QueryError>)
        ensures
            match r {
                Ok(q) => {
                    &&& spec_args_valid(self.free@)
                    &&& q matches QueryRequest::ValidatorKeyRequest(id)
                    &&& q.wf()
                    &&& q.spec_identifier().text@ == self.free@[0]@
                },
                Err(e) => e == QueryError::InvalidIdentifier && !spec_args_valid(self.free@),
            },
    {
        match identifier_of_args(&self.free) {
            Ok(id) => Ok(QueryRequest::ValidatorKeyRequest(id)),
            Err(e) => Err(e),
        }
    }
}

impl Cosmos {
    /// The free arguments of whichever subcommand was invoked.
    pub open spec fn spec_free(self) -> Seq<String> {
        match self {
            Cosmos::Balance(c) => c.free@,
            Cosmos::GravityKeys(c) => c.free@,
        }
    }

    /// Builds the query this invocation asks for: a balance query for the
    /// balance subcommand, a validator-key query for the key subcommand, or
    /// the rejection of the arguments.
    pub fn request(&self) -> (r: Result<QueryRequest, QueryError>)
        ensures
            match r {
                Ok(q) => {
                    &&& spec_args_valid(self.spec_free())
                    &&& q.wf()
                    &&& q.spec_identifier().text@ == self.spec_free()[0]@
                    &&& (self matches Cosmos::Balance(_) <==> q matches
                        QueryRequest::BalanceRequest(_))
                },
                Err(e) => e == QueryError::InvalidIdentifier && !spec_args_valid(self.spec_free()),
            },
    {
        match self {
            Cosmos::Balance(c) => c.request(),
            Cosmos::GravityKeys(c) => c.request(),
        }
    }
}

} // verus!
