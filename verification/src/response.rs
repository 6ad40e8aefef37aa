//! Decoded ledger answers and their mathematical view.

use vstd::prelude::*;

use crate::request::VariantTag;

verus! {

/// The kind of public key a validator record carries.
#[derive(Clone, Copy, Debug, PartialEq, Eq, Structural)]
pub enum KeyType {
    /// An Ed25519 public key.
    Ed25519,
    /// A secp256k1 public key.
    Secp256k1,
}

/// A decoded answer from the ledger. Values of this type are produced
/// exclusively by the decoder from raw transport bytes; the dispatcher hands
/// them through unchanged.
#[derive(Clone, Debug, PartialEq, Eq)]
pub enum QueryResponse {
    /// An account balance in a single denomination.
    Balance {
        /// The denomination's name, as raw bytes of the wire payload.
        denom: Vec<u8>,
        /// The amount held, in base units of the denomination.
        amount: u64,
    },
    /// A validator's public key record.
    ValidatorKey {
        /// The raw public key.
        public_key_bytes: Vec<u8>,
        /// Which kind of key the bytes encode.
        key_type: KeyType,
    },
}

/// The mathematical value of a [`QueryResponse`]: the same variants over
/// `Seq<u8>` instead of `Vec<u8>`. Contracts and the wire-format specification
/// speak of this type.
pub enum ResponseView {
    /// An account balance in a single denomination.
    Balance {
        /// The denomination's name.
        denom: Seq<u8>,
        /// The amount held.
        amount: u64,
    },
    /// A validator's public key record.
    ValidatorKey {
        /// The raw public key.
        public_key_bytes: Seq<u8>,
        /// Which kind of key the bytes encode.
        key_type: KeyType,
    },
}

impl ResponseView {
    /// The variant tag of this response value.
    pub open spec fn tag(self) -> VariantTag {
        match self {
            ResponseView::Balance { .. } => VariantTag::Balance,
            ResponseView::ValidatorKey { .. } => VariantTag::ValidatorKey,
        }
    }
}

impl View for QueryResponse {
    type V = ResponseView;

    open spec fn view(&self) -> ResponseView {
        match self {
            QueryResponse::Balance { denom, amount } => ResponseView::Balance {
                denom: denom@,
                amount: *amount,
            },
            QueryResponse::ValidatorKey { public_key_bytes, key_type } => (
                ResponseView::ValidatorKey {
                    public_key_bytes: public_key_bytes@,
                    key_type: *key_type,
                }
            ),
        }
    }
}

impl QueryResponse {
    /// Returns the variant tag of this response.
    pub fn tag(&self) -> (t: VariantTag)
        ensures
            t == self@.tag(),
    {
        match self {
            QueryResponse::Balance { .. } => VariantTag::Balance,
            QueryResponse::ValidatorKey { .. } => VariantTag::ValidatorKey,
        }
    }
}

} // verus!
