//! A batch prepared for review and signing.

use vstd::prelude::*;

use crate::chain::Chain;
use crate::chain::NetworkId;
use crate::primitives::Address;
use crate::primitives::B256;
use crate::primitives::U256;
use crate::text::dec;
use crate::text::decimal_usize;
use crate::text::models;
use crate::txbuilder::CallModel;
use crate::txbuilder::QueuedCall;

verus! {

/// How far the wallet trusts what it knows of a Safe.
#[derive(Debug, Clone, Copy, PartialEq, Eq, Structural)]
pub enum SafeTrust {
    Verified,
    Unverified,
}

/// The call a Safe executes.
#[derive(Debug, Clone)]
pub struct SafeTxInput {
    pub to: Address,
    pub value: U256,
    pub data: Vec<u8>,
    /// Zero for a call, one for a delegatecall.
    pub operation: u8,
}

/// A batch as it will be signed: wrapped into one Safe transaction, or sent by
/// a plain account.
#[derive(Debug, Clone)]
pub enum BatchSignRequest {
    Safe(SafeBatchRequest),
    Eoa(EoaBatchRequest),
}

/// A batch run by a Safe.
#[derive(Debug, Clone)]
pub struct SafeBatchRequest {
    pub safe: Address,
    pub chain: Chain,
    pub version: String,
    pub trust: SafeTrust,
    pub threshold: u32,
    pub owner_count: usize,
    /// Which of the wallet's accounts are owners that can sign.
    pub signable_indices: Vec<u32>,
    pub input: SafeTxInput,
    pub call_count: usize,
    /// The nonce and hash that were reviewed.
    pub prepared: Option<(u64, B256)>,
    /// Nonces already claimed on the Safe's queue. None: not known, which is
    /// not the same as an empty queue.
    pub queued_nonces: Option<Vec<u64>>,
    pub service_base: String,
}

/// A batch run by a plain account: a single call is an ordinary transaction,
/// several run as one.
#[derive(Debug, Clone)]
pub struct EoaBatchRequest {
    pub net: NetworkId,
    pub from: Address,
    pub calls: Vec<QueuedCall>,
    /// The delegation that was reviewed.
    pub prepared: Option<PreparedDelegation>,
}

/// A delegation decision as it was reviewed. It is made once, shown, and
/// checked again before signing.
#[derive(Debug, Clone, Copy, PartialEq, Eq, Structural)]
pub struct PreparedDelegation {
    /// The delegate the authorization points at.
    pub delegate: Address,
    /// The account already ran that delegate's code.
    pub already_active: bool,
    /// The nonce the authorization commits to; none when nothing is signed.
    pub auth_nonce: Option<u64>,
}

/// The title of a batch of calls: the call's own when there is exactly one.
pub open spec fn batch_title(calls: Seq<CallModel>) -> Seq<char> {
    if calls.len() == 1 {
        calls[0].title
    } else {
        "Batch · "@ + dec(calls.len()) + " calls"@
    }
}

impl EoaBatchRequest {
    /// Whether several calls run as one.
    pub fn is_batch(&self) -> (r: bool)
        ensures
            r == (self.calls@.len() > 1),
    {
        self.calls.len() > 1
    }

    /// A short title for the review.
    pub fn title(&self) -> (r: String)
        ensures
            r@ == batch_title(models(self.calls@)),
    {
        if self.calls.len() == 1 {
            return self.calls[0].title.clone();
        }
        let mut s: String = "Batch · ".to_owned();
        s.append(decimal_usize(self.calls.len()).as_str());
        s.append(" calls");
        s
    }
}

} // verus!
