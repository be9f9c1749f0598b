//! Connections to dapps: what a proposal would grant, what a request asks to
//! sign, and which sessions are open.

use vstd::prelude::*;

use crate::primitives::B256;
use crate::text::model_of;
use crate::text::models;
use crate::text::replicate;
use crate::text::Replica;
use crate::wc_panes::scopes::Scopes;

pub mod body;
pub mod grant;
pub mod laws;
pub mod payload;
pub mod scopes;
pub mod sessions;

verus! {

/// What the panes can be asked to do.
#[derive(Debug, Clone, Copy, PartialEq, Eq, Structural)]
pub enum Message {
    WcApproveProposal(u64),
    WcRejectProposal(u64),
    WcApproveRequest(u64),
    WcRejectRequest(u64),
    /// Folds or unfolds the raw scopes of a proposal.
    WcToggleProposalDetails,
    WcDisconnectSession(B256),
    WcDismissError,
    WcSubmitUri,
}

/// Who is asking.
#[derive(Debug, Clone, PartialEq, Eq)]
pub struct PeerMetadata {
    pub name: String,
    pub url: String,
}

/// A scope: the networks and methods under one key.
#[derive(Debug, Clone, PartialEq, Eq)]
pub struct Namespace {
    pub key: String,
    pub chains: Vec<String>,
    pub methods: Vec<String>,
}

#[verifier::ext_equal]
pub struct NamespaceModel {
    pub key: Seq<char>,
    pub chains: Seq<Seq<char>>,
    pub methods: Seq<Seq<char>>,
}

impl View for Namespace {
    type V = NamespaceModel;

    open spec fn view(&self) -> NamespaceModel {
        NamespaceModel {
            key: self.key@,
            chains: models(self.chains@),
            methods: models(self.methods@),
        }
    }
}

impl Replica for Namespace {
    fn replica(&self) -> (r: Self) {
        Namespace {
            key: self.key.clone(),
            chains: replicate(&self.chains),
            methods: replicate(&self.methods),
        }
    }
}

/// A method the wallet supports, and the verb it is shown as.
#[derive(Debug, Clone, PartialEq, Eq)]
pub struct Method {
    pub id: String,
    pub label: Option<String>,
}

#[verifier::ext_equal]
pub struct MethodModel {
    pub id: Seq<char>,
    pub label: Option<Seq<char>>,
}

impl View for Method {
    type V = MethodModel;

    open spec fn view(&self) -> MethodModel {
        MethodModel { id: self.id@, label: model_of(self.label) }
    }
}

/// A proposal to connect.
#[derive(Debug, Clone, PartialEq, Eq)]
pub struct UiProposal {
    pub proposal_id: u64,
    pub peer: PeerMetadata,
    pub required: Scopes,
    pub optional: Scopes,
}

/// A request of a connected dapp.
#[derive(Debug, Clone, PartialEq, Eq)]
pub struct UiRequest {
    pub request_id: u64,
    pub peer: PeerMetadata,
    pub method: String,
    pub chain_id: String,
    /// The parameters, as JSON.
    pub params: String,
}

/// An open session.
#[derive(Debug, Clone, PartialEq, Eq)]
pub struct UiSession {
    pub topic: B256,
    pub peer: PeerMetadata,
    pub namespaces: Scopes,
    /// When it ends, in Unix seconds.
    pub expiry: u64,
}

/// What is on the screen.
#[derive(Debug, Clone, PartialEq, Eq)]
pub enum WcModal {
    Proposal(UiProposal),
    Request(UiRequest),
}

/// The state of the relay.
#[derive(Debug, Clone, PartialEq, Eq)]
pub enum WcStatus {
    Idle,
    Connecting,
    Connected,
    Failed(String),
}

/// The state of all connections.
#[derive(Debug, Clone, PartialEq, Eq)]
pub struct WcState {
    pub current_modal: Option<WcModal>,
    /// How many proposals and requests wait, the current one counted.
    pub queue_len: usize,
    pub sessions: Vec<UiSession>,
    pub status: WcStatus,
    pub last_error: Option<String>,
}

} // verus!
