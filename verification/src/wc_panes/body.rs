//! The modal of a proposal or of a request.

use vstd::prelude::*;

use crate::text::dec;
use crate::text::decimal_usize;
use crate::text::join;
use crate::text::joined;
use crate::text::lemma_next;
use crate::text::model_of;
use crate::text::models;
use crate::text::none_of;
use crate::text::same_text;
use crate::wc_panes::grant::compute_grant_preview;
use crate::wc_panes::grant::grant;
use crate::wc_panes::grant::GrantModel;
use crate::wc_panes::grant::GrantPreview;
use crate::wc_panes::payload::json_indented;
use crate::wc_panes::payload::json_items;
use crate::wc_panes::payload::payload;
use crate::wc_panes::payload::payload_body;
use crate::wc_panes::payload::Payload;
use crate::wc_panes::payload::PayloadModel;
use crate::wc_panes::Message;
use crate::wc_panes::Method;
use crate::wc_panes::MethodModel;
use crate::wc_panes::Namespace;
use crate::wc_panes::NamespaceModel;
use crate::wc_panes::PeerMetadata;
use crate::wc_panes::UiProposal;
use crate::wc_panes::UiRequest;
use crate::wc_panes::WcModal;
use crate::wc_panes::WcState;
use crate::wc_panes::scopes::Scopes;

verus! {

// ── who is asking ───────────────────────────────────────────────────

/// Who is asking.
#[derive(Debug, Clone, PartialEq, Eq)]
pub struct PeerCard {
    pub name: String,
    pub url: String,
}

#[verifier::ext_equal]
pub struct PeerModel {
    pub name: Seq<char>,
    pub url: Seq<char>,
}

impl View for PeerCard {
    type V = PeerModel;

    open spec fn view(&self) -> PeerModel {
        PeerModel { name: self.name@, url: self.url@ }
    }
}

/// A text, or what stands in for an empty one.
pub open spec fn or_else(s: Seq<char>, fallback: Seq<char>) -> Seq<char> {
    if s.len() == 0 {
        fallback
    } else {
        s
    }
}

/// Who is asking; an empty name or origin is said to be missing.
pub open spec fn peer_model(peer: PeerMetadata) -> PeerModel {
    PeerModel {
        name: or_else(peer.name@, "Unknown dApp"@),
        url: or_else(peer.url@, "no origin"@),
    }
}

/// A text, or what stands in for an empty one.
fn text_or(s: &str, fallback: &str) -> (r: String)
    ensures
        r@ == or_else(s@, fallback@),
{
    if s.is_empty() {
        fallback.to_owned()
    } else {
        s.to_owned()
    }
}

/// Who is asking.
pub fn peer_card(peer: &PeerMetadata) -> (r: PeerCard)
    ensures
        r@ == peer_model(*peer),
{
    PeerCard {
        name: text_or(peer.name.as_str(), "Unknown dApp"),
        url: text_or(peer.url.as_str(), "no origin"),
    }
}

// ── scopes ──────────────────────────────────────────────────────────

/// A scope.
#[derive(Debug, Clone, PartialEq, Eq)]
pub struct ScopeLine {
    pub key: String,
    pub chains: String,
    pub methods: String,
}

#[verifier::ext_equal]
pub struct ScopeModel {
    pub key: Seq<char>,
    pub chains: Seq<char>,
    pub methods: Seq<char>,
}

impl View for ScopeLine {
    type V = ScopeModel;

    open spec fn view(&self) -> ScopeModel {
        ScopeModel { key: self.key@, chains: self.chains@, methods: self.methods@ }
    }
}

/// Texts with commas between them, or what stands in for none.
pub open spec fn listed(texts: Seq<Seq<char>>, fallback: Seq<char>) -> Seq<char> {
    if texts.len() == 0 {
        fallback
    } else {
        joined(texts, ", "@)
    }
}

/// A scope that was asked for.
pub open spec fn asked_scope(n: NamespaceModel) -> ScopeModel {
    ScopeModel {
        key: n.key,
        chains: "chains: "@ + listed(n.chains, "(no chains)"@),
        methods: "methods: "@ + listed(n.methods, "(no methods)"@),
    }
}

/// The scopes that were asked for.
pub open spec fn asked_scopes(ns: Seq<NamespaceModel>) -> Seq<ScopeModel> {
    ns.map_values(|n: NamespaceModel| asked_scope(n))
}

/// Texts with commas between them, or what stands in for none.
fn list_or(texts: &Vec<String>, fallback: &str) -> (r: String)
    ensures
        r@ == listed(models(texts@), fallback@),
{
    proof {
        assert(models(texts@).len() == texts@.len());
    }
    if texts.len() == 0 {
        fallback.to_owned()
    } else {
        join(texts, ", ")
    }
}

/// The scopes that were asked for, in the order of their keys.
pub fn namespace_list(scopes: &Scopes) -> (r: Vec<ScopeLine>)
    ensures
        models(r@) == asked_scopes(scopes@),
{
    let ns: &Vec<Namespace> = scopes.list();
    let mut out: Vec<ScopeLine> = none_of();
    let mut i: usize = 0;
    while i < ns.len()
        invariant
            i <= ns@.len(),
            models(out@) =~= asked_scopes(models(ns@)).take(i as int),
        decreases ns@.len() - i,
    {
        let mut chains: String = "chains: ".to_owned();
        chains.append(list_or(&ns[i].chains, "(no chains)").as_str());
        let mut methods: String = "methods: ".to_owned();
        methods.append(list_or(&ns[i].methods, "(no methods)").as_str());
        let ghost before = out@;
        let line: ScopeLine = ScopeLine { key: ns[i].key.clone(), chains, methods };
        out.push(line);
        proof {
            let all = asked_scopes(models(ns@));
            assert(models(out@) =~= models(before).push(line@));
            lemma_next(all, i as int);
        }
        i = i + 1;
    }
    proof {
        let all = asked_scopes(models(ns@));
        assert(all.take(i as int) =~= all);
    }
    out
}

// ── what is granted ─────────────────────────────────────────────────

/// The card of what would be granted.
#[derive(Debug, Clone, PartialEq, Eq)]
pub struct GrantCard {
    pub networks: String,
    pub actions: String,
    /// What falls away.
    pub footer: Option<String>,
    /// Something required falls away.
    pub warning: Option<&'static str>,
}

#[verifier::ext_equal]
pub struct GrantCardModel {
    pub networks: Seq<char>,
    pub actions: Seq<char>,
    pub footer: Option<Seq<char>>,
    pub warning: Option<Seq<char>>,
}

impl View for GrantCard {
    type V = GrantCardModel;

    open spec fn view(&self) -> GrantCardModel {
        GrantCardModel {
            networks: self.networks@,
            actions: self.actions@,
            footer: model_of(self.footer),
            warning: model_of(self.warning),
        }
    }
}

/// "3 other networks".
pub open spec fn others(n: nat, one: Seq<char>, many: Seq<char>) -> Seq<char> {
    dec(n) + " other "@ + (if n == 1 {
        one
    } else {
        many
    })
}

/// What falls away, networks before actions.
pub open spec fn dropped_parts(chains: nat, methods: nat) -> Seq<char> {
    if chains > 0 && methods > 0 {
        others(chains, "network"@, "networks"@) + " and "@ + others(
            methods,
            "action"@,
            "actions"@,
        )
    } else if chains > 0 {
        others(chains, "network"@, "networks"@)
    } else {
        others(methods, "action"@, "actions"@)
    }
}

/// The line on what falls away, where anything does.
pub open spec fn dropped_line(chains: nat, methods: nat) -> Option<Seq<char>> {
    if chains > 0 || methods > 0 {
        Some(dropped_parts(chains, methods) + " the dApp asked for won't be granted."@)
    } else {
        None
    }
}

/// The card of what would be granted.
pub open spec fn grant_card(g: GrantModel) -> GrantCardModel {
    GrantCardModel {
        networks: listed(g.granted_chains, "(none)"@),
        actions: listed(g.granted_methods, "(none)"@),
        footer: dropped_line(g.dropped_chains, g.dropped_methods),
        warning: if g.required_dropped {
            Some(
                "The dApp marked some networks or actions as required — those won't be granted, so the dApp may refuse to continue."@,
            )
        } else {
            None
        },
    }
}

/// "3 other networks".
fn others_line(n: usize, one: &str, many: &str) -> (r: String)
    ensures
        r@ == others(n as nat, one@, many@),
{
    let mut s: String = decimal_usize(n);
    s.append(" other ");
    s.append(
        if n == 1 {
            one
        } else {
            many
        },
    );
    s
}

/// What falls away, where anything does.
fn dropped_text(chains: usize, methods: usize) -> (r: Option<String>)
    ensures
        model_of(r) == dropped_line(chains as nat, methods as nat),
{
    if chains == 0 && methods == 0 {
        return None;
    }
    let mut s: String = if chains > 0 {
        others_line(chains, "network", "networks")
    } else {
        others_line(methods, "action", "actions")
    };
    if chains > 0 && methods > 0 {
        s.append(" and ");
        s.append(others_line(methods, "action", "actions").as_str());
    }
    s.append(" the dApp asked for won't be granted.");
    Some(s)
}

/// The labels as texts of their own.
fn owned_labels(labels: &Vec<&'static str>) -> (r: Vec<String>)
    ensures
        models(r@) == models(labels@),
{
    let mut out: Vec<String> = none_of();
    let mut i: usize = 0;
    while i < labels.len()
        invariant
            i <= labels@.len(),
            models(out@) =~= models(labels@).take(i as int),
        decreases labels@.len() - i,
    {
        let ghost before = out@;
        let label: String = labels[i].to_owned();
        out.push(label);
        proof {
            let all = models(labels@);
            assert(models(out@) =~= models(before).push(label@));
            lemma_next(all, i as int);
        }
        i = i + 1;
    }
    proof {
        assert(models(labels@).take(i as int) =~= models(labels@));
    }
    out
}

/// The card of what would be granted.
pub fn grant_preview_card(g: &GrantPreview) -> (r: GrantCard)
    ensures
        r@ == grant_card(g@),
{
    GrantCard {
        networks: list_or(&owned_labels(&g.granted_chains), "(none)"),
        actions: list_or(&g.granted_methods, "(none)"),
        footer: dropped_text(g.dropped_chains, g.dropped_methods),
        warning: if g.required_dropped {
            Some(
                "The dApp marked some networks or actions as required — those won't be granted, so the dApp may refuse to continue.",
            )
        } else {
            None
        },
    }
}

// ── the modal ───────────────────────────────────────────────────────

/// "1 of 3" when more than one waits.
pub open spec fn badge(total: nat) -> Option<Seq<char>> {
    if total > 1 {
        Some("1 of "@ + dec(total))
    } else {
        None
    }
}

/// "1 of 3" when more than one waits.
fn badge_of(total: usize) -> (r: Option<String>)
    ensures
        model_of(r) == badge(total as nat),
{
    if total > 1 {
        let mut s: String = "1 of ".to_owned();
        s.append(decimal_usize(total).as_str());
        Some(s)
    } else {
        None
    }
}

/// A proposal to connect.
#[derive(Debug, Clone, PartialEq, Eq)]
pub struct ProposalBody {
    pub badge: Option<String>,
    pub peer: PeerCard,
    pub grant: GrantCard,
    /// What a click on the details does.
    pub details_label: &'static str,
    /// The raw scopes, required and optional, when unfolded.
    pub details: Option<(Vec<ScopeLine>, Vec<ScopeLine>)>,
    pub reject: Message,
    pub approve: Message,
}

#[verifier::ext_equal]
pub struct ProposalModel {
    pub badge: Option<Seq<char>>,
    pub peer: PeerModel,
    pub grant: GrantCardModel,
    pub details_label: Seq<char>,
    pub details: Option<(Seq<ScopeModel>, Seq<ScopeModel>)>,
    pub reject: Message,
    pub approve: Message,
}

impl View for ProposalBody {
    type V = ProposalModel;

    open spec fn view(&self) -> ProposalModel {
        ProposalModel {
            badge: model_of(self.badge),
            peer: self.peer@,
            grant: self.grant@,
            details_label: self.details_label@,
            details: match self.details {
                Some(d) => Some((models(d.0@), models(d.1@))),
                None => None,
            },
            reject: self.reject,
            approve: self.approve,
        }
    }
}

/// A proposal to connect.
pub open spec fn proposal_model(
    p: UiProposal,
    total: nat,
    expanded: bool,
    supported: Seq<MethodModel>,
) -> ProposalModel {
    ProposalModel {
        badge: badge(total),
        peer: peer_model(p.peer),
        grant: grant_card(grant(p.required@, p.optional@, supported)),
        details_label: if expanded {
            "Hide details ▴"@
        } else {
            "Show details ▾"@
        },
        details: if expanded {
            Some((asked_scopes(p.required@), asked_scopes(p.optional@)))
        } else {
            None
        },
        reject: Message::WcRejectProposal(p.proposal_id),
        approve: Message::WcApproveProposal(p.proposal_id),
    }
}

/// A proposal to connect: who asks, what would be granted, and on demand what
/// was asked for.
pub fn proposal_body(p: &UiProposal, total: usize, expanded: bool, supported: &Vec<Method>) -> (r:
    ProposalBody)
    ensures
        r@ == proposal_model(*p, total as nat, expanded, models(supported@)),
{
    ProposalBody {
        badge: badge_of(total),
        peer: peer_card(&p.peer),
        grant: grant_preview_card(&compute_grant_preview(p, supported)),
        details_label: if expanded {
            "Hide details ▴"
        } else {
            "Show details ▾"
        },
        details: if expanded {
            Some((namespace_list(&p.required), namespace_list(&p.optional)))
        } else {
            None
        },
        reject: Message::WcRejectProposal(p.proposal_id),
        approve: Message::WcApproveProposal(p.proposal_id),
    }
}

/// A request of a connected dapp.
#[derive(Debug, Clone, PartialEq, Eq)]
pub struct RequestBody {
    pub title: &'static str,
    pub badge: Option<String>,
    pub peer: PeerCard,
    pub method: String,
    pub chain: String,
    /// The request cannot be carried out.
    pub warning: Option<&'static str>,
    pub payload: Payload,
    pub reject: Message,
    pub approve: Message,
}

#[verifier::ext_equal]
pub struct RequestModel {
    pub title: Seq<char>,
    pub badge: Option<Seq<char>>,
    pub peer: PeerModel,
    pub method: Seq<char>,
    pub chain: Seq<char>,
    pub warning: Option<Seq<char>>,
    pub payload: PayloadModel,
    pub reject: Message,
    pub approve: Message,
}

impl View for RequestBody {
    type V = RequestModel;

    open spec fn view(&self) -> RequestModel {
        RequestModel {
            title: self.title@,
            badge: model_of(self.badge),
            peer: self.peer@,
            method: self.method@,
            chain: self.chain@,
            warning: model_of(self.warning),
            payload: self.payload@,
            reject: self.reject,
            approve: self.approve,
        }
    }
}

/// The title of a request.
pub open spec fn request_title(method: Seq<char>) -> Seq<char> {
    if method == "personal_sign"@ {
        "Sign message"@
    } else if method == "eth_signTypedData"@ || method == "eth_signTypedData_v4"@ {
        "Sign typed data"@
    } else if method == "eth_sendTransaction"@ {
        "Send transaction"@
    } else if method == "eth_signTransaction"@ {
        "Sign transaction"@
    } else {
        "dApp request"@
    }
}

/// What stands above a request that cannot be carried out.
pub open spec fn request_warning(method: Seq<char>) -> Option<Seq<char>> {
    if method == "eth_sendTransaction"@ || method == "eth_signTransaction"@ {
        Some(
            "Transactions can be reviewed here in a later release. Approve will reject this call back to the dApp with a not-implemented error."@,
        )
    } else {
        None
    }
}

/// A request of a connected dapp.
pub open spec fn request_model(r: UiRequest, total: nat) -> RequestModel {
    RequestModel {
        title: request_title(r.method@),
        badge: badge(total),
        peer: peer_model(r.peer),
        method: "method · "@ + r.method@,
        chain: "chain · "@ + r.chain_id@,
        warning: request_warning(r.method@),
        payload: payload(
            r.method@,
            json_items(r.params@),
            json_indented(r.params@),
            r.params@,
        ),
        reject: Message::WcRejectRequest(r.request_id),
        approve: Message::WcApproveRequest(r.request_id),
    }
}

/// The title of a request.
fn title_of(method: &str) -> (r: &'static str)
    ensures
        r@ == request_title(method@),
{
    if same_text(method, "personal_sign") {
        "Sign message"
    } else if same_text(method, "eth_signTypedData") || same_text(method, "eth_signTypedData_v4") {
        "Sign typed data"
    } else if same_text(method, "eth_sendTransaction") {
        "Send transaction"
    } else if same_text(method, "eth_signTransaction") {
        "Sign transaction"
    } else {
        "dApp request"
    }
}

/// What stands above a request that cannot be carried out.
fn warning_of(method: &str) -> (r: Option<&'static str>)
    ensures
        model_of(r) == request_warning(method@),
{
    if same_text(method, "eth_sendTransaction") || same_text(method, "eth_signTransaction") {
        Some(
            "Transactions can be reviewed here in a later release. Approve will reject this call back to the dApp with a not-implemented error.",
        )
    } else {
        None
    }
}

/// A request of a connected dapp: who asks, for what, and what would be signed.
pub fn request_body(r: &UiRequest, total: usize) -> (b: RequestBody)
    ensures
        b@ == request_model(*r, total as nat),
{
    let mut method: String = "method · ".to_owned();
    method.append(r.method.as_str());
    let mut chain: String = "chain · ".to_owned();
    chain.append(r.chain_id.as_str());
    RequestBody {
        title: title_of(r.method.as_str()),
        badge: badge_of(total),
        peer: peer_card(&r.peer),
        method,
        chain,
        warning: warning_of(r.method.as_str()),
        payload: payload_body(r.method.as_str(), r.params.as_str()),
        reject: Message::WcRejectRequest(r.request_id),
        approve: Message::WcApproveRequest(r.request_id),
    }
}

/// What the modal shows.
#[derive(Debug, Clone, PartialEq, Eq)]
pub enum Body {
    Proposal(ProposalBody),
    Request(RequestBody),
    Empty,
}

#[verifier::ext_equal]
pub enum BodyModel {
    Proposal(ProposalModel),
    Request(RequestModel),
    Empty,
}

impl View for Body {
    type V = BodyModel;

    open spec fn view(&self) -> BodyModel {
        match *self {
            Body::Proposal(p) => BodyModel::Proposal(p@),
            Body::Request(r) => BodyModel::Request(r@),
            Body::Empty => BodyModel::Empty,
        }
    }
}

/// What the modal shows, and what a click beside it does.
pub open spec fn modal_model(
    wc: WcState,
    expanded: bool,
    supported: Seq<MethodModel>,
) -> (BodyModel, Message) {
    match wc.current_modal {
        Some(WcModal::Proposal(p)) => (
            BodyModel::Proposal(proposal_model(p, wc.queue_len as nat, expanded, supported)),
            Message::WcRejectProposal(p.proposal_id),
        ),
        Some(WcModal::Request(r)) => (
            BodyModel::Request(request_model(r, wc.queue_len as nat)),
            Message::WcRejectRequest(r.request_id),
        ),
        None => (BodyModel::Empty, Message::WcDismissError),
    }
}

/// What the modal shows, and what a click beside it does: it rejects, so that no
/// dapp is left waiting for an answer.
pub fn view(wc: &WcState, expanded: bool, supported: &Vec<Method>) -> (r: (Body, Message))
    ensures
        (r.0@, r.1) == modal_model(*wc, expanded, models(supported@)),
{
    match &wc.current_modal {
        Some(WcModal::Proposal(p)) => (
            Body::Proposal(proposal_body(p, wc.queue_len, expanded, supported)),
            Message::WcRejectProposal(p.proposal_id),
        ),
        Some(WcModal::Request(r)) => (
            Body::Request(request_body(r, wc.queue_len)),
            Message::WcRejectRequest(r.request_id),
        ),
        None => (Body::Empty, Message::WcDismissError),
    }
}

} // verus!
