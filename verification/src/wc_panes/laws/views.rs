//! The models of a connection leave nothing out.

use vstd::prelude::*;

use crate::text::model_of;
use crate::text::models;
use crate::wc_panes::Message;
use crate::wc_panes::Method;
use crate::wc_panes::Namespace;
use crate::wc_panes::body::badge;
use crate::wc_panes::body::Body;
use crate::wc_panes::body::BodyModel;
use crate::wc_panes::body::GrantCard;
use crate::wc_panes::body::PeerCard;
use crate::wc_panes::body::ProposalBody;
use crate::wc_panes::body::RequestBody;
use crate::wc_panes::body::ScopeLine;
use crate::wc_panes::grant::GrantPreview;
use crate::wc_panes::payload::Payload;
use crate::wc_panes::payload::PayloadModel;
use crate::wc_panes::sessions::PasteCard;
use crate::wc_panes::sessions::SessionRow;

verus! {

/// The model of a `Namespace` has every part of it, each in its place.
pub proof fn a_namespace_is_modelled_in_full(x: Namespace)
    ensures
        x@.key == x.key@,
        x@.chains == models(x.chains@),
        x@.methods == models(x.methods@),
{
}

/// The model of a `Method` has every part of it, each in its place.
pub proof fn a_method_is_modelled_in_full(x: Method)
    ensures
        x@.id == x.id@,
        x@.label == model_of(x.label),
{
}

/// The model of a `PeerCard` has every part of it, each in its place.
pub proof fn a_peer_card_is_modelled_in_full(x: PeerCard)
    ensures
        x@.name == x.name@,
        x@.url == x.url@,
{
}

/// The model of a `ScopeLine` has every part of it, each in its place.
pub proof fn a_scope_line_is_modelled_in_full(x: ScopeLine)
    ensures
        x@.key == x.key@,
        x@.chains == x.chains@,
        x@.methods == x.methods@,
{
}

/// The model of a `GrantCard` has every part of it, each in its place.
pub proof fn a_grant_card_is_modelled_in_full(x: GrantCard)
    ensures
        x@.networks == x.networks@,
        x@.actions == x.actions@,
        x@.footer == model_of(x.footer),
        x@.warning == model_of(x.warning),
{
}

/// The model of a `ProposalBody` has every part of it, each in its place.
pub proof fn a_proposal_body_is_modelled_in_full(x: ProposalBody)
    ensures
        x@.badge == model_of(x.badge),
        x@.peer == x.peer@,
        x@.grant == x.grant@,
        x@.details_label == x.details_label@,
        x.details matches Some(d) ==> x@.details == Some((models(d.0@), models(d.1@))),
        x.details is None ==> x@.details is None,
        x@.reject == x.reject,
        x@.approve == x.approve,
{
}

/// The model of a `RequestBody` has every part of it, each in its place.
pub proof fn a_request_body_is_modelled_in_full(x: RequestBody)
    ensures
        x@.title == x.title@,
        x@.badge == model_of(x.badge),
        x@.peer == x.peer@,
        x@.method == x.method@,
        x@.chain == x.chain@,
        x@.warning == model_of(x.warning),
        x@.payload == x.payload@,
        x@.reject == x.reject,
        x@.approve == x.approve,
{
}

/// The model of a `Body` has every part of it, each in its place.
pub proof fn a_body_is_modelled_in_full(x: Body)
    ensures
        x matches Body::Proposal(p) ==> x@ == BodyModel::Proposal(p@),
        x matches Body::Request(r) ==> x@ == BodyModel::Request(r@),
        x is Empty ==> x@ == BodyModel::Empty,
{
}

/// The model of a `GrantPreview` has every part of it, each in its place.
pub proof fn a_grant_preview_is_modelled_in_full(x: GrantPreview)
    ensures
        x@.granted_chains == models(x.granted_chains@),
        x@.granted_methods == models(x.granted_methods@),
        x@.dropped_chains == x.dropped_chains as nat,
        x@.dropped_methods == x.dropped_methods as nat,
        x@.required_dropped == x.required_dropped,
{
}

/// The model of a `Payload` has every part of it, each in its place.
pub proof fn a_payload_is_modelled_in_full(x: Payload)
    ensures
        x matches Payload::Message(s) ==> x@ == PayloadModel::Message(s@),
        x matches Payload::Dump(s) ==> x@ == PayloadModel::Dump(s@),
{
}

/// The model of a `SessionRow` has every part of it, each in its place.
pub proof fn a_session_row_is_modelled_in_full(x: SessionRow)
    ensures
        x@.peer == x.peer@,
        x@.scopes == models(x.scopes@),
        x@.expiry == x.expiry@,
        x@.disconnect == x.disconnect,
{
}

/// The model of a `PasteCard` has every part of it, each in its place.
pub proof fn a_paste_card_is_modelled_in_full(x: PasteCard)
    ensures
        x@.status == x.status@,
        x@.tone == x.tone,
        x@.dismiss == x.dismiss,
        x@.submit == x.submit,
{
}

} // verus!
