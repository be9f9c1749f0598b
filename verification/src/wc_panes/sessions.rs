//! Open sessions, and the card a new connection starts from.

use vstd::prelude::*;

use crate::text::dec;
use crate::text::decimal;
use crate::text::decimal_usize;
use crate::text::join;
use crate::text::joined;
use crate::text::lemma_next;
use crate::text::models;
use crate::text::none_of;
use crate::wc_panes::body::peer_card;
use crate::wc_panes::body::peer_model;
use crate::wc_panes::body::PeerCard;
use crate::wc_panes::body::PeerModel;
use crate::wc_panes::body::ScopeLine;
use crate::wc_panes::body::ScopeModel;
use crate::wc_panes::Message;
use crate::wc_panes::Namespace;
use crate::wc_panes::NamespaceModel;
use crate::wc_panes::UiSession;
use crate::wc_panes::WcState;
use crate::wc_panes::WcStatus;
use crate::wc_panes::scopes::Scopes;

verus! {

/// How long a session lasts, in the largest units that suit it.
pub open spec fn remaining_text(now: nat, expiry: nat) -> Seq<char> {
    if expiry <= now {
        "expired"@
    } else {
        let secs = (expiry - now) as nat;
        if secs >= 86_400 {
            if secs % 86_400 / 3600 == 0 {
                "in "@ + dec(secs / 86_400) + "d"@
            } else {
                "in "@ + dec(secs / 86_400) + "d "@ + dec(secs % 86_400 / 3600) + "h"@
            }
        } else if secs >= 3600 {
            "in "@ + dec(secs / 3600) + "h"@
        } else if secs >= 60 {
            "in "@ + dec(secs / 60) + "m"@
        } else {
            "in "@ + dec(secs) + "s"@
        }
    }
}

/// How long a session lasts: "in 6d 14h", "in 35m", or "expired".
pub fn format_expiry(now: u64, expiry: u64) -> (r: String)
    ensures
        r@ == remaining_text(now as nat, expiry as nat),
{
    if expiry <= now {
        return "expired".to_owned();
    }
    let secs: u64 = expiry - now;
    let mut s: String = "in ".to_owned();
    if secs >= 86_400 {
        let hours: u64 = secs % 86_400 / 3600;
        s.append(decimal(secs / 86_400).as_str());
        if hours == 0 {
            s.append("d");
        } else {
            s.append("d ");
            s.append(decimal(hours).as_str());
            s.append("h");
        }
    } else if secs >= 3600 {
        s.append(decimal(secs / 3600).as_str());
        s.append("h");
    } else if secs >= 60 {
        s.append(decimal(secs / 60).as_str());
        s.append("m");
    } else {
        s.append(decimal(secs).as_str());
        s.append("s");
    }
    s
}

/// A scope that was granted.
pub open spec fn settled_scope(n: NamespaceModel) -> ScopeModel {
    ScopeModel {
        key: n.key,
        chains: "chains: "@ + joined(n.chains, ", "@),
        methods: "methods: "@ + joined(n.methods, ", "@),
    }
}

/// The scopes that were granted.
pub open spec fn settled_scopes(ns: Seq<NamespaceModel>) -> Seq<ScopeModel> {
    ns.map_values(|n: NamespaceModel| settled_scope(n))
}

/// The scopes that were granted, in the order of their keys.
pub fn settled_namespace_list(scopes: &Scopes) -> (r: Vec<ScopeLine>)
    ensures
        models(r@) == settled_scopes(scopes@),
{
    let ns: &Vec<Namespace> = scopes.list();
    let mut out: Vec<ScopeLine> = none_of();
    let mut i: usize = 0;
    while i < ns.len()
        invariant
            i <= ns@.len(),
            models(out@) =~= settled_scopes(models(ns@)).take(i as int),
        decreases ns@.len() - i,
    {
        let mut chains: String = "chains: ".to_owned();
        chains.append(join(&ns[i].chains, ", ").as_str());
        let mut methods: String = "methods: ".to_owned();
        methods.append(join(&ns[i].methods, ", ").as_str());
        let ghost before = out@;
        let line: ScopeLine = ScopeLine { key: ns[i].key.clone(), chains, methods };
        out.push(line);
        proof {
            let all = settled_scopes(models(ns@));
            assert(models(out@) =~= models(before).push(line@));
            lemma_next(all, i as int);
        }
        i = i + 1;
    }
    proof {
        let all = settled_scopes(models(ns@));
        assert(all.take(i as int) =~= all);
    }
    out
}

/// An open session. No scopes are shown as "(no scopes)".
#[derive(Debug, Clone, PartialEq, Eq)]
pub struct SessionRow {
    pub peer: PeerCard,
    pub scopes: Vec<ScopeLine>,
    pub expiry: String,
    pub disconnect: Message,
}

#[verifier::ext_equal]
pub struct SessionModel {
    pub peer: PeerModel,
    pub scopes: Seq<ScopeModel>,
    pub expiry: Seq<char>,
    pub disconnect: Message,
}

impl View for SessionRow {
    type V = SessionModel;

    open spec fn view(&self) -> SessionModel {
        SessionModel {
            peer: self.peer@,
            scopes: models(self.scopes@),
            expiry: self.expiry@,
            disconnect: self.disconnect,
        }
    }
}

/// An open session at a time in Unix seconds.
pub open spec fn session_model(s: UiSession, now: nat) -> SessionModel {
    SessionModel {
        peer: peer_model(s.peer),
        scopes: settled_scopes(s.namespaces@),
        expiry: "expires "@ + remaining_text(now, s.expiry as nat),
        disconnect: Message::WcDisconnectSession(s.topic),
    }
}

/// An open session at a time in Unix seconds.
pub fn session_row(s: &UiSession, now: u64) -> (r: SessionRow)
    ensures
        r@ == session_model(*s, now as nat),
{
    let mut expiry: String = "expires ".to_owned();
    expiry.append(format_expiry(now, s.expiry).as_str());
    SessionRow {
        peer: peer_card(&s.peer),
        scopes: settled_namespace_list(&s.namespaces),
        expiry,
        disconnect: Message::WcDisconnectSession(s.topic),
    }
}

/// The open sessions, in order.
pub open spec fn session_models(s: Seq<UiSession>, now: nat) -> Seq<SessionModel> {
    s.map_values(|x: UiSession| session_model(x, now))
}

/// The open sessions at a time in Unix seconds. None are shown as an invitation
/// to connect.
pub fn sessions_view(wc: &WcState, now: u64) -> (r: Vec<SessionRow>)
    ensures
        models(r@) == session_models(wc.sessions@, now as nat),
{
    let mut out: Vec<SessionRow> = none_of();
    let mut i: usize = 0;
    while i < wc.sessions.len()
        invariant
            i <= wc.sessions@.len(),
            models(out@) =~= session_models(wc.sessions@, now as nat).take(i as int),
        decreases wc.sessions@.len() - i,
    {
        let ghost before = out@;
        let row: SessionRow = session_row(&wc.sessions[i], now);
        out.push(row);
        proof {
            let all = session_models(wc.sessions@, now as nat);
            assert(models(out@) =~= models(before).push(row@));
            lemma_next(all, i as int);
        }
        i = i + 1;
    }
    proof {
        let all = session_models(wc.sessions@, now as nat);
        assert(all.take(i as int) =~= all);
    }
    out
}

/// The colour of a status.
#[derive(Debug, Clone, Copy, PartialEq, Eq, Structural)]
pub enum Tone {
    Quiet,
    Busy,
    Bad,
}

/// The card a new connection starts from.
#[derive(Debug, Clone, PartialEq, Eq)]
pub struct PasteCard {
    pub status: String,
    pub tone: Tone,
    /// What the button beside an error does.
    pub dismiss: Option<Message>,
    pub submit: Message,
}

#[verifier::ext_equal]
pub struct PasteModel {
    pub status: Seq<char>,
    pub tone: Tone,
    pub dismiss: Option<Message>,
    pub submit: Message,
}

impl View for PasteCard {
    type V = PasteModel;

    open spec fn view(&self) -> PasteModel {
        PasteModel {
            status: self.status@,
            tone: self.tone,
            dismiss: self.dismiss,
            submit: self.submit,
        }
    }
}

/// The status of all connections: the last error before anything else.
pub open spec fn status_label(wc: WcState) -> Seq<char> {
    match wc.last_error {
        Some(e) => "⚠ "@ + e@,
        None => match wc.status {
            WcStatus::Idle => "idle"@,
            WcStatus::Connecting => "connecting…"@,
            WcStatus::Connected => if wc.sessions@.len() == 0 {
                "relay connected · no sessions yet"@
            } else {
                "relay connected · "@ + dec(wc.sessions@.len()) + " session(s)"@
            },
            WcStatus::Failed(e) => "failed: "@ + e@,
        },
    }
}

/// The colour of the status.
pub open spec fn status_tone(wc: WcState) -> Tone {
    if wc.last_error is Some || wc.status is Failed {
        Tone::Bad
    } else if wc.status is Connecting {
        Tone::Busy
    } else {
        Tone::Quiet
    }
}

/// The card a new connection starts from.
pub open spec fn paste_model(wc: WcState) -> PasteModel {
    PasteModel {
        status: "WalletConnect · "@ + status_label(wc),
        tone: status_tone(wc),
        dismiss: if wc.last_error is Some {
            Some(Message::WcDismissError)
        } else {
            None
        },
        submit: Message::WcSubmitUri,
    }
}

/// The status of all connections.
fn status_line(wc: &WcState) -> (r: (String, Tone))
    ensures
        r.0@ == status_label(*wc),
        r.1 == status_tone(*wc),
{
    match &wc.last_error {
        Some(e) => {
            let mut s: String = "⚠ ".to_owned();
            s.append(e.as_str());
            (s, Tone::Bad)
        },
        None => match &wc.status {
            WcStatus::Idle => ("idle".to_owned(), Tone::Quiet),
            WcStatus::Connecting => ("connecting…".to_owned(), Tone::Busy),
            WcStatus::Connected => {
                let n: usize = wc.sessions.len();
                if n == 0 {
                    ("relay connected · no sessions yet".to_owned(), Tone::Quiet)
                } else {
                    let mut s: String = "relay connected · ".to_owned();
                    s.append(decimal_usize(n).as_str());
                    s.append(" session(s)");
                    (s, Tone::Quiet)
                }
            },
            WcStatus::Failed(e) => {
                let mut s: String = "failed: ".to_owned();
                s.append(e.as_str());
                (s, Tone::Bad)
            },
        },
    }
}

/// The card a new connection starts from.
pub fn paste_card(wc: &WcState) -> (r: PasteCard)
    ensures
        r@ == paste_model(*wc),
{
    let (label, tone): (String, Tone) = status_line(wc);
    let mut status: String = "WalletConnect · ".to_owned();
    status.append(label.as_str());
    PasteCard {
        status,
        tone,
        dismiss: if wc.last_error.is_some() {
            Some(Message::WcDismissError)
        } else {
            None
        },
        submit: Message::WcSubmitUri,
    }
}

} // verus!
