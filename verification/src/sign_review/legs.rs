//! The card of a raw transaction.

use vstd::prelude::*;

use crate::function_panel;
use crate::function_panel::card_of;
use crate::function_panel::indentable;
use crate::function_panel::panel;
use crate::primitives::U256;
use crate::sign_review::address_field;
use crate::sign_review::field;
use crate::sign_review::push_row;
use crate::sign_review::LegCard;
use crate::sign_review::LegModel;
use crate::sign_review::ReviewLeg;
use crate::sign_review::Row;
use crate::sign_review::RowModel;
use crate::sign_review::Rows;
use crate::text::dec;
use crate::text::decimal_usize;
use crate::text::lemma_next;
use crate::text::models;
use crate::text::none_of;
use crate::text::plural;
use crate::text::plural_suffix;

verus! {

impl ReviewLeg {
    /// Whether the leg's decode can be laid out.
    pub open spec fn indentable(self) -> bool {
        indentable(Some(*self.decoded))
    }

    /// Whether the decodes of the leg and of the calls inside can be laid out.
    pub open spec fn all_indentable(self) -> bool {
        &&& self.indentable()
        &&& forall|i: int| 0 <= i < self.sub_legs@.len() ==> (#[trigger] self.sub_legs@[i]).indentable()
    }

    /// Whether an authored sentence says what the call does, so that the rest
    /// may be folded away.
    pub open spec fn collapsible(self) -> bool {
        match self.headline {
            Some(h) => h.clear_signed,
            None => false,
        }
    }

    /// What the headline says.
    pub open spec fn said(self) -> Option<Seq<char>> {
        match self.headline {
            Some(h) => Some(h.text@),
            None => None,
        }
    }
}

/// The banner over a call to the account that executes it.
pub open spec fn self_admin_row(warning: Seq<char>) -> RowModel {
    RowModel::Banner { title: "⚠ THIS CALL TARGETS THE SIGNING ACCOUNT"@, body: warning }
}

/// What stands above everything else on a leg: its title, the warning that it
/// targets the signing account, and its headline.
pub open spec fn lead_rows(leg: ReviewLeg, title: RowModel) -> Seq<RowModel> {
    seq![title] + (match leg.self_admin {
        Some(w) => seq![self_admin_row(w@)],
        None => seq![],
    }) + (match leg.headline {
        Some(h) => seq![RowModel::Headline(card_of(h))],
        None => seq![],
    })
}

/// The mechanical decode of a leg.
pub open spec fn decode_rows(leg: ReviewLeg) -> Seq<RowModel> {
    match panel(Some(*leg.decoded), leg.said(), false) {
        Some(p) => seq![RowModel::Panel(p)],
        None => seq![],
    }
}

/// Destination, network and value of a leg, and its decode.
pub open spec fn detail_rows(leg: ReviewLeg) -> Seq<RowModel> {
    seq![
        RowModel::AddressField { label: "To"@, addr: leg.to },
        RowModel::Field { label: "Network"@, value: leg.net.name_text() },
        RowModel::EtherField { label: "Value"@, wei: leg.value },
    ] + decode_rows(leg)
}

/// The rows of a leg. Only a leg whose headline was authored folds.
pub open spec fn leg_rows(leg: ReviewLeg, show_detail: bool) -> Seq<RowModel> {
    lead_rows(leg, RowModel::Heading(leg.title@)) + (if leg.collapsible() {
        seq![RowModel::DetailToggle { shown: show_detail }]
    } else {
        seq![]
    }) + (if !leg.collapsible() || show_detail {
        detail_rows(leg)
    } else {
        seq![]
    })
}

/// Destination of a call inside a batch, its value where it has one, and its
/// decode.
pub open spec fn sub_detail_rows(leg: ReviewLeg) -> Seq<RowModel> {
    seq![RowModel::AddressField { label: "To"@, addr: leg.to }] + (if leg.value
        == U256::zero_value() {
        seq![]
    } else {
        seq![RowModel::EtherField { label: "Value"@, wei: leg.value }]
    }) + decode_rows(leg)
}

/// The rows of a call inside a batch. It folds with the leg around it.
pub open spec fn sub_leg_rows(leg: ReviewLeg, show_detail: bool) -> Seq<RowModel> {
    lead_rows(leg, RowModel::Caption(leg.title@)) + (if !leg.collapsible() || show_detail {
        sub_detail_rows(leg)
    } else {
        seq![]
    })
}

/// The line above the calls of a batch.
pub open spec fn batch_caption(n: nat) -> Seq<char> {
    "This transaction performs "@ + dec(n) + " call"@ + plural(n) + " — all-or-nothing"@
}

/// The card of a leg.
pub open spec fn leg_model(leg: ReviewLeg, show_detail: bool) -> LegModel {
    LegModel {
        rows: leg_rows(leg, show_detail),
        caption: if leg.sub_legs@.len() == 0 {
            None
        } else {
            Some(batch_caption(leg.sub_legs@.len()))
        },
        subs: leg.sub_legs@.map_values(|sub: ReviewLeg| sub_leg_rows(sub, show_detail)),
    }
}

/// The title, the warning and the headline of a leg.
fn lead(leg: &ReviewLeg, title: Row) -> (r: Vec<Row>)
    ensures
        models(r@) == lead_rows(*leg, title@),
{
    let mut rows: Vec<Row> = none_of();
    push_row(&mut rows, title);
    match &leg.self_admin {
        Some(warning) => push_row(
            &mut rows,
            Row::Banner {
                title: "⚠ THIS CALL TARGETS THE SIGNING ACCOUNT".to_owned(),
                body: warning.clone(),
            },
        ),
        None => {},
    }
    match &leg.headline {
        Some(h) => push_row(&mut rows, Row::Headline(function_panel::headline_view(h))),
        None => {},
    }
    proof {
        assert(models(rows@) =~= lead_rows(*leg, title@));
    }
    rows
}

/// Appends the mechanical decode of a leg.
fn push_decode(rows: &mut Vec<Row>, leg: &ReviewLeg)
    requires
        leg.indentable(),
    ensures
        models(final(rows)@) == models(old(rows)@) + decode_rows(*leg),
{
    let ghost before = models(rows@);
    let said: Option<&str> = match &leg.headline {
        Some(h) => Some(h.text.as_str()),
        None => None,
    };
    match function_panel::view(Some(&*leg.decoded), said, false) {
        Some(p) => push_row(rows, Row::Panel(p)),
        None => {},
    }
    proof {
        assert(models(rows@) =~= before + decode_rows(*leg));
    }
}

/// Whether an authored sentence says what the call does.
fn is_collapsible(leg: &ReviewLeg) -> (r: bool)
    ensures
        r == leg.collapsible(),
{
    match &leg.headline {
        Some(h) => h.clear_signed,
        None => false,
    }
}

/// The card of a call inside a batch.
pub fn sub_leg_card(leg: &ReviewLeg, show_detail: bool) -> (r: Rows)
    requires
        leg.indentable(),
    ensures
        r@ == sub_leg_rows(*leg, show_detail),
{
    let mut rows: Vec<Row> = lead(leg, Row::Caption(leg.title.clone()));
    let ghost head = models(rows@);
    if !is_collapsible(leg) || show_detail {
        push_row(&mut rows, address_field("To", leg.to));
        if !leg.value.is_zero() {
            push_row(&mut rows, Row::EtherField { label: "Value".to_owned(), wei: leg.value });
        }
        push_decode(&mut rows, leg);
        proof {
            assert(models(rows@) =~= head + sub_detail_rows(*leg));
        }
    }
    proof {
        assert(models(rows@) =~= sub_leg_rows(*leg, show_detail));
    }
    Rows { rows }
}

/// The rows of a leg.
fn leg_lines(leg: &ReviewLeg, show_detail: bool) -> (r: Vec<Row>)
    requires
        leg.indentable(),
    ensures
        models(r@) == leg_rows(*leg, show_detail),
{
    let mut rows: Vec<Row> = lead(leg, Row::Heading(leg.title.clone()));
    let collapsible: bool = is_collapsible(leg);
    if collapsible {
        push_row(&mut rows, Row::DetailToggle { shown: show_detail });
    }
    let ghost head = models(rows@);
    if !collapsible || show_detail {
        push_row(&mut rows, address_field("To", leg.to));
        push_row(&mut rows, field("Network", leg.net.display_name()));
        push_row(&mut rows, Row::EtherField { label: "Value".to_owned(), wei: leg.value });
        push_decode(&mut rows, leg);
        proof {
            assert(models(rows@) =~= head + detail_rows(*leg));
        }
    }
    proof {
        assert(models(rows@) =~= leg_rows(*leg, show_detail));
    }
    rows
}

/// The card of a leg: what it does, then who it touches, then the mechanical
/// decode, and a card for each call it fans out into.
pub fn leg_card(leg: &ReviewLeg, show_detail: bool) -> (r: LegCard)
    requires
        leg.all_indentable(),
    ensures
        r@ == leg_model(*leg, show_detail),
{
    let rows: Vec<Row> = leg_lines(leg, show_detail);
    let mut subs: Vec<Rows> = none_of();
    let n: usize = leg.sub_legs.len();
    let mut i: usize = 0;
    while i < n
        invariant
            n == leg.sub_legs@.len(),
            i <= n,
            leg.all_indentable(),
            models(subs@) =~= leg_model(*leg, show_detail).subs.take(i as int),
        decreases n - i,
    {
        let ghost before = subs@;
        let sub: Rows = sub_leg_card(&leg.sub_legs[i], show_detail);
        subs.push(sub);
        proof {
            let all = leg_model(*leg, show_detail).subs;
            assert(models(subs@) =~= models(before).push(sub@));
            lemma_next(all, i as int);
        }
        i = i + 1;
    }
    proof {
        assert(models(subs@) =~= leg_model(*leg, show_detail).subs);
    }
    let caption: Option<String> = if n == 0 {
        None
    } else {
        let mut s: String = "This transaction performs ".to_owned();
        s.append(decimal_usize(n).as_str());
        s.append(" call");
        s.append(plural_suffix(n as u64));
        s.append(" — all-or-nothing");
        Some(s)
    };
    LegCard { rows, caption, subs }
}

} // verus!
