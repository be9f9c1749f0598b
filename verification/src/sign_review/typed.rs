//! Typed data as labelled rows.

use vstd::prelude::*;

use crate::calendar::format_iso_utc;
use crate::calendar::utc_text;
use crate::primitives::Address;
use crate::sign_review::address_field;
use crate::sign_review::field;
use crate::sign_review::push_row;
use crate::sign_review::OrderReview;
use crate::sign_review::Row;
use crate::sign_review::RowModel;
use crate::text::dec;
use crate::text::dec_fixed;
use crate::text::decimal;
use crate::text::decimal_fixed;
use crate::text::model_of;
use crate::text::models;
use crate::text::none_of;

verus! {

/// The value of a typed-data row.
#[derive(Debug, Clone, PartialEq, Eq)]
pub enum TypedValue {
    Text(String),
    Addr(Address),
}

/// A labelled value of typed data.
#[derive(Debug, Clone, PartialEq, Eq)]
pub struct TypedRow {
    pub label: String,
    pub value: TypedValue,
}

impl View for TypedRow {
    type V = RowModel;

    /// The row as it is shown on a card.
    open spec fn view(&self) -> RowModel {
        match self.value {
            TypedValue::Text(s) => RowModel::Field { label: self.label@, value: s@ },
            TypedValue::Addr(addr) => RowModel::AddressField { label: self.label@, addr },
        }
    }
}

/// Typed data ready to show.
#[derive(Debug, Clone, PartialEq, Eq)]
pub struct TypedDataModel {
    pub kind_name: String,
    pub headline: Option<String>,
    pub rows: Vec<TypedRow>,
}

#[verifier::ext_equal]
pub struct TypedModel {
    pub kind_name: Seq<char>,
    pub headline: Option<Seq<char>>,
    pub rows: Seq<RowModel>,
}

impl View for TypedDataModel {
    type V = TypedModel;

    open spec fn view(&self) -> TypedModel {
        TypedModel {
            kind_name: self.kind_name@,
            headline: model_of(self.headline),
            rows: models(self.rows@),
        }
    }
}

/// Basis points as a percentage, with as many decimals as they need.
pub open spec fn percent_text(bps: nat) -> Seq<char> {
    if bps % 100 == 0 {
        dec(bps / 100) + "%"@
    } else if bps % 10 == 0 {
        dec(bps / 100) + "."@ + dec_fixed(bps / 10, 1) + "%"@
    } else {
        dec(bps / 100) + "."@ + dec_fixed(bps, 2) + "%"@
    }
}

/// A span of time in the largest unit that suits it.
pub open spec fn span_text(secs: nat) -> Seq<char> {
    if secs < 90 {
        dec(secs) + "s"@
    } else if secs < 3600 {
        dec(secs / 60) + " min"@
    } else {
        dec(secs / 3600) + " hr"@
    }
}

/// An expiry: when it is, and in how long unless it has passed or the time is
/// not known.
pub open spec fn expiry_text(valid_to: nat, now: nat) -> Seq<char> {
    if now == 0 || valid_to <= now {
        utc_text(valid_to)
    } else {
        utc_text(valid_to) + " (in "@ + span_text((valid_to - now) as nat) + ")"@
    }
}

/// Basis points as a percentage: 50 is "0.5%", 200 is "2%".
pub fn slippage_label(bps: u16) -> (r: String)
    ensures
        r@ == percent_text(bps as nat),
{
    let n: u64 = bps as u64;
    let mut s: String = decimal(n / 100);
    if n % 100 != 0 {
        s.append(".");
        if n % 10 == 0 {
            s.append(decimal_fixed(n / 10, 1).as_str());
        } else {
            s.append(decimal_fixed(n, 2).as_str());
        }
    }
    s.append("%");
    s
}

/// An expiry: when it is, and in how long unless it has passed. `now` is zero
/// when the time is not known.
pub fn format_expiry(valid_to: u32, now: u64) -> (r: String)
    ensures
        r@ == expiry_text(valid_to as nat, now as nat),
{
    let at: u64 = valid_to as u64;
    let mut s: String = format_iso_utc(at);
    if now == 0 || at <= now {
        return s;
    }
    let secs: u64 = at - now;
    let mut rel: String = if secs < 90 {
        decimal(secs)
    } else if secs < 3600 {
        decimal(secs / 60)
    } else {
        decimal(secs / 3600)
    };
    rel.append(
        if secs < 90 {
            "s"
        } else if secs < 3600 {
            " min"
        } else {
            " hr"
        },
    );
    s.append(" (in ");
    s.append(rel.as_str());
    s.append(")");
    s
}

/// The sentence at the top of an order.
pub open spec fn order_headline(o: OrderReview) -> Seq<char> {
    "Sell "@ + o.sell_amount@ + " "@ + o.sell_symbol@ + " for at least "@ + o.min_received@ + " "@
        + o.buy_symbol@
}

/// The least the order accepts, and how far that is from the estimate.
pub open spec fn min_received_text(o: OrderReview) -> Seq<char> {
    o.min_received@ + " "@ + o.buy_symbol@ + " · "@ + percent_text(o.slippage_bps as nat)
        + " slippage"@
}

/// Where the order settles.
pub open spec fn settles_text(native: bool) -> Seq<char> {
    if native {
        "on-chain (native ETH) · costs gas"@
    } else {
        "off-chain via solvers · gasless"@
    }
}

/// The rows of an order.
pub open spec fn order_rows(o: OrderReview, now: nat) -> Seq<RowModel> {
    seq![
        RowModel::Field { label: "You sell"@, value: o.sell_amount@ + " "@ + o.sell_symbol@ },
        RowModel::Field { label: "Receive (est.)"@, value: o.buy_amount@ + " "@ + o.buy_symbol@ },
        RowModel::Field { label: "Min received"@, value: min_received_text(o) },
        RowModel::AddressField { label: "Receiver"@, addr: o.receiver },
        RowModel::Field { label: "Order type"@, value: "Sell · fill-or-kill"@ },
        RowModel::Field { label: "Solver fee"@, value: "taken from price (signed fee 0)"@ },
        RowModel::Field { label: "Expires"@, value: expiry_text(o.valid_to as nat, now) },
        RowModel::AddressField { label: "Settlement"@, addr: o.settlement },
        RowModel::Field { label: "Network"@, value: o.chain.name_text() },
        RowModel::Field { label: "Settles"@, value: settles_text(o.native) },
    ]
}

/// An order as typed data.
pub open spec fn order_model(o: OrderReview, now: nat) -> TypedModel {
    TypedModel {
        kind_name: "CoW order — EIP-712 signature"@,
        headline: Some(order_headline(o)),
        rows: order_rows(o, now),
    }
}

/// The rows of typed data on its card.
pub open spec fn typed_rows(m: TypedModel) -> Seq<RowModel> {
    seq![RowModel::Caption(m.kind_name)] + (match m.headline {
        Some(h) => seq![RowModel::Heading(h)],
        None => seq![],
    }) + m.rows
}

/// Appends a row of text.
fn push_text(rows: &mut Vec<TypedRow>, label: &str, value: String)
    ensures
        models(final(rows)@) == models(old(rows)@).push(
            (RowModel::Field { label: label@, value: value@ }),
        ),
{
    let ghost before = rows@;
    let row: TypedRow = TypedRow { label: label.to_owned(), value: TypedValue::Text(value) };
    rows.push(row);
    proof {
        assert(models(rows@) =~= models(before).push(row@));
    }
}

/// Appends a row with an address.
fn push_addr(rows: &mut Vec<TypedRow>, label: &str, addr: Address)
    ensures
        models(final(rows)@) == models(old(rows)@).push(
            (RowModel::AddressField { label: label@, addr }),
        ),
{
    let ghost before = rows@;
    let row: TypedRow = TypedRow { label: label.to_owned(), value: TypedValue::Addr(addr) };
    rows.push(row);
    proof {
        assert(models(rows@) =~= models(before).push(row@));
    }
}

/// An amount and its symbol.
fn amount_text(amount: &str, symbol: &str) -> (r: String)
    ensures
        r@ == amount@ + " "@ + symbol@,
{
    let mut s: String = amount.to_owned();
    s.append(" ");
    s.append(symbol);
    s
}

impl OrderReview {
    /// The sentence at the top.
    fn headline_text(&self) -> (r: String)
        ensures
            r@ == order_headline(*self),
    {
        let mut s: String = "Sell ".to_owned();
        s.append(self.sell_amount.as_str());
        s.append(" ");
        s.append(self.sell_symbol.as_str());
        s.append(" for at least ");
        s.append(self.min_received.as_str());
        s.append(" ");
        s.append(self.buy_symbol.as_str());
        s
    }

    /// The least the order accepts.
    fn minimum_text(&self) -> (r: String)
        ensures
            r@ == min_received_text(*self),
    {
        let mut s: String = self.min_received.clone();
        s.append(" ");
        s.append(self.buy_symbol.as_str());
        s.append(" · ");
        s.append(slippage_label(self.slippage_bps).as_str());
        s.append(" slippage");
        s
    }

    /// The order as typed data, at a time in Unix seconds (zero: not known).
    pub fn to_typed_model(&self, now: u64) -> (r: TypedDataModel)
        ensures
            r@ == order_model(*self, now as nat),
    {
        let mut rows: Vec<TypedRow> = none_of();
        push_text(
            &mut rows,
            "You sell",
            amount_text(self.sell_amount.as_str(), self.sell_symbol.as_str()),
        );
        push_text(
            &mut rows,
            "Receive (est.)",
            amount_text(self.buy_amount.as_str(), self.buy_symbol.as_str()),
        );
        push_text(&mut rows, "Min received", self.minimum_text());
        push_addr(&mut rows, "Receiver", self.receiver);
        push_text(&mut rows, "Order type", "Sell · fill-or-kill".to_owned());
        push_text(&mut rows, "Solver fee", "taken from price (signed fee 0)".to_owned());
        push_text(&mut rows, "Expires", format_expiry(self.valid_to, now));
        push_addr(&mut rows, "Settlement", self.settlement);
        push_text(&mut rows, "Network", self.chain.display_name().to_owned());
        let settles: &str = if self.native {
            "on-chain (native ETH) · costs gas"
        } else {
            "off-chain via solvers · gasless"
        };
        push_text(&mut rows, "Settles", settles.to_owned());
        proof {
            assert(models(rows@) =~= order_rows(*self, now as nat));
        }
        TypedDataModel {
            kind_name: "CoW order — EIP-712 signature".to_owned(),
            headline: Some(self.headline_text()),
            rows,
        }
    }
}

/// The card of typed data: its type, the headline, and a row for each field.
pub fn typed_panel(model: TypedDataModel) -> (r: Vec<Row>)
    ensures
        models(r@) == typed_rows(model@),
{
    let mut rows: Vec<Row> = none_of();
    push_row(&mut rows, Row::Caption(model.kind_name.clone()));
    match &model.headline {
        Some(h) => push_row(&mut rows, Row::Heading(h.clone())),
        None => {},
    }
    let ghost head = models(rows@);
    let n: usize = model.rows.len();
    let mut i: usize = 0;
    proof {
        assert(head + models(model.rows@).take(0) =~= head);
    }
    while i < n
        invariant
            n == model.rows@.len(),
            i <= n,
            models(rows@) == head + models(model.rows@).take(i as int),
        decreases n - i,
    {
        match &model.rows[i].value {
            TypedValue::Text(v) => push_row(
                &mut rows,
                field(model.rows[i].label.as_str(), v.clone()),
            ),
            TypedValue::Addr(a) => push_row(
                &mut rows,
                address_field(model.rows[i].label.as_str(), *a),
            ),
        }
        proof {
            assert(models(rows@) =~= head + models(model.rows@).take(i + 1));
        }
        i = i + 1;
    }
    proof {
        assert(models(rows@) =~= typed_rows(model@));
    }
    rows
}

} // verus!
