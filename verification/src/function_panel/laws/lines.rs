//! What the lines of a panel say of the call that is signed.

use vstd::prelude::*;

use crate::function_panel::address_at;
use crate::function_panel::alphanumeric;
use crate::function_panel::arg_lines;
use crate::function_panel::card_of;
use crate::function_panel::clamped;
use crate::function_panel::cleaned;
use crate::function_panel::clear_signed_lines;
use crate::function_panel::diagnostic_lines;
use crate::function_panel::entry_lines;
use crate::function_panel::entry_shows;
use crate::function_panel::foot;
use crate::function_panel::heuristic_lines;
use crate::function_panel::is_unsafe_display;
use crate::function_panel::item_line;
use crate::function_panel::item_lines;
use crate::function_panel::laws::lemma_strip;
use crate::function_panel::nested_lines;
use crate::function_panel::next_address;
use crate::function_panel::panel;
use crate::function_panel::parts_from;
use crate::function_panel::prose;
use crate::function_panel::raw_lines;
use crate::function_panel::spells_out;
use crate::function_panel::strips;
use crate::function_panel::token_at;
use crate::function_panel::type_text;
use crate::function_panel::type_texts;
use crate::function_panel::unsaid;
use crate::function_panel::warning_text;
use crate::function_panel::ArgDisplay;
use crate::function_panel::DecodeResult;
use crate::function_panel::DecodedCall;
use crate::function_panel::Diagnostic;
use crate::function_panel::DisplayEntry;
use crate::function_panel::DisplayItem;
use crate::function_panel::Headline;
use crate::function_panel::LineModel;
use crate::function_panel::PanelModel;
use crate::function_panel::PartModel;
use crate::function_panel::SolType;
use crate::function_panel::Strips;
use crate::function_panel::Warning;
use crate::primitives::an_address_is_forty_digits;
use crate::primitives::spelled_address;
use crate::primitives::Address;
use crate::text::all_hex;
use crate::text::dec;
use crate::text::hex_bytes;
use crate::text::hex_number;
use crate::text::hex_value;
use crate::text::joined;
use crate::text::laws::lemma_says;
use crate::text::laws::says;
use crate::text::lower_char;
use crate::text::lowered;
use crate::text::models;
use crate::text::trimmed;

verus! {

// ── arguments ───────────────────────────────────────────────────────

/// Whether a text holds nothing that is unsafe to show.
pub open spec fn safe(s: Seq<char>) -> bool {
    forall|i: int| 0 <= i < s.len() ==> !is_unsafe_display(#[trigger] s[i])
}

/// Where the row of an argument stands: behind the warnings that lead.
pub open spec fn row_of(d: DecodedCall, i: int) -> int {
    strips(d.warnings@, Strips::Lead).len() + i
}

/// Each argument of a mechanically decoded call has a row of its own, in order,
/// and all of them come before the warnings at the foot.
pub proof fn each_argument_has_its_row(d: DecodedCall, i: int)
    requires
        0 <= i < d.args@.len(),
    ensures
        row_of(d, i) < heuristic_lines(d).len(),
        heuristic_lines(d)[row_of(d, i)] == arg_lines(d.args@)[i],
        heuristic_lines(d)[row_of(d, i)] matches LineModel::Value { indent, muted, .. } && indent
            == 0 && !muted,
{
}

/// A truth value reads "true" exactly when it is true, and "false" exactly when
/// it is false.
pub proof fn a_truth_value_reads_as_it_is(d: DecodedCall, i: int, b: bool)
    requires
        0 <= i < d.args@.len(),
        d.args@[i].display == ArgDisplay::Bool(b),
    ensures
        heuristic_lines(d)[row_of(d, i)] matches LineModel::Value { value, .. } && (value
            == "true"@) == b && (value == "false"@) == !b,
{
    reveal_strlit("true");
    reveal_strlit("false");
    assert("true"@.len() == 4);
    assert("false"@.len() == 5);
    each_argument_has_its_row(d, i);
}

/// Calls that differ in a truth value have different panels.
pub proof fn opposite_truth_values_look_different(d: DecodedCall, e: DecodedCall, i: int)
    requires
        d.warnings@ == e.warnings@,
        0 <= i < d.args@.len(),
        i < e.args@.len(),
        d.args@[i].display == ArgDisplay::Bool(true),
        e.args@[i].display == ArgDisplay::Bool(false),
    ensures
        heuristic_lines(d) != heuristic_lines(e),
        !(d.state is Empty) && !(e.state is Empty) ==> panel(
            Some(DecodeResult::Heuristic(d)),
            None,
            false,
        ) != panel(Some(DecodeResult::Heuristic(e)), None, false),
{
    a_truth_value_reads_as_it_is(d, i, true);
    a_truth_value_reads_as_it_is(e, i, false);
    each_argument_has_its_row(d, i);
    each_argument_has_its_row(e, i);
}

/// A number is shown digit for digit, whether it is signed or not.
pub proof fn a_number_is_shown_as_it_stands(d: DecodedCall, i: int)
    requires
        0 <= i < d.args@.len(),
    ensures
        d.args@[i].display matches ArgDisplay::Uint { formatted } ==> (heuristic_lines(
            d,
        )[row_of(d, i)] matches LineModel::Value { value, .. } && value == formatted@),
        d.args@[i].display matches ArgDisplay::Int { formatted } ==> (heuristic_lines(
            d,
        )[row_of(d, i)] matches LineModel::Value { value, .. } && value == formatted@),
{
    each_argument_has_its_row(d, i);
}

/// An address argument shows the compact form of that address last, and its
/// name before it where it has one.
pub proof fn an_address_argument_shows_the_address(
    d: DecodedCall,
    i: int,
    addr: Address,
    ens: Option<String>,
)
    requires
        0 <= i < d.args@.len(),
        d.args@[i].display == (ArgDisplay::Address { addr, ens }),
    ensures
        heuristic_lines(d)[row_of(d, i)] matches LineModel::Value { value, .. } && {
            &&& says(value, addr.short_text())
            &&& ens is None ==> value == addr.short_text()
            &&& ens is Some ==> says(value, ens->0@)
            &&& ens is Some ==> value.take(ens->0@.len() as int) == ens->0@
        },
{
    each_argument_has_its_row(d, i);
    let none = Seq::<char>::empty();
    let short = addr.short_text();
    match ens {
        Some(name) => {
            lemma_says(name@ + "  "@, short, none);
            assert(name@ + "  "@ + short + none =~= name@ + "  "@ + short);
            lemma_says(none, name@, "  "@ + short);
            assert(none + name@ + ("  "@ + short) =~= name@ + "  "@ + short);
            assert((name@ + "  "@ + short).take(name@.len() as int) =~= name@);
        },
        None => {
            lemma_says(none, short, none);
            assert(none + short + none =~= short);
        },
    }
}

/// Text, bytes and values of other types are shown in full where they are short
/// and safe: text in quotes, bytes as `0x` and their digits.
pub proof fn a_short_argument_is_shown_in_full(d: DecodedCall, i: int)
    requires
        0 <= i < d.args@.len(),
    ensures
        d.args@[i].display matches ArgDisplay::Text(s) ==> s@.len() <= 48 && safe(s@) ==> (
        heuristic_lines(d)[row_of(d, i)] matches LineModel::Value { value, .. } && value == "\""@
            + s@ + "\""@),
        d.args@[i].display matches ArgDisplay::Raw(s) ==> s@.len() <= 48 && safe(s@) ==> (
        heuristic_lines(d)[row_of(d, i)] matches LineModel::Value { value, .. } && value == s@),
        d.args@[i].display matches ArgDisplay::Bytes(b) ==> b@.len() <= 16 ==> (heuristic_lines(
            d,
        )[row_of(d, i)] matches LineModel::Value { value, .. } && value == "0x"@ + hex_bytes(b@)),
{
    each_argument_has_its_row(d, i);
    match d.args@[i].display {
        ArgDisplay::Text(s) => if safe(s@) {
            lemma_cleaned_safe(s@);
        },
        ArgDisplay::Raw(s) => if safe(s@) {
            lemma_cleaned_safe(s@);
        },
        ArgDisplay::Bytes(b) => {
            lemma_hex_is_safe(b@);
            lemma_cleaned_safe(hex_bytes(b@));
        },
        _ => {},
    }
}

/// Longer ones show where they begin, and an ellipsis for the rest.
pub proof fn a_long_argument_shows_where_it_begins(d: DecodedCall, i: int)
    requires
        0 <= i < d.args@.len(),
    ensures
        d.args@[i].display matches ArgDisplay::Text(s) ==> s@.len() > 48 && safe(s@) ==> (
        heuristic_lines(d)[row_of(d, i)] matches LineModel::Value { value, .. } && value == "\""@
            + (s@.take(48) + "…"@) + "\""@),
        d.args@[i].display matches ArgDisplay::Raw(s) ==> s@.len() > 48 && safe(s@) ==> (
        heuristic_lines(d)[row_of(d, i)] matches LineModel::Value { value, .. } && value == s@.take(
            48,
        ) + "…"@),
        d.args@[i].display matches ArgDisplay::Bytes(b) ==> b@.len() > 16 ==> (heuristic_lines(
            d,
        )[row_of(d, i)] matches LineModel::Value { value, .. } && value == "0x"@ + (hex_bytes(
            b@,
        ).take(32) + "…"@)),
{
    each_argument_has_its_row(d, i);
    match d.args@[i].display {
        ArgDisplay::Text(s) => if safe(s@) {
            lemma_cleaned_safe(s@);
        },
        ArgDisplay::Raw(s) => if safe(s@) {
            lemma_cleaned_safe(s@);
        },
        ArgDisplay::Bytes(b) => {
            lemma_hex_is_safe(b@);
            lemma_cleaned_safe(hex_bytes(b@));
        },
        _ => {},
    }
}

proof fn lemma_hex_is_safe(b: Seq<u8>)
    ensures
        hex_bytes(b).len() == 2 * b.len(),
        safe(hex_bytes(b)),
    decreases b.len(),
{
    if b.len() > 0 {
        let init = b.drop_last();
        lemma_hex_is_safe(init);
        let h = hex_bytes(b);
        assert forall|i: int| 0 <= i < h.len() implies !is_unsafe_display(#[trigger] h[i]) by {
            if i < h.len() - 2 {
                assert(h[i] == hex_bytes(init)[i]);
            }
        }
    }
}

/// The label of an argument says its type, and its name where it has one.
pub proof fn an_argument_is_labelled(d: DecodedCall, i: int)
    requires
        0 <= i < d.args@.len(),
    ensures
        heuristic_lines(d)[row_of(d, i)] matches LineModel::Value { label, .. } && {
            let a = d.args@[i];
            &&& says(label, type_text(a.ty))
            &&& a.name matches Some(n) ==> n@.len() > 0 ==> label == "· "@ + n@ + ": "@ + type_text(
                a.ty,
            )
            &&& a.name is None || a.name->0@.len() == 0 ==> label == "· "@ + type_text(a.ty)
        },
{
    each_argument_has_its_row(d, i);
    let a = d.args@[i];
    let ty = type_text(a.ty);
    let none = Seq::<char>::empty();
    lemma_says("· "@, ty, none);
    assert("· "@ + ty + none =~= "· "@ + ty);
    if let Some(n) = a.name {
        lemma_says("· "@ + n@ + ": "@, ty, none);
        assert("· "@ + n@ + ": "@ + ty + none =~= "· "@ + n@ + ": "@ + ty);
    }
}

/// A value on a line of its own is one too long to stand beside its label.
pub proof fn only_long_values_are_stacked(d: DecodedCall, i: int)
    requires
        0 <= i < d.args@.len(),
    ensures
        heuristic_lines(d)[row_of(d, i)] matches LineModel::Value { value, stacked, .. } && stacked
            == (value.len() > 20),
{
    each_argument_has_its_row(d, i);
}

/// The types are written as Solidity writes them.
pub proof fn types_are_written_as_in_solidity(
    inner: Box<SolType>,
    items: Vec<SolType>,
    n: usize,
    name: String,
    a: SolType,
    b: SolType,
)
    ensures
        type_text(SolType::Address) == "address"@,
        type_text(SolType::Bool) == "bool"@,
        type_text(SolType::Text) == "string"@,
        type_text(SolType::Bytes) == "bytes"@,
        type_text(SolType::Function) == "function"@,
        type_text(SolType::FixedBytes(n)) == "bytes"@ + dec(n as nat),
        type_text(SolType::Uint(n)) == "uint"@ + dec(n as nat),
        type_text(SolType::Int(n)) == "int"@ + dec(n as nat),
        type_text(SolType::CustomStruct(name)) == name@,
        type_text(SolType::Array(inner)) == type_text(*inner) + "[]"@,
        type_text(SolType::FixedArray(inner, n)) == type_text(*inner) + "["@ + dec(n as nat)
            + "]"@,
        items@ == seq![a, b] ==> type_text(SolType::Tuple(items)) == "("@ + type_text(a) + ","@
            + type_text(b) + ")"@,
{
    if items@ == seq![a, b] {
        reveal_with_fuel(type_texts, 3);
        reveal_with_fuel(joined, 3);
        assert(items@.drop_last() =~= seq![a]);
        assert(items@.drop_last().drop_last() =~= seq![]);
        let texts = type_texts(items@);
        assert(texts =~= seq![type_text(a), type_text(b)]);
        assert(texts.drop_last() =~= seq![type_text(a)]);
        assert(type_text(SolType::Tuple(items)) =~= "("@ + type_text(a) + ","@ + type_text(b)
            + ")"@);
    }
}

/// A tuple lists the types of all its members, in order.
pub proof fn a_tuple_lists_its_members(items: Vec<SolType>, texts: Seq<Seq<char>>)
    requires
        texts.len() == items@.len(),
        forall|i: int| 0 <= i < texts.len() ==> #[trigger] texts[i] == type_text(items@[i]),
    ensures
        type_text(SolType::Tuple(items)) == "("@ + joined(texts, ","@) + ")"@,
{
    lemma_type_texts(items@, texts);
}

proof fn lemma_type_texts(items: Seq<SolType>, texts: Seq<Seq<char>>)
    requires
        texts.len() == items.len(),
        forall|i: int| 0 <= i < texts.len() ==> #[trigger] texts[i] == type_text(items[i]),
    ensures
        type_texts(items) == texts,
    decreases items.len(),
{
    if items.len() > 0 {
        let init = items.drop_last();
        let t = texts.drop_last();
        assert forall|i: int| 0 <= i < t.len() implies #[trigger] t[i] == type_text(init[i]) by {
            assert(t[i] == texts[i]);
        }
        lemma_type_texts(init, t);
        assert(type_texts(items) =~= texts);
    } else {
        assert(type_texts(items) =~= texts);
    }
}

/// A call nothing is known of shows its calldata.
pub proof fn an_unknown_call_shows_its_calldata(d: DecodedCall)
    ensures
        d.state is Unknown && d.args@.len() == 0 && d.raw_calldata@.len() <= 32
            ==> heuristic_lines(d)[row_of(d, 0)] == (LineModel::Value {
            indent: 0,
            label: "· raw"@,
            value: "0x"@ + hex_bytes(d.raw_calldata@),
            stacked: 2 + 2 * d.raw_calldata@.len() > 20,
            muted: true,
        }),
        d.state is Unknown && d.args@.len() == 0 && d.raw_calldata@.len() > 32
            ==> heuristic_lines(d)[row_of(d, 0)] == (LineModel::Value {
            indent: 0,
            label: "· raw"@,
            value: "0x"@ + (hex_bytes(d.raw_calldata@).take(64) + "…"@),
            stacked: true,
            muted: true,
        }),
        d.state is Unknown && d.args@.len() == 0 ==> heuristic_lines(d).len() == strips(
            d.warnings@,
            Strips::Lead,
        ).len() + 1 + foot(strips(d.warnings@, Strips::Foot)).len(),
        !(d.state is Unknown) || d.args@.len() > 0 ==> heuristic_lines(d).len() == strips(
            d.warnings@,
            Strips::Lead,
        ).len() + d.args@.len() + foot(strips(d.warnings@, Strips::Foot)).len(),
{
    reveal_strlit("0x");
    lemma_hex_is_safe(d.raw_calldata@);
    lemma_cleaned_safe(hex_bytes(d.raw_calldata@));
    reveal_strlit("…");
    if d.state is Unknown && d.args@.len() == 0 {
        assert(raw_lines(d).len() == 1);
        assert(heuristic_lines(d)[row_of(d, 0)] == raw_lines(d)[0]);
    }
}

// ── cutting and cleaning ────────────────────────────────────────────

proof fn lemma_cleaned_safe(s: Seq<char>)
    ensures
        safe(s) ==> cleaned(s) == s,
    decreases s.len(),
{
    if safe(s) && s.len() > 0 {
        let init = s.drop_last();
        assert forall|i: int| 0 <= i < init.len() implies !is_unsafe_display(
            #[trigger] init[i],
        ) by {
            assert(init[i] == s[i]);
        }
        lemma_cleaned_safe(init);
        assert(!is_unsafe_display(s[s.len() - 1]));
        assert(init.push(s.last()) =~= s);
    }
}

/// Cleaning goes character by character: an unsafe one is left out, a safe one
/// is kept in its place.
pub proof fn cleaning_leaves_out_the_unsafe(a: Seq<char>, b: Seq<char>, c: char)
    ensures
        cleaned(a + b) == cleaned(a) + cleaned(b),
        is_unsafe_display(c) ==> cleaned(a.push(c)) == cleaned(a),
        !is_unsafe_display(c) ==> cleaned(a.push(c)) == cleaned(a).push(c),
    decreases b.len(),
{
    assert(a.push(c).drop_last() =~= a);
    if b.len() > 0 {
        assert((a + b).drop_last() =~= a + b.drop_last());
        cleaning_leaves_out_the_unsafe(a, b.drop_last(), c);
        assert(cleaned(a + b) =~= cleaned(a) + cleaned(b));
    } else {
        assert(a + b =~= a);
        assert(cleaned(a + b) =~= cleaned(a) + cleaned(b));
    }
}

/// Control characters, the marks that turn the direction of writing and those that
/// cannot be seen are unsafe to show; every other character is safe.
pub proof fn what_is_unsafe_to_show(c: char)
    ensures
        ' ' <= c && c <= '~' ==> !is_unsafe_display(c),
        ({
            let u = c as u32;
            &&& u <= 0x1f || 0x7f <= u <= 0x9f ==> is_unsafe_display(c)
            &&& 0x202a <= u <= 0x202e || 0x2066 <= u <= 0x2069 ==> is_unsafe_display(c)
            &&& u == 0x61c || u == 0x200e || u == 0x200f ==> is_unsafe_display(c)
            &&& u == 0xad || u == 0x180e || 0x200b <= u <= 0x200d || u == 0xfeff
                ==> is_unsafe_display(c)
            &&& u == 0x2028 || u == 0x2029 || 0x2060 <= u <= 0x206f ==> is_unsafe_display(c)
            &&& 0xa0 <= u <= 0x1fff && u != 0xad && u != 0x61c && u != 0x180e
                ==> !is_unsafe_display(c)
            &&& 0x2000 <= u <= 0x200a || 0x2010 <= u <= 0x2027 || 0x202f <= u <= 0x205f
                ==> !is_unsafe_display(c)
            &&& u >= 0x2070 && u != 0xfeff ==> !is_unsafe_display(c)
        }),
{
}

/// Text that is too long is cut after its first characters, and an ellipsis says
/// so.
pub proof fn long_text_is_cut(s: Seq<char>, max: nat)
    requires
        safe(s),
        s.len() > max,
    ensures
        clamped(s, max).len() == max + 1,
        clamped(s, max).take(max as int) == s.take(max as int),
        clamped(s, max).last() == '…',
{
    reveal_strlit("…");
    lemma_cleaned_safe(s);
    assert(clamped(s, max).take(max as int) =~= s.take(max as int));
}

// ── entries of a descriptor ─────────────────────────────────────────

/// An item shows its label, and its value: as the address where it spells one,
/// and else as text.
pub proof fn an_item_shows_its_value(label: Seq<char>, value: Seq<char>, indent: int)
    ensures
        spelled_address(trimmed(value)) matches Some(a) ==> item_line(label, value, indent) == (
        LineModel::Address { indent, label: "· "@ + label, addr: a }),
        spelled_address(trimmed(value)) is None ==> (item_line(
            label,
            value,
            indent,
        ) matches LineModel::Value { indent: at, label: l, value: v, muted, .. } && at == indent
            && l == "· "@ + label && !muted && (value.len() <= 48 && safe(value) ==> v == value) && (
        value.len() > 48 && safe(value) ==> v == value.take(48) + "…"@)),
{
    lemma_cleaned_safe(value);
}

/// An item that the headline did not say has one line, at its depth.
pub proof fn an_unsaid_item_has_a_line(item: DisplayItem, depth: nat, said: Option<Seq<char>>)
    requires
        !spells_out(said, item.value@),
    ensures
        entry_lines(DisplayEntry::Item(item), depth, said).len() == 1,
        entry_lines(DisplayEntry::Item(item), depth, said)[0] == item_line(
            item.label@,
            item.value@,
            12 * depth as int,
        ),
{
}

/// A group shows its label, and beneath it each item that was not said, in
/// order; without one it shows nothing.
pub proof fn a_group_shows_its_unsaid_items(
    label: String,
    items: Vec<DisplayItem>,
    depth: nat,
    said: Option<Seq<char>>,
)
    ensures
        ({
            let lines = entry_lines(DisplayEntry::Group { label, items }, depth, said);
            let kept = unsaid(items@, said);
            &&& kept.len() == 0 ==> lines.len() == 0
            &&& kept.len() > 0 ==> lines.len() == 1 + kept.len() && lines[0] == (
            LineModel::Heading { indent: 12 * depth as int, label: label@ })
            &&& forall|i: int|
                0 <= i < kept.len() ==> #[trigger] lines[1 + i] == item_line(
                    kept[i].label@,
                    kept[i].value@,
                    12 * depth as int + 8,
                )
        }),
        said is None ==> unsaid(items@, said) == items@,
{
    if said is None {
        lemma_all_unsaid(items@);
    }
    let kept = unsaid(items@, said);
    let lines = entry_lines(DisplayEntry::Group { label, items }, depth, said);
    assert forall|i: int| 0 <= i < kept.len() implies #[trigger] lines[1 + i] == item_line(
        kept[i].label@,
        kept[i].value@,
        12 * depth as int + 8,
    ) by {
        assert(lines[1 + i] == item_lines(kept, 12 * depth as int + 8)[i]);
    }
}

proof fn lemma_all_unsaid(items: Seq<DisplayItem>)
    ensures
        unsaid(items, None) == items,
    decreases items.len(),
{
    if items.len() > 0 {
        lemma_all_unsaid(items.drop_last());
        assert(items.drop_last().push(items.last()) =~= items);
    }
}

/// A nested call shows what it is called and what it is for, and then all that
/// its entries show, one step deeper.
pub proof fn a_nested_call_shows_its_entries(
    label: String,
    intent: String,
    entries: Vec<DisplayEntry>,
    depth: nat,
    said: Option<Seq<char>>,
)
    ensures
        ({
            let lines = entry_lines(DisplayEntry::Nested { label, intent, entries }, depth, said);
            &&& lines[0] == (LineModel::Nested {
                indent: 12 * depth as int,
                label: label@,
                intent: intent@,
            })
            &&& lines.skip(1) == nested_lines(entries@, depth + 1, said)
        }),
{
    let lines = entry_lines(DisplayEntry::Nested { label, intent, entries }, depth, said);
    assert(lines.skip(1) =~= nested_lines(entries@, depth + 1, said));
}

/// The entries of a panel stand in order, each with all of its lines.
pub proof fn every_entry_is_shown(
    entries: Seq<DisplayEntry>,
    depth: nat,
    said: Option<Seq<char>>,
    i: int,
)
    requires
        0 <= i < entries.len(),
    ensures
        ({
            let all = nested_lines(entries, depth, said);
            let own = entry_lines(entries[i], depth, said);
            let before = nested_lines(entries.take(i), depth, said);
            &&& before.len() + own.len() <= all.len()
            &&& i == entries.len() - 1 ==> all.len() == before.len() + own.len()
            &&& all.subrange(before.len() as int, (before.len() + own.len()) as int) == own
        }),
    decreases entries.len(),
{
    let all = nested_lines(entries, depth, said);
    let own = entry_lines(entries[i], depth, said);
    let before = nested_lines(entries.take(i), depth, said);
    let init = entries.drop_last();
    if i < init.len() {
        every_entry_is_shown(init, depth, said, i);
        assert(init.take(i) =~= entries.take(i));
        let rest = nested_lines(init, depth, said);
        assert(all.subrange(before.len() as int, (before.len() + own.len()) as int)
            =~= rest.subrange(before.len() as int, (before.len() + own.len()) as int));
    } else {
        assert(entries.take(i) =~= init);
        assert(all.subrange(before.len() as int, (before.len() + own.len()) as int) =~= own);
    }
}

/// An entry shows something exactly when some value of it was not said, or it is
/// a call of its own.
pub proof fn an_entry_shows_what_was_not_said(entry: DisplayEntry, said: Option<Seq<char>>)
    ensures
        entry matches DisplayEntry::Item(item) ==> entry_shows(entry, said) == !spells_out(
            said,
            item.value@,
        ),
        entry is Nested ==> entry_shows(entry, said),
        said is None && !(entry is Group) ==> entry_shows(entry, said),
        entry matches DisplayEntry::Group { items, .. } ==> (forall|i: int|
            0 <= i < items@.len() && !spells_out(said, (#[trigger] items@[i]).value@)
                ==> entry_shows(entry, said)),
        entry matches DisplayEntry::Group { items, .. } ==> (forall|i: int|
            0 <= i < items@.len() ==> spells_out(said, (#[trigger] items@[i]).value@))
            ==> !entry_shows(entry, said),
{
}

// ── what was said ───────────────────────────────────────────────────

/// A value that stands in the sentence as a word of its own was said, however it
/// is cased.
pub proof fn a_word_of_the_sentence_was_said(before: Seq<char>, value: Seq<char>, after: Seq<char>)
    requires
        value.len() > 0,
        trimmed(value) == value,
        before.len() > 0 ==> !alphanumeric(lower_char(before.last())),
        after.len() > 0 ==> !alphanumeric(lower_char(after[0])),
    ensures
        spells_out(Some(before + value + after), value),
{
    let s = before + value + after;
    let i = before.len() as int;
    assert(lowered(s).subrange(i, i + lowered(value).len()) =~= lowered(value));
    if before.len() > 0 {
        assert(lowered(s)[i - 1] == lower_char(before.last()));
    }
    if after.len() > 0 {
        assert(lowered(s)[i + value.len() as int] == lower_char(after[0]));
    }
    assert(token_at(lowered(s), lowered(trimmed(value)), i));
}

/// A value that does not stand in the sentence was not said, nor one that is
/// only part of a longer word there.
pub proof fn only_a_word_of_the_sentence_was_said(said: Seq<char>, value: Seq<char>)
    requires
        spells_out(Some(said), value),
    ensures
        exists|i: int|
            {
                &&& 0 <= i
                &&& i + trimmed(value).len() <= said.len()
                &&& lowered(#[trigger] said.subrange(i, i + trimmed(value).len())) == lowered(
                    trimmed(value),
                )
                &&& i > 0 ==> !alphanumeric(lower_char(said[i - 1]))
                &&& i + trimmed(value).len() < said.len() ==> !alphanumeric(
                    lower_char(said[i + trimmed(value).len() as int]),
                )
            },
{
    let needle = lowered(trimmed(value));
    let i = choose|i: int| token_at(lowered(said), needle, i);
    let n = trimmed(value).len() as int;
    assert(lowered(said.subrange(i, i + n)) =~= lowered(said).subrange(i, i + n));
    if i > 0 {
        assert(lowered(said)[i - 1] == lower_char(said[i - 1]));
    }
    if i + n < said.len() {
        assert(lowered(said)[i + n] == lower_char(said[i + n]));
    }
}

// ── warnings ────────────────────────────────────────────────────────

/// An approval without limit says who may spend.
pub proof fn an_unlimited_approval_names_the_spender(spender: Address)
    ensures
        warning_text(Warning::InfiniteApproval { spender }) == "⚠ infinite approval to "@
            + spender.short_text(),
        warning_text(Warning::UnverifiedBytecode)
            == "⚠ bytecode read fell back to unverified RPC"@,
{
}

/// An ambiguous signature says all that it may stand for, as far as that fits.
pub proof fn an_ambiguous_signature_says_its_candidates(candidates: Vec<String>)
    ensures
        ({
            let list = joined(models(candidates@), ", "@);
            list.len() <= 60 && safe(list) ==> warning_text(
                Warning::AmbiguousSignature { candidates },
            ) == "⚠ ambiguous: "@ + list
        }),
{
    lemma_cleaned_safe(joined(models(candidates@), ", "@));
}

/// A signature that the code on chain does not have is called a possible spoof,
/// and what was claimed is said as far as that fits.
pub proof fn a_spoof_says_what_was_claimed(candidates: Vec<String>)
    ensures
        ({
            let list = joined(models(candidates@), ", "@);
            let t = warning_text(Warning::BytecodeMismatch { candidates });
            &&& t.take(16) == "⚠ possible spoof"@
            &&& list.len() <= 48 && safe(list) ==> says(t, list)
        }),
{
    let list = joined(models(candidates@), ", "@);
    let t = warning_text(Warning::BytecodeMismatch { candidates });
    let head = "⚠ possible spoof — on-chain code matches no known signature (claimed: "@;
    lemma_cleaned_safe(list);
    if list.len() <= 48 && safe(list) {
        lemma_says(head, list, ")"@);
    }
    reveal_strlit("⚠ possible spoof — on-chain code matches no known signature (claimed: ");
    reveal_strlit("⚠ possible spoof");
    assert(t.take(16) =~= "⚠ possible spoof"@);
}

/// Calldata that the arguments do not account for is counted in bytes: those not
/// shown, those decoded, and all there are.
pub proof fn bytes_not_shown_are_counted(decoded: usize, total: usize)
    requires
        decoded <= total,
    ensures
        ({
            let t = warning_text(Warning::UnaccountedCalldata { decoded, total });
            &&& says(t, "⚠ "@ + dec((total - decoded) as nat) + " byte(s) of calldata are not shown"@)
            &&& says(t, dec(decoded as nat) + " of "@ + dec(total as nat))
        }),
{
    let n = dec((total - decoded) as nat);
    let d = dec(decoded as nat);
    let e = dec(total as nat);
    let tail = lemma_prefix();
    lemma_counts("⚠ "@, n, " byte(s) of calldata are not shown"@, tail, d, " of "@, e);
}

proof fn lemma_counts(
    a: Seq<char>,
    n: Seq<char>,
    part: Seq<char>,
    tail: Seq<char>,
    d: Seq<char>,
    of: Seq<char>,
    e: Seq<char>,
)
    ensures
        says(a + n + (part + tail) + d + of + e, a + n + part),
        says(a + n + (part + tail) + d + of + e, d + of + e),
{
    let none = Seq::<char>::empty();
    let whole = a + n + (part + tail) + d + of + e;
    assert(none + (a + n + part) + (tail + d + of + e) =~= whole);
    lemma_says(none, a + n + part, tail + d + of + e);
    assert(a + n + (part + tail) + (d + of + e) + none =~= whole);
    lemma_says(a + n + (part + tail), d + of + e, none);
}

proof fn lemma_prefix() -> (tail: Seq<char>)
    ensures
        " byte(s) of calldata are not shown above — the arguments account for "@
            == " byte(s) of calldata are not shown"@ + tail,
{
    reveal_strlit(" byte(s) of calldata are not shown above — the arguments account for ");
    reveal_strlit(" byte(s) of calldata are not shown");
    let mid = " byte(s) of calldata are not shown above — the arguments account for "@;
    let part = " byte(s) of calldata are not shown"@;
    let tail = mid.skip(part.len() as int);
    assert(mid =~= part + tail);
    tail
}

/// Whether a line is the strip of one of the warnings that `chosen` picks.
pub open spec fn is_strip_of(line: LineModel, ws: Seq<Warning>, which: Strips) -> bool {
    exists|i: int|
        0 <= i < ws.len() && line == LineModel::Strip(warning_text(#[trigger] ws[i])) && match which
        {
            Strips::Lead => ws[i] is AmbiguousSignature || ws[i] is BytecodeMismatch,
            Strips::Doubt => ws[i] is AmbiguousSignature || ws[i] is BytecodeMismatch || ws[i]
                is UnaccountedCalldata,
            Strips::Foot => !(ws[i] is AmbiguousSignature) && !(ws[i] is BytecodeMismatch),
        }
}

/// The warnings that cast doubt on the name of a call lead, those that only
/// qualify it are at the foot, and every strip is the text of a warning.
pub proof fn warnings_stand_where_they_belong(ws: Seq<Warning>, which: Strips)
    ensures
        forall|k: int|
            0 <= k < strips(ws, which).len() ==> is_strip_of(
                #[trigger] strips(ws, which)[k],
                ws,
                which,
            ),
    decreases ws.len(),
{
    if ws.len() > 0 {
        let init = ws.drop_last();
        warnings_stand_where_they_belong(init, which);
        let rest = strips(init, which);
        let all = strips(ws, which);
        assert forall|k: int| 0 <= k < all.len() implies is_strip_of(
            #[trigger] all[k],
            ws,
            which,
        ) by {
            if k < rest.len() {
                assert(all[k] == rest[k]);
                let i = choose|i: int|
                    0 <= i < init.len() && rest[k] == LineModel::Strip(
                        warning_text(#[trigger] init[i]),
                    ) && match which {
                        Strips::Lead => init[i] is AmbiguousSignature || init[i]
                            is BytecodeMismatch,
                        Strips::Doubt => init[i] is AmbiguousSignature || init[i]
                            is BytecodeMismatch || init[i] is UnaccountedCalldata,
                        Strips::Foot => !(init[i] is AmbiguousSignature) && !(init[i]
                            is BytecodeMismatch),
                    };
                assert(ws[i] == init[i]);
            } else {
                assert(all[k] == LineModel::Strip(warning_text(ws[ws.len() - 1])));
            }
        }
    }
}

/// A warning that casts doubt on what a call is named is met before any of its
/// arguments, and one that casts doubt on a descriptor before any of its entries.
pub proof fn doubt_is_met_first(
    d: DecodedCall,
    entries: Seq<DisplayEntry>,
    diagnostics: Seq<Diagnostic>,
    said: Option<Seq<char>>,
    i: int,
)
    requires
        0 <= i < d.warnings@.len(),
    ensures
        d.warnings@[i] is AmbiguousSignature || d.warnings@[i] is BytecodeMismatch ==> exists|
            k: int,
        |
            0 <= k < row_of(d, 0) && #[trigger] heuristic_lines(d)[k] == LineModel::Strip(
                warning_text(d.warnings@[i]),
            ),
        d.warnings@[i] is AmbiguousSignature || d.warnings@[i] is BytecodeMismatch
            || d.warnings@[i] is UnaccountedCalldata ==> exists|k: int|
            0 <= k < strips(d.warnings@, Strips::Doubt).len() && #[trigger] clear_signed_lines(
                entries,
                diagnostics,
                d.warnings@,
                said,
            )[k] == LineModel::Strip(warning_text(d.warnings@[i])),
{
    let ws = d.warnings@;
    let line = LineModel::Strip(warning_text(ws[i]));
    if ws[i] is AmbiguousSignature || ws[i] is BytecodeMismatch {
        lemma_strip(ws, Strips::Lead, i);
        let lead = strips(ws, Strips::Lead);
        let k = choose|k: int| 0 <= k < lead.len() && lead[k] == line;
        assert(heuristic_lines(d)[k] == line);
    }
    if ws[i] is AmbiguousSignature || ws[i] is BytecodeMismatch || ws[i] is UnaccountedCalldata {
        lemma_strip(ws, Strips::Doubt, i);
        let lead = strips(ws, Strips::Doubt);
        let k = choose|k: int| 0 <= k < lead.len() && lead[k] == line;
        assert(clear_signed_lines(entries, diagnostics, ws, said)[k] == line);
    }
}

/// What stands at the foot is parted from the rest by a gap, and nothing at all
/// stands there without one.
pub proof fn a_gap_parts_the_foot(lines: Seq<LineModel>)
    ensures
        lines.len() == 0 ==> foot(lines).len() == 0,
        lines.len() > 0 ==> foot(lines).len() == lines.len() + 1 && foot(lines)[0] == LineModel::Gap
            && foot(lines).skip(1) == lines,
{
    if lines.len() > 0 {
        assert(foot(lines).skip(1) =~= lines);
    }
}

/// The warnings that only qualify a call end its panel, behind a gap.
pub proof fn qualifications_end_the_panel(d: DecodedCall)
    ensures
        ({
            let tail = foot(strips(d.warnings@, Strips::Foot));
            let all = heuristic_lines(d);
            all.skip(all.len() - tail.len()) == tail
        }),
{
    let tail = foot(strips(d.warnings@, Strips::Foot));
    let all = heuristic_lines(d);
    assert(all.skip(all.len() - tail.len()) =~= tail);
}

/// How many of a descriptor's remarks are warnings.
pub open spec fn warnings_among(s: Seq<Diagnostic>) -> nat
    decreases s.len(),
{
    if s.len() == 0 {
        0
    } else {
        warnings_among(s.drop_last()) + (if s.last().is_warning {
            1nat
        } else {
            0
        })
    }
}

/// Every warning of a descriptor is shown beneath the entries, as it stands, and
/// its remarks are not.
pub proof fn descriptor_warnings_are_shown(s: Seq<Diagnostic>, i: int)
    requires
        0 <= i < s.len(),
        s[i].is_warning,
    ensures
        diagnostic_lines(s).contains(LineModel::Strip("⚠ "@ + s[i].message@)),
        diagnostic_lines(s).len() == warnings_among(s),
    decreases s.len(),
{
    let line = LineModel::Strip("⚠ "@ + s[i].message@);
    let init = s.drop_last();
    let rest = diagnostic_lines(init);
    lemma_diagnostics_counted(s);
    if i < init.len() {
        descriptor_warnings_are_shown(init, i);
        assert(init[i] == s[i]);
        let k = choose|k: int| 0 <= k < rest.len() && rest[k] == line;
        assert(diagnostic_lines(s)[k] == line);
    } else {
        assert(diagnostic_lines(s)[rest.len() as int] == line);
    }
}

proof fn lemma_diagnostics_counted(s: Seq<Diagnostic>)
    ensures
        diagnostic_lines(s).len() == warnings_among(s),
    decreases s.len(),
{
    if s.len() > 0 {
        lemma_diagnostics_counted(s.drop_last());
    }
}

/// A descriptor's panel is what casts doubt on it, then all of its entries, then
/// its own warnings behind a gap; nothing else.
pub proof fn a_descriptor_panel_is_complete(
    entries: Seq<DisplayEntry>,
    diagnostics: Seq<Diagnostic>,
    warnings: Seq<Warning>,
    said: Option<Seq<char>>,
)
    ensures
        ({
            let lines = clear_signed_lines(entries, diagnostics, warnings, said);
            let lead = strips(warnings, Strips::Doubt).len() as int;
            let body = nested_lines(entries, 0, said);
            let tail = diagnostic_lines(diagnostics);
            &&& lines.subrange(lead, lead + body.len()) == body
            &&& tail.len() == 0 ==> lines.len() == lead + body.len()
            &&& tail.len() > 0 ==> lines.len() == lead + body.len() + 1 + tail.len()
            &&& tail.len() > 0 ==> lines[lead + body.len()] == LineModel::Gap
            &&& tail.len() > 0 ==> lines.skip(lead + body.len() + 1) == tail
        }),
{
    let lines = clear_signed_lines(entries, diagnostics, warnings, said);
    let lead = strips(warnings, Strips::Doubt).len() as int;
    let body = nested_lines(entries, 0, said);
    let tail = diagnostic_lines(diagnostics);
    assert(lines.subrange(lead, lead + body.len()) =~= body);
    if tail.len() > 0 {
        assert(lines.skip(lead + body.len() + 1) =~= tail);
    }
}

/// Which panel a decode gets: none while there is nothing to show, a notice while
/// it is under way, and the lines of whatever was decoded.
pub proof fn a_decode_gets_its_panel(decoded: Option<DecodeResult>, said: Option<Seq<char>>)
    ensures
        panel(decoded, said, true) == Some(PanelModel::Loading),
        decoded is None || decoded == Some(DecodeResult::Empty) ==> panel(decoded, said, false)
            is None,
        decoded matches Some(DecodeResult::Heuristic(d)) ==> d.state is Empty ==> panel(
            decoded,
            said,
            false,
        ) is None,
        decoded matches Some(DecodeResult::Heuristic(d)) ==> !(d.state is Empty)
            && heuristic_lines(d).len() > 0 ==> panel(decoded, said, false) == Some(
            PanelModel::Lines(heuristic_lines(d)),
        ),
        decoded matches Some(DecodeResult::ClearSigned { entries, diagnostics, warnings }) ==> {
            let lines = clear_signed_lines(entries@, diagnostics@, warnings@, said);
            &&& lines.len() > 0 ==> panel(decoded, said, false) == Some(PanelModel::Lines(lines))
            &&& lines.len() == 0 ==> panel(decoded, said, false) is None
        },
        decoded matches Some(DecodeResult::Fallback { entries, diagnostics, heuristic }) ==> {
            let lines = clear_signed_lines(entries@, diagnostics@, heuristic.warnings@, said);
            &&& lines.len() > 0 ==> panel(decoded, said, false) == Some(PanelModel::Lines(lines))
            &&& lines.len() == 0 ==> panel(decoded, said, false) is None
        },
{
}

// ── the headline ────────────────────────────────────────────────────

/// A headline carries its note, its caution, and whether a proxy stands between;
/// it is muted exactly when something undermines it.
pub proof fn a_headline_carries_what_qualifies_it(h: Headline)
    ensures
        card_of(h).muted == (h.caution is Some),
        h.caution matches Some(c) ==> card_of(h).caution == Some(c@),
        h.caution is None ==> card_of(h).caution is None,
        h.note matches Some(n) ==> card_of(h).note == Some(n@),
        h.note is None ==> card_of(h).note is None,
        h.via_proxy ==> card_of(h).proxy_note == Some("(via proxy)"@),
        !h.via_proxy ==> card_of(h).proxy_note is None,
        card_of(h).parts == parts_from(h.text@, 0),
{
}

/// The first address of a sentence is lifted out of it: the prose before it comes
/// first, then exactly that address, and then whatever follows.
pub proof fn an_address_is_lifted_out(s: Seq<char>, from: int, i: int)
    requires
        0 <= from <= i,
        address_at(s, i),
        forall|k: int| from <= k < i ==> !address_at(s, k),
    ensures
        parts_from(s, from) == prose(s.subrange(from, i)) + seq![
            PartModel::Addr(spelled_address(s.subrange(i, i + 42))->0),
        ] + parts_from(s, i + 42),
        spelled_address(s.subrange(i, i + 42)) matches Some(a) && a.value() == hex_number(
            s.subrange(i + 2, i + 42),
        ),
{
    lemma_next_address(s, from, i);
    let t = s.subrange(i, i + 42);
    assert(t.skip(2) =~= s.subrange(i + 2, i + 42));
    assert(t[0] == '0' && t[1] == 'x');
    an_address_is_forty_digits(t);
}

/// What follows the last address is prose.
pub proof fn the_end_of_a_sentence_is_prose(s: Seq<char>, from: int)
    requires
        0 <= from <= s.len(),
        forall|k: int| from <= k ==> !address_at(s, k),
    ensures
        parts_from(s, from) == prose(s.subrange(from, s.len() as int)),
{
    lemma_no_more_addresses(s, from);
}

proof fn lemma_no_more_addresses(s: Seq<char>, from: int)
    requires
        0 <= from <= s.len(),
        forall|k: int| from <= k ==> !address_at(s, k),
    ensures
        next_address(s, from) == s.len(),
    decreases s.len() - from,
{
    if from < s.len() {
        lemma_no_more_addresses(s, from + 1);
    }
}

proof fn lemma_next_address(s: Seq<char>, from: int, i: int)
    requires
        0 <= from <= i,
        address_at(s, i),
        forall|k: int| from <= k < i ==> !address_at(s, k),
    ensures
        next_address(s, from) == i,
    decreases i - from,
{
    if from < i {
        lemma_next_address(s, from + 1, i);
    }
}

/// What counts as an address in a sentence: `0x` and forty digits, of which no
/// more follow. A hash is none.
pub proof fn a_hash_is_not_an_address(s: Seq<char>, i: int)
    ensures
        0 <= i && i + 42 <= s.len() && s[i] == '0' && s[i + 1] == 'x' && all_hex(
            s.subrange(i + 2, i + 42),
        ) && i + 42 == s.len() ==> address_at(s, i),
        0 <= i && i + 42 < s.len() && s[i] == '0' && s[i + 1] == 'x' && all_hex(
            s.subrange(i + 2, i + 42),
        ) ==> address_at(s, i) == (hex_value(s[i + 42]) is None),
        address_at(s, i) ==> s[i] == '0' && s[i + 1] == 'x',
{
}

/// Prose without an address is kept, but for the white space around it; white
/// space alone leaves nothing.
pub proof fn prose_is_kept(s: Seq<char>)
    ensures
        trimmed(s).len() > 0 ==> prose(s) == seq![PartModel::Text(trimmed(s))],
        trimmed(s).len() == 0 ==> prose(s).len() == 0,
{
}

} // verus!
