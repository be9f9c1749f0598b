//! What holds of every headline and every panel.

use vstd::prelude::*;

use crate::function_panel::address_at;
use crate::function_panel::belongs;
use crate::function_panel::clamped;
use crate::function_panel::cleaned;
use crate::function_panel::clear_signed_lines;
use crate::function_panel::entry_lines;
use crate::function_panel::foot;
use crate::function_panel::heuristic_lines;
use crate::function_panel::is_unsafe_display;
use crate::function_panel::next_address;
use crate::function_panel::panel_of;
use crate::function_panel::parts_from;
use crate::function_panel::prose;
use crate::function_panel::spells_out;
use crate::function_panel::strips;
use crate::function_panel::unsaid;
use crate::function_panel::warning_text;
use crate::function_panel::DecodedCall;
use crate::function_panel::Diagnostic;
use crate::function_panel::DisplayEntry;
use crate::function_panel::DisplayItem;
use crate::function_panel::LineModel;
use crate::function_panel::PartModel;
use crate::function_panel::ResolutionState;
use crate::function_panel::Strips;
use crate::function_panel::Warning;
use crate::text::is_space;
use crate::text::lower_char;
use crate::text::lowered;
use crate::text::trimmed;
use crate::text::trimmed_end;
use crate::text::trimmed_start;

pub mod lines;
pub mod views;

verus! {

/// What the panel keeps of a group is what the headline did not say: every kept
/// item is unsaid, and every unsaid item is kept.
pub proof fn a_said_value_is_not_repeated(items: Seq<DisplayItem>, said: Option<Seq<char>>)
    ensures
        forall|i: int|
            0 <= i < unsaid(items, said).len() ==> !spells_out(
                said,
                (#[trigger] unsaid(items, said)[i]).value@,
            ),
        forall|i: int|
            0 <= i < items.len() && !spells_out(said, (#[trigger] items[i]).value@) ==> unsaid(
                items,
                said,
            ).contains(items[i]),
    decreases items.len(),
{
    if items.len() > 0 {
        let init = items.drop_last();
        let kept = unsaid(init, said);
        a_said_value_is_not_repeated(init, said);
        if !spells_out(said, items.last().value@) {
            assert(unsaid(items, said)[kept.len() as int] == items.last());
        }
        assert forall|i: int|
            0 <= i < items.len() && !spells_out(said, (#[trigger] items[i]).value@) implies unsaid(
            items,
            said,
        ).contains(items[i]) by {
            if i < items.len() - 1 {
                assert(init[i] == items[i]);
                let k = choose|k: int| 0 <= k < kept.len() && kept[k] == items[i];
                assert(unsaid(items, said)[k] == items[i]);
            }
        }
    }
}

/// An item whose value the headline spelled out leaves no line.
pub proof fn a_said_item_leaves_no_line(
    item: DisplayItem,
    depth: nat,
    said: Option<Seq<char>>,
)
    requires
        spells_out(said, item.value@),
    ensures
        entry_lines(DisplayEntry::Item(item), depth, said).len() == 0,
{
}

/// With no headline nothing has been said, and a blank value never has.
pub proof fn nothing_is_said_of_a_blank_value(said: Option<Seq<char>>, value: Seq<char>)
    requires
        said is None || trimmed(value).len() == 0,
    ensures
        !spells_out(said, value),
{
}

/// Folding the case commutes with trimming at the front.
proof fn lemma_lowered_start(s: Seq<char>)
    ensures
        trimmed_start(lowered(s)) == lowered(trimmed_start(s)),
    decreases s.len(),
{
    if s.len() > 0 && is_space(s[0]) {
        lemma_lowered_start(s.drop_first());
        assert(lowered(s).drop_first() =~= lowered(s.drop_first()));
        assert(is_space(lowered(s)[0]));
    } else if s.len() > 0 {
        assert(lowered(s)[0] == lower_char(s[0]));
        assert(!is_space(lower_char(s[0])));
    }
}

/// Folding the case commutes with trimming at the back.
proof fn lemma_lowered_end(s: Seq<char>)
    ensures
        trimmed_end(lowered(s)) == lowered(trimmed_end(s)),
    decreases s.len(),
{
    if s.len() > 0 && is_space(s.last()) {
        lemma_lowered_end(s.drop_last());
        assert(lowered(s).drop_last() =~= lowered(s.drop_last()));
        assert(is_space(lowered(s).last()));
    } else if s.len() > 0 {
        assert(lowered(s).last() == lower_char(s.last()));
        assert(!is_space(lower_char(s.last())));
    }
}

/// Casing never decides whether a value was said: not the sentence's, and not
/// the value's.
pub proof fn casing_does_not_hide_a_value(
    said: Seq<char>,
    said_too: Seq<char>,
    value: Seq<char>,
    value_too: Seq<char>,
)
    requires
        lowered(said) == lowered(said_too),
        lowered(value) == lowered(value_too),
    ensures
        spells_out(Some(said), value) == spells_out(Some(said_too), value_too),
{
    lemma_lowered_start(value);
    lemma_lowered_end(trimmed_start(value));
    lemma_lowered_start(value_too);
    lemma_lowered_end(trimmed_start(value_too));
    assert(lowered(trimmed(value)) == lowered(trimmed(value_too)));
    assert(lowered(trimmed(value)).len() == trimmed(value).len());
    assert(lowered(trimmed(value_too)).len() == trimmed(value_too).len());
}

/// Text that was cut and cleaned holds no character that could reorder or hide
/// its surroundings, and is at most one character longer than asked for.
pub proof fn clamped_text_is_safe(s: Seq<char>, max: nat)
    ensures
        clamped(s, max).len() <= max + 1,
        forall|i: int|
            0 <= i < clamped(s, max).len() ==> !is_unsafe_display(#[trigger] clamped(s, max)[i]),
{
    reveal_strlit("…");
    lemma_cleaned(s);
    assert(!is_unsafe_display("…"@[0]));
}

/// What is left after cleaning is safe.
proof fn lemma_cleaned(s: Seq<char>)
    ensures
        cleaned(s).len() <= s.len(),
        forall|i: int| 0 <= i < cleaned(s).len() ==> !is_unsafe_display(#[trigger] cleaned(s)[i]),
    decreases s.len(),
{
    if s.len() > 0 {
        lemma_cleaned(s.drop_last());
    }
}

/// Safe text that fits is shown as it stands.
pub proof fn safe_text_that_fits_is_kept(s: Seq<char>, max: nat)
    requires
        s.len() <= max,
        forall|i: int| 0 <= i < s.len() ==> !is_unsafe_display(#[trigger] s[i]),
    ensures
        clamped(s, max) == s,
{
    lemma_cleaned_safe(s);
}

proof fn lemma_cleaned_safe(s: Seq<char>)
    requires
        forall|i: int| 0 <= i < s.len() ==> !is_unsafe_display(#[trigger] s[i]),
    ensures
        cleaned(s) == s,
    decreases s.len(),
{
    if s.len() > 0 {
        let init = s.drop_last();
        assert forall|i: int| 0 <= i < init.len() implies !is_unsafe_display(
            #[trigger] init[i],
        ) by {
            assert(init[i] == s[i]);
        }
        lemma_cleaned_safe(init);
        assert(!is_unsafe_display(s[s.len() - 1]));
        assert(init.push(s.last()) =~= s);
    }
}

/// A warning that belongs to a run of strips is in it.
proof fn lemma_strip(ws: Seq<Warning>, which: Strips, i: int)
    requires
        0 <= i < ws.len(),
        belongs(ws[i], which),
    ensures
        strips(ws, which).contains(LineModel::Strip(warning_text(ws[i]))),
    decreases ws.len(),
{
    let line = LineModel::Strip(warning_text(ws[i]));
    let rest = strips(ws.drop_last(), which);
    if i < ws.len() - 1 {
        lemma_strip(ws.drop_last(), which, i);
        assert(ws.drop_last()[i] == ws[i]);
        let k = choose|k: int| 0 <= k < rest.len() && rest[k] == line;
        assert(strips(ws, which)[k] == line);
    } else {
        assert(strips(ws, which)[rest.len() as int] == line);
    }
}

/// No warning of a mechanical decode is dropped: each is among the panel's
/// lines, and the panel is not absent.
pub proof fn every_warning_is_shown(d: DecodedCall, i: int)
    requires
        0 <= i < d.warnings@.len(),
    ensures
        heuristic_lines(d).contains(LineModel::Strip(warning_text(d.warnings@[i]))),
        panel_of(heuristic_lines(d)) is Some,
{
    let w = d.warnings@[i];
    let line = LineModel::Strip(warning_text(w));
    let all = heuristic_lines(d);
    let lead = strips(d.warnings@, Strips::Lead);
    let tail = foot(strips(d.warnings@, Strips::Foot));
    if belongs(w, Strips::Lead) {
        lemma_strip(d.warnings@, Strips::Lead, i);
        let k = choose|k: int| 0 <= k < lead.len() && lead[k] == line;
        assert(all[k] == line);
    } else {
        let inner = strips(d.warnings@, Strips::Foot);
        lemma_strip(d.warnings@, Strips::Foot, i);
        let k = choose|k: int| 0 <= k < inner.len() && inner[k] == line;
        assert(tail[k + 1] == line);
        assert(all[all.len() - tail.len() + k + 1] == line);
    }
}

/// Whatever casts doubt on a descriptor's reading is met before any entry: the
/// panel begins with its strips.
pub proof fn doubt_leads_the_panel(
    entries: Seq<DisplayEntry>,
    diagnostics: Seq<Diagnostic>,
    warnings: Seq<Warning>,
    said: Option<Seq<char>>,
    i: int,
)
    requires
        0 <= i < warnings.len(),
        belongs(warnings[i], Strips::Doubt),
    ensures
        ({
            let strips = strips(warnings, Strips::Doubt);
            let lines = clear_signed_lines(entries, diagnostics, warnings, said);
            &&& strips.contains(LineModel::Strip(warning_text(warnings[i])))
            &&& strips.len() <= lines.len()
            &&& lines.take(strips.len() as int) == strips
            &&& panel_of(lines) is Some
        }),
{
    lemma_strip(warnings, Strips::Doubt, i);
    let lines = clear_signed_lines(entries, diagnostics, warnings, said);
    let strips = strips(warnings, Strips::Doubt);
    assert(lines.take(strips.len() as int) =~= strips);
}

/// A resolved call without arguments and warnings has no panel: its headline
/// says it all.
pub proof fn a_bare_call_has_no_panel(d: DecodedCall)
    requires
        d.args@.len() == 0,
        d.warnings@.len() == 0,
        d.state == ResolutionState::Resolved,
    ensures
        panel_of(heuristic_lines(d)) is None,
{
}

/// A sentence without an address is at most one run, and that run is the
/// sentence without the white space around it.
pub proof fn a_sentence_without_addresses_is_one_run(s: Seq<char>)
    requires
        forall|i: int| !address_at(s, i),
    ensures
        parts_from(s, 0) == prose(s),
{
    lemma_no_address(s, 0);
    assert(s.subrange(0, s.len() as int) =~= s);
}

proof fn lemma_no_address(s: Seq<char>, from: int)
    requires
        forall|i: int| !address_at(s, i),
        0 <= from <= s.len(),
    ensures
        next_address(s, from) == s.len(),
    decreases s.len() - from,
{
    if from < s.len() {
        lemma_no_address(s, from + 1);
    }
}

/// No run of prose in a headline is blank or has white space around it.
pub proof fn runs_of_prose_are_trimmed(s: Seq<char>, from: int)
    requires
        0 <= from <= s.len(),
    ensures
        forall|i: int|
            0 <= i < parts_from(s, from).len() ==> match (#[trigger] parts_from(s, from)[i]) {
                PartModel::Text(t) => t.len() > 0 && !is_space(t[0]) && !is_space(t.last()),
                PartModel::Addr(_) => true,
            },
    decreases s.len() - from,
{
    let i = next_address(s, from);
    if from <= i && i + 42 <= s.len() {
        runs_of_prose_are_trimmed(s, i + 42);
        lemma_trimmed(s.subrange(from, i));
    } else {
        lemma_trimmed(s.subrange(from, s.len() as int));
    }
}

proof fn lemma_trimmed_start(s: Seq<char>)
    ensures
        trimmed_start(s).len() > 0 ==> !is_space(trimmed_start(s)[0]),
    decreases s.len(),
{
    if s.len() > 0 && is_space(s[0]) {
        lemma_trimmed_start(s.drop_first());
    }
}

proof fn lemma_trimmed_end(s: Seq<char>)
    ensures
        trimmed_end(s).len() > 0 ==> !is_space(trimmed_end(s).last()) && trimmed_end(s)[0] == s[0],
    decreases s.len(),
{
    if s.len() > 0 && is_space(s.last()) {
        lemma_trimmed_end(s.drop_last());
    }
}

/// Trimmed text has no white space at its ends.
proof fn lemma_trimmed(s: Seq<char>)
    ensures
        trimmed(s).len() > 0 ==> !is_space(trimmed(s)[0]) && !is_space(trimmed(s).last()),
{
    lemma_trimmed_start(s);
    lemma_trimmed_end(trimmed_start(s));
    if trimmed(s).len() > 0 && trimmed_start(s).len() == 0 {
        assert(false);
    }
}

} // verus!
