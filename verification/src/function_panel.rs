//! A decoded call, at two altitudes: the headline that says what it does, and
//! the panel that shows how it says so.
//!
//! The panel leaves out what the headline already spelled out, leads with
//! whatever casts doubt on it, and is absent when it would show nothing.

use vstd::prelude::*;

use crate::primitives::hex_of_bytes;
use crate::primitives::parse_hex_address;
use crate::primitives::short_address;
use crate::primitives::spelled_address;
use crate::primitives::Address;
use crate::text::all_hex;
use crate::text::chars_of;
use crate::text::dec;
use crate::text::decimal_usize;
use crate::text::hex_bytes;
use crate::text::hex_value;
use crate::text::join;
use crate::text::joined;
use crate::text::lemma_next;
use crate::text::lowered;
use crate::text::model_of;
use crate::text::models;
use crate::text::none_of;
use crate::text::string_of;
use crate::text::to_lower;
use crate::text::trim;
use crate::text::trimmed;

pub mod laws;

verus! {

// ── what a decode says ──────────────────────────────────────────────

/// The one line that says what a call does, and what qualifies it.
#[derive(Debug, Clone, PartialEq, Eq)]
pub struct Headline {
    pub text: String,
    pub note: Option<String>,
    pub via_proxy: bool,
    /// What undermines the line itself.
    pub caution: Option<String>,
    /// Whether the line was authored by a clear-signing descriptor.
    pub clear_signed: bool,
}

/// A labelled value of a clear-signing descriptor.
#[derive(Debug, Clone, PartialEq, Eq)]
pub struct DisplayItem {
    pub label: String,
    pub value: String,
}

/// An entry of a clear-signing descriptor.
#[derive(Debug)]
pub enum DisplayEntry {
    Item(DisplayItem),
    Group { label: String, items: Vec<DisplayItem> },
    Nested { label: String, intent: String, entries: Vec<DisplayEntry> },
}

/// A finding of the descriptor's formatter.
#[derive(Debug, Clone, PartialEq, Eq)]
pub struct Diagnostic {
    pub message: String,
    /// Whether it is a warning rather than a remark.
    pub is_warning: bool,
}

/// A finding of the mechanical decode.
#[derive(Debug, Clone, PartialEq, Eq)]
pub enum Warning {
    InfiniteApproval { spender: Address },
    UnverifiedBytecode,
    AmbiguousSignature { candidates: Vec<String> },
    BytecodeMismatch { candidates: Vec<String> },
    UnaccountedCalldata { decoded: usize, total: usize },
}

/// A Solidity type.
#[derive(Debug)]
pub enum SolType {
    Address,
    Bool,
    Text,
    Bytes,
    FixedBytes(usize),
    Uint(usize),
    Int(usize),
    Tuple(Vec<SolType>),
    Array(Box<SolType>),
    FixedArray(Box<SolType>, usize),
    Function,
    CustomStruct(String),
}

/// An argument's value, as far as the decode could tell.
#[derive(Debug, Clone, PartialEq, Eq)]
pub enum ArgDisplay {
    Address { addr: Address, ens: Option<String> },
    Uint { formatted: String },
    Int { formatted: String },
    Bool(bool),
    Text(String),
    Bytes(Vec<u8>),
    Raw(String),
}

/// A decoded argument.
#[derive(Debug)]
pub struct CallArg {
    pub name: Option<String>,
    pub ty: SolType,
    pub display: ArgDisplay,
}

/// How far a call was resolved.
#[derive(Debug, Clone, Copy, PartialEq, Eq, Structural)]
pub enum ResolutionState {
    /// No calldata.
    Empty,
    /// Not even the argument types are known.
    Unknown,
    Resolved,
}

/// A call decoded from its bytes.
#[derive(Debug)]
pub struct DecodedCall {
    pub warnings: Vec<Warning>,
    pub args: Vec<CallArg>,
    pub state: ResolutionState,
    pub raw_calldata: Vec<u8>,
}

/// What is known of a call.
#[derive(Debug)]
pub enum DecodeResult {
    /// A descriptor covers it.
    ClearSigned {
        entries: Vec<DisplayEntry>,
        diagnostics: Vec<Diagnostic>,
        warnings: Vec<Warning>,
    },
    /// A descriptor covers part of it.
    Fallback {
        entries: Vec<DisplayEntry>,
        diagnostics: Vec<Diagnostic>,
        heuristic: DecodedCall,
    },
    /// No descriptor.
    Heuristic(DecodedCall),
    /// A native transfer.
    Empty,
}

// ── what is shown ───────────────────────────────────────────────────

/// A run of a headline: prose, or an address lifted out of it.
#[derive(Debug, PartialEq, Eq)]
pub enum HeadlinePart {
    Text(String),
    Addr(Address),
}

#[verifier::ext_equal]
pub enum PartModel {
    Text(Seq<char>),
    Addr(Address),
}

impl View for HeadlinePart {
    type V = PartModel;

    open spec fn view(&self) -> PartModel {
        match *self {
            HeadlinePart::Text(s) => PartModel::Text(s@),
            HeadlinePart::Addr(a) => PartModel::Addr(a),
        }
    }
}

/// The headline card.
#[derive(Debug)]
pub struct HeadlineCard {
    pub parts: Vec<HeadlinePart>,
    /// Set in the quieter colour, because of the caution.
    pub muted: bool,
    pub note: Option<String>,
    pub proxy_note: Option<&'static str>,
    /// Shown beneath the card, whatever else is folded away.
    pub caution: Option<String>,
}

#[verifier::ext_equal]
pub struct CardModel {
    pub parts: Seq<PartModel>,
    pub muted: bool,
    pub note: Option<Seq<char>>,
    pub proxy_note: Option<Seq<char>>,
    pub caution: Option<Seq<char>>,
}

impl View for HeadlineCard {
    type V = CardModel;

    open spec fn view(&self) -> CardModel {
        CardModel {
            parts: models(self.parts@),
            muted: self.muted,
            note: model_of(self.note),
            proxy_note: model_of(self.proxy_note),
            caution: model_of(self.caution),
        }
    }
}

/// A line of the panel. Indents are in pixels.
#[derive(Debug, PartialEq, Eq)]
pub enum PanelLine {
    /// A tinted warning.
    Strip(String),
    /// Room before the warnings at the foot.
    Gap,
    /// The label of a group.
    Heading { indent: u32, label: String },
    /// The label and intent of a nested call.
    Nested { indent: u32, label: String, intent: String },
    /// A label, and beneath it an address to check character by character.
    Address { indent: u32, label: String, addr: Address },
    /// A label and a value; the value is on its own line when `stacked`.
    Value { indent: u32, label: String, value: String, stacked: bool, muted: bool },
}

#[verifier::ext_equal]
pub enum LineModel {
    Strip(Seq<char>),
    Gap,
    Heading { indent: int, label: Seq<char> },
    Nested { indent: int, label: Seq<char>, intent: Seq<char> },
    Address { indent: int, label: Seq<char>, addr: Address },
    Value { indent: int, label: Seq<char>, value: Seq<char>, stacked: bool, muted: bool },
}

impl View for PanelLine {
    type V = LineModel;

    open spec fn view(&self) -> LineModel {
        match *self {
            PanelLine::Strip(s) => LineModel::Strip(s@),
            PanelLine::Gap => LineModel::Gap,
            PanelLine::Heading { indent, label } => LineModel::Heading {
                indent: indent as int,
                label: label@,
            },
            PanelLine::Nested { indent, label, intent } => LineModel::Nested {
                indent: indent as int,
                label: label@,
                intent: intent@,
            },
            PanelLine::Address { indent, label, addr } => LineModel::Address {
                indent: indent as int,
                label: label@,
                addr,
            },
            PanelLine::Value { indent, label, value, stacked, muted } => LineModel::Value {
                indent: indent as int,
                label: label@,
                value: value@,
                stacked,
                muted,
            },
        }
    }
}

/// The panel: a placeholder while the decode is under way, or its lines.
#[derive(Debug, PartialEq, Eq)]
pub enum Panel {
    Loading,
    Lines(Vec<PanelLine>),
}

#[verifier::ext_equal]
pub enum PanelModel {
    Loading,
    Lines(Seq<LineModel>),
}

impl View for Panel {
    type V = PanelModel;

    open spec fn view(&self) -> PanelModel {
        match *self {
            Panel::Loading => PanelModel::Loading,
            Panel::Lines(l) => PanelModel::Lines(models(l@)),
        }
    }
}

// ── addresses in a sentence ─────────────────────────────────────────

/// Whether an address stands at `i`: `0x` and exactly forty hexadecimal digits,
/// no more.
pub open spec fn address_at(s: Seq<char>, i: int) -> bool {
    &&& 0 <= i && i + 42 <= s.len()
    &&& s[i] == '0'
    &&& s[i + 1] == 'x'
    &&& all_hex(s.subrange(i + 2, i + 42))
    &&& i + 42 == s.len() || hex_value(s[i + 42]) is None
}

/// Where the first address at or after `from` stands; the end if there is none.
pub open spec fn next_address(s: Seq<char>, from: int) -> int
    decreases s.len() - from,
{
    if from >= s.len() {
        s.len() as int
    } else if address_at(s, from) {
        from
    } else {
        next_address(s, from + 1)
    }
}

/// A run of prose without the white space around it, if anything is left.
pub open spec fn prose(s: Seq<char>) -> Seq<PartModel> {
    if trimmed(s).len() == 0 {
        seq![]
    } else {
        seq![PartModel::Text(trimmed(s))]
    }
}

/// A sentence from `from` on, cut at the addresses in it.
pub open spec fn parts_from(s: Seq<char>, from: int) -> Seq<PartModel>
    decreases s.len() - from,
{
    let i = next_address(s, from);
    if 0 <= from <= i && i + 42 <= s.len() {
        prose(s.subrange(from, i)) + seq![
            PartModel::Addr(spelled_address(s.subrange(i, i + 42))->0),
        ] + parts_from(s, i + 42)
    } else {
        prose(s.subrange(from, s.len() as int))
    }
}

/// Whether an address stands at `i`.
fn is_address_at(v: &Vec<char>, i: usize) -> (r: bool)
    requires
        i <= v@.len(),
    ensures
        r == address_at(v@, i as int),
{
    if v.len() - i < 42 || v[i] != '0' || v[i + 1] != 'x' {
        return false;
    }
    let end: usize = i + 42;
    let mut k: usize = i + 2;
    let ghost digits = v@.subrange(i + 2, i + 42);
    while k < end
        invariant
            end == i + 42,
            i + 42 <= v@.len(),
            i + 2 <= k <= i + 42,
            digits == v@.subrange(i + 2, i + 42),
            forall|n: int| 0 <= n < k - i - 2 ==> hex_value(#[trigger] digits[n]) is Some,
        decreases i + 42 - k,
    {
        if !is_hex(v[k]) {
            proof {
                assert(digits[k - i - 2] == v@[k as int]);
            }
            return false;
        }
        proof {
            assert(digits[k - i - 2] == v@[k as int]);
        }
        k = k + 1;
    }
    end == v.len() || !is_hex(v[end])
}

/// Whether a character is a hexadecimal digit.
pub(crate) fn is_hex(c: char) -> (r: bool)
    ensures
        r == (hex_value(c) is Some),
{
    ('0' <= c && c <= '9') || ('a' <= c && c <= 'f') || ('A' <= c && c <= 'F')
}

/// Appends a run of prose, if anything is left of it.
fn flush_prose(v: &Vec<char>, from: usize, to: usize, parts: &mut Vec<HeadlinePart>)
    requires
        from <= to <= v@.len(),
    ensures
        models(final(parts)@) == models(old(parts)@) + prose(
            v@.subrange(from as int, to as int),
        ),
{
    let t: String = trim(string_of(v, from, to).as_str());
    let ghost before = parts@;
    if !t.as_str().is_empty() {
        parts.push(HeadlinePart::Text(t));
    }
    proof {
        assert(models(parts@) =~= models(before) + prose(v@.subrange(from as int, to as int)));
    }
}

/// The next address's place is where the search finds it.
proof fn lemma_next_address(s: Seq<char>, from: int, i: int)
    requires
        0 <= from <= i <= s.len(),
        forall|k: int| from <= k < i ==> !address_at(s, k),
        i == s.len() || address_at(s, i),
    ensures
        next_address(s, from) == i,
    decreases i - from,
{
    if from < i {
        lemma_next_address(s, from + 1, i);
    }
}

/// Splits a sentence on the addresses interpolated into it. A longer run of
/// digits, such as a hash, and a bare `0x` stay prose; runs of prose are
/// trimmed, and blank ones dropped.
pub fn split_addresses(s: &str) -> (r: Vec<HeadlinePart>)
    ensures
        models(r@) == parts_from(s@, 0),
{
    let v: Vec<char> = chars_of(s);
    let mut parts: Vec<HeadlinePart> = none_of();
    let mut from: usize = 0;
    let mut i: usize = 0;
    proof {
        assert(models(parts@) + parts_from(s@, 0) =~= parts_from(s@, 0));
    }
    while i < v.len()
        invariant
            v@ == s@,
            from <= i <= v@.len(),
            forall|k: int| from <= k < i ==> !address_at(v@, k),
            models(parts@) + parts_from(v@, from as int) == parts_from(v@, 0),
        decreases v@.len() - i,
    {
        if is_address_at(&v, i) {
            let text: String = string_of(&v, i, i + 42);
            let ghost spelled = v@.subrange(i as int, i + 42);
            let ghost before = parts@;
            proof {
                lemma_next_address(v@, from as int, i as int);
                assert(spelled.skip(2) =~= v@.subrange(i + 2, i + 42));
            }
            flush_prose(&v, from, i, &mut parts);
            match parse_hex_address(text.as_str()) {
                Some(addr) => parts.push(HeadlinePart::Addr(addr)),
                None => {},
            }
            proof {
                assert(models(parts@) =~= models(before) + prose(
                    v@.subrange(from as int, i as int),
                ) + seq![PartModel::Addr(spelled_address(spelled)->0)]);
                assert(models(parts@) + parts_from(v@, i + 42) =~= models(before) + parts_from(
                    v@,
                    from as int,
                ));
            }
            i = i + 42;
            from = i;
        } else {
            i = i + 1;
        }
    }
    proof {
        lemma_next_address(v@, from as int, i as int);
    }
    flush_prose(&v, from, i, &mut parts);
    parts
}

// ── what the headline already said ──────────────────────────────────

/// Whether a character is a letter or a digit of any script.
pub uninterp spec fn alphanumeric(c: char) -> bool;

/// `char::is_alphanumeric`: the Unicode properties Alphabetic and Numeric. The
/// ASCII letters and digits have them, and no other ASCII character.
pub assume_specification[ char::is_alphanumeric ](c: char) -> (r: bool)
    ensures
        r == alphanumeric(c),
        c < '\u{80}' ==> r == (('0' <= c && c <= '9') || ('A' <= c && c <= 'Z') || ('a' <= c && c
            <= 'z')),
;

/// Whether `needle` stands at `i` as a token: no letter or digit touches it on
/// either side.
pub open spec fn token_at(hay: Seq<char>, needle: Seq<char>, i: int) -> bool {
    &&& 0 <= i && i + needle.len() <= hay.len()
    &&& hay.subrange(i, i + needle.len()) == needle
    &&& i == 0 || !alphanumeric(hay[i - 1])
    &&& i + needle.len() == hay.len() || !alphanumeric(hay[i + needle.len() as int])
}

/// Whether `needle` stands somewhere as a token.
pub open spec fn has_token(hay: Seq<char>, needle: Seq<char>) -> bool {
    exists|i: int| token_at(hay, needle, i)
}

/// Whether a sentence spells out a value: as a token, whatever the case of
/// ASCII letters, and without the white space around the value. A blank value
/// is never said.
pub open spec fn spells_out(said: Option<Seq<char>>, value: Seq<char>) -> bool {
    match said {
        Some(s) => trimmed(value).len() > 0 && has_token(lowered(s), lowered(trimmed(value))),
        None => false,
    }
}

/// The characters of a text in lower case, as far as they are ASCII.
fn lower_chars(s: &str) -> (r: Vec<char>)
    ensures
        r@ == lowered(s@),
{
    let v: Vec<char> = chars_of(s);
    let mut out: Vec<char> = Vec::new();
    let mut i: usize = 0;
    while i < v.len()
        invariant
            v@ == s@,
            i <= v@.len(),
            out@ =~= lowered(s@).take(i as int),
        decreases v@.len() - i,
    {
        out.push(to_lower(v[i]));
        i = i + 1;
    }
    out
}

/// Whether `needle` stands at `i` as a token.
fn is_token_at(hay: &Vec<char>, needle: &Vec<char>, i: usize) -> (r: bool)
    requires
        i + needle@.len() <= hay@.len(),
    ensures
        r == token_at(hay@, needle@, i as int),
{
    let n: usize = needle.len();
    let m: usize = hay.len();
    let end: usize = i + n;
    let ghost window = hay@.subrange(i as int, i + n);
    let mut k: usize = 0;
    while k < n
        invariant
            n == needle@.len(),
            end == i + n,
            i + n <= hay@.len(),
            k <= n,
            window == hay@.subrange(i as int, i + n),
            forall|j: int| 0 <= j < k ==> window[j] == needle@[j],
        decreases n - k,
    {
        if hay[i + k] != needle[k] {
            proof {
                assert(window[k as int] != needle@[k as int]);
            }
            return false;
        }
        k = k + 1;
    }
    proof {
        assert(window =~= needle@);
    }
    (i == 0 || !hay[i - 1].is_alphanumeric()) && (end == m || !hay[end].is_alphanumeric())
}

/// Whether the headline already carries this value, so that a row for it would
/// be a second reading of the same field. A number inside a larger one does not
/// count, and neither does the case of an address.
pub fn already_said(said: Option<&str>, value: &str) -> (r: bool)
    ensures
        r == spells_out(model_of(said), value@),
{
    let s: &str = match said {
        Some(s) => s,
        None => {
            return false;
        },
    };
    let v: String = trim(value);
    if v.as_str().is_empty() {
        return false;
    }
    let hay: Vec<char> = lower_chars(s);
    let needle: Vec<char> = lower_chars(v.as_str());
    if needle.len() > hay.len() {
        proof {
            assert forall|i: int| !token_at(hay@, needle@, i) by {}
        }
        return false;
    }
    let last: usize = hay.len() - needle.len();
    let mut i: usize = 0;
    while i <= last
        invariant
            last + needle.len() == hay.len(),
            needle.len() > 0,
            i <= last + 1,
            hay@ == lowered(s@),
            needle@ == lowered(v@),
            v@ == trimmed(value@),
            v@.len() > 0,
            model_of(said) == Some(s@),
            forall|k: int| 0 <= k < i ==> !token_at(hay@, needle@, k),
        decreases last + 1 - i,
    {
        if is_token_at(&hay, &needle, i) {
            proof {
                assert(has_token(hay@, needle@));
            }
            return true;
        }
        i = i + 1;
    }
    proof {
        assert forall|k: int| !token_at(hay@, needle@, k) by {}
    }
    false
}

// ── formatting ──────────────────────────────────────────────────────

/// Characters that could reorder, hide or break the text around them: control
/// characters, bidirectional controls, separators, and invisible ones. Which
/// ones they are is this library's own choice.
pub open spec fn is_unsafe_display(c: char) -> bool {
    let u = c as u32;
    ||| u <= 0x1f
    ||| 0x7f <= u <= 0x9f
    ||| u == 0xad
    ||| u == 0x61c
    ||| u == 0x180e
    ||| 0x200b <= u <= 0x200f
    ||| 0x2028 <= u <= 0x202e
    ||| 0x2060 <= u <= 0x206f
    ||| u == 0xfeff
}

/// A text without the characters that are unsafe to show.
pub open spec fn cleaned(s: Seq<char>) -> Seq<char>
    decreases s.len(),
{
    if s.len() == 0 {
        seq![]
    } else if is_unsafe_display(s.last()) {
        cleaned(s.drop_last())
    } else {
        cleaned(s.drop_last()).push(s.last())
    }
}

/// A text that is safe to show, cut to `max` characters with an ellipsis.
pub open spec fn clamped(s: Seq<char>, max: nat) -> Seq<char> {
    if cleaned(s).len() <= max {
        cleaned(s)
    } else {
        cleaned(s).take(max as int) + "…"@
    }
}

/// Whether a character is unsafe to show.
fn unsafe_display(c: char) -> (r: bool)
    ensures
        r == is_unsafe_display(c),
{
    let u: u32 = c as u32;
    u <= 0x1f || (0x7f <= u && u <= 0x9f) || u == 0xad || u == 0x61c || u == 0x180e || (0x200b <= u
        && u <= 0x200f) || (0x2028 <= u && u <= 0x202e) || (0x2060 <= u && u <= 0x206f) || u
        == 0xfeff
}

/// Clamps a text to `max` characters and strips what is unsafe to show, so that
/// text authored by a contract cannot reorder or hide what surrounds it.
pub fn truncate(s: &str, max: usize) -> (r: String)
    ensures
        r@ == clamped(s@, max as nat),
{
    let v: Vec<char> = chars_of(s);
    let mut keep: Vec<char> = Vec::new();
    let mut i: usize = 0;
    proof {
        assert(v@.take(0) =~= seq![]);
    }
    while i < v.len()
        invariant
            v@ == s@,
            i <= v@.len(),
            keep@ == cleaned(v@.take(i as int)),
        decreases v@.len() - i,
    {
        proof {
            lemma_next(v@, i as int);
        }
        if !unsafe_display(v[i]) {
            keep.push(v[i]);
        }
        i = i + 1;
    }
    proof {
        assert(v@.take(i as int) =~= v@);
    }
    if keep.len() <= max {
        proof {
            assert(keep@.subrange(0, keep@.len() as int) =~= keep@);
        }
        return string_of(&keep, 0, keep.len());
    }
    let mut out: String = string_of(&keep, 0, max);
    out.append("…");
    proof {
        assert(keep@.subrange(0, max as int) =~= keep@.take(max as int));
    }
    out
}

/// The canonical name of a type.
pub open spec fn type_text(t: SolType) -> Seq<char>
    decreases t,
{
    match t {
        SolType::Address => "address"@,
        SolType::Bool => "bool"@,
        SolType::Text => "string"@,
        SolType::Bytes => "bytes"@,
        SolType::FixedBytes(n) => "bytes"@ + dec(n as nat),
        SolType::Uint(n) => "uint"@ + dec(n as nat),
        SolType::Int(n) => "int"@ + dec(n as nat),
        SolType::Tuple(items) => "("@ + joined(type_texts(items@), ","@) + ")"@,
        SolType::Array(inner) => type_text(*inner) + "[]"@,
        SolType::FixedArray(inner, n) => type_text(*inner) + "["@ + dec(n as nat) + "]"@,
        SolType::Function => "function"@,
        SolType::CustomStruct(name) => name@,
    }
}

/// The canonical names of types, in order.
pub open spec fn type_texts(s: Seq<SolType>) -> Seq<Seq<char>>
    decreases s,
{
    if s.len() == 0 {
        seq![]
    } else {
        type_texts(s.drop_last()).push(type_text(s.last()))
    }
}

/// The canonical name of a type, such as `(address,uint256)[]`.
pub fn ty_short(t: &SolType) -> (r: String)
    ensures
        r@ == type_text(*t),
    decreases t,
{
    match t {
        SolType::Address => "address".to_owned(),
        SolType::Bool => "bool".to_owned(),
        SolType::Text => "string".to_owned(),
        SolType::Bytes => "bytes".to_owned(),
        SolType::FixedBytes(n) => {
            let mut s: String = "bytes".to_owned();
            s.append(decimal_usize(*n).as_str());
            s
        },
        SolType::Uint(n) => {
            let mut s: String = "uint".to_owned();
            s.append(decimal_usize(*n).as_str());
            s
        },
        SolType::Int(n) => {
            let mut s: String = "int".to_owned();
            s.append(decimal_usize(*n).as_str());
            s
        },
        SolType::Tuple(items) => {
            let mut names: Vec<String> = none_of();
            let mut i: usize = 0;
            proof {
                assert(items@.take(0) =~= seq![]);
            }
            while i < items.len()
                invariant
                    i <= items@.len(),
                    t is Tuple && t->Tuple_0 == items,
                    models(names@) == type_texts(items@.take(i as int)),
                decreases items@.len() - i,
            {
                proof {
                    lemma_next(items@, i as int);
                }
                let ghost before = names@;
                let name: String = ty_short(&items[i]);
                names.push(name);
                proof {
                    assert(models(names@) =~= models(before).push(name@));
                }
                i = i + 1;
            }
            proof {
                assert(items@.take(i as int) =~= items@);
            }
            let mut s: String = "(".to_owned();
            s.append(join(&names, ",").as_str());
            s.append(")");
            s
        },
        SolType::Array(inner) => {
            let mut s: String = ty_short(inner);
            s.append("[]");
            s
        },
        SolType::FixedArray(inner, n) => {
            let mut s: String = ty_short(inner);
            s.append("[");
            s.append(decimal_usize(*n).as_str());
            s.append("]");
            s
        },
        SolType::Function => "function".to_owned(),
        SolType::CustomStruct(name) => name.clone(),
    }
}

/// The headline card of a headline.
pub open spec fn card_of(h: Headline) -> CardModel {
    CardModel {
        parts: parts_from(h.text@, 0),
        muted: h.caution is Some,
        note: model_of(h.note),
        proxy_note: if h.via_proxy {
            Some("(via proxy)"@)
        } else {
            None
        },
        caution: model_of(h.caution),
    }
}

/// The headline card: what the call does, with the addresses in it lifted out,
/// and what qualifies it.
pub fn headline_view(h: &Headline) -> (r: HeadlineCard)
    ensures
        r@ == card_of(*h),
{
    HeadlineCard {
        parts: split_addresses(h.text.as_str()),
        muted: h.caution.is_some(),
        note: h.note.clone(),
        proxy_note: if h.via_proxy {
            Some("(via proxy)")
        } else {
            None
        },
        caution: h.caution.clone(),
    }
}

// ── warnings ────────────────────────────────────────────────────────

/// Which warnings a run of strips holds.
#[derive(Debug, Clone, Copy, PartialEq, Eq, Structural)]
pub enum Strips {
    /// What casts doubt on a descriptor's reading.
    Doubt,
    /// What casts doubt on a guessed signature.
    Lead,
    /// What qualifies a call without contradicting its name.
    Foot,
}

/// Whether a warning says that the signature itself may be wrong.
pub open spec fn doubts_signature(w: Warning) -> bool {
    w is AmbiguousSignature || w is BytecodeMismatch
}

/// Whether a warning belongs to a run of strips.
pub open spec fn belongs(w: Warning, which: Strips) -> bool {
    match which {
        Strips::Doubt => doubts_signature(w) || w is UnaccountedCalldata,
        Strips::Lead => doubts_signature(w),
        Strips::Foot => !doubts_signature(w),
    }
}

/// The line a warning is shown as.
pub open spec fn warning_text(w: Warning) -> Seq<char> {
    match w {
        Warning::InfiniteApproval { spender } => "⚠ infinite approval to "@ + spender.short_text(),
        Warning::UnverifiedBytecode => "⚠ bytecode read fell back to unverified RPC"@,
        Warning::AmbiguousSignature { candidates } => "⚠ ambiguous: "@ + clamped(
            joined(models(candidates@), ", "@),
            60,
        ),
        Warning::BytecodeMismatch { candidates } =>
            "⚠ possible spoof — on-chain code matches no known signature (claimed: "@ + clamped(
            joined(models(candidates@), ", "@),
            48,
        ) + ")"@,
        Warning::UnaccountedCalldata { decoded, total } => "⚠ "@ + dec(
            if total >= decoded {
                (total - decoded) as nat
            } else {
                0
            },
        ) + " byte(s) of calldata are not shown above — the arguments account for "@ + dec(
            decoded as nat,
        ) + " of "@ + dec(total as nat),
    }
}

/// The strips of those warnings that belong, in order.
pub open spec fn strips(ws: Seq<Warning>, which: Strips) -> Seq<LineModel>
    decreases ws.len(),
{
    if ws.len() == 0 {
        seq![]
    } else {
        let rest = strips(ws.drop_last(), which);
        if belongs(ws.last(), which) {
            rest.push(LineModel::Strip(warning_text(ws.last())))
        } else {
            rest
        }
    }
}

/// The line a warning is shown as.
fn warning_strip(w: &Warning) -> (r: String)
    ensures
        r@ == warning_text(*w),
{
    match w {
        Warning::InfiniteApproval { spender } => {
            let mut s: String = "⚠ infinite approval to ".to_owned();
            s.append(short_address(*spender).as_str());
            s
        },
        Warning::UnverifiedBytecode => "⚠ bytecode read fell back to unverified RPC".to_owned(),
        Warning::AmbiguousSignature { candidates } => {
            let mut s: String = "⚠ ambiguous: ".to_owned();
            s.append(truncate(join(candidates, ", ").as_str(), 60).as_str());
            s
        },
        Warning::BytecodeMismatch { candidates } => {
            let mut s: String =
                "⚠ possible spoof — on-chain code matches no known signature (claimed: ".to_owned();
            s.append(truncate(join(candidates, ", ").as_str(), 48).as_str());
            s.append(")");
            s
        },
        Warning::UnaccountedCalldata { decoded, total } => {
            let hidden: usize = if *total >= *decoded {
                *total - *decoded
            } else {
                0
            };
            let mut s: String = "⚠ ".to_owned();
            s.append(decimal_usize(hidden).as_str());
            s.append(" byte(s) of calldata are not shown above — the arguments account for ");
            s.append(decimal_usize(*decoded).as_str());
            s.append(" of ");
            s.append(decimal_usize(*total).as_str());
            s
        },
    }
}

/// Whether a warning belongs to a run of strips.
fn is_among(w: &Warning, which: Strips) -> (r: bool)
    ensures
        r == belongs(*w, which),
{
    let doubts: bool = match w {
        Warning::AmbiguousSignature { .. } => true,
        Warning::BytecodeMismatch { .. } => true,
        _ => false,
    };
    match which {
        Strips::Doubt => doubts || match w {
            Warning::UnaccountedCalldata { .. } => true,
            _ => false,
        },
        Strips::Lead => doubts,
        Strips::Foot => !doubts,
    }
}

/// Appends a line.
fn push_line(lines: &mut Vec<PanelLine>, line: PanelLine)
    ensures
        models(final(lines)@) == models(old(lines)@).push(line@),
{
    let ghost before = lines@;
    lines.push(line);
    proof {
        assert(models(lines@) =~= models(before).push(line@));
    }
}

/// The strips of those warnings that belong, in order.
fn strips_of(ws: &Vec<Warning>, which: Strips) -> (r: Vec<PanelLine>)
    ensures
        models(r@) == strips(ws@, which),
{
    let mut lines: Vec<PanelLine> = none_of();
    let mut i: usize = 0;
    proof {
        assert(ws@.take(0) =~= seq![]);
    }
    while i < ws.len()
        invariant
            i <= ws@.len(),
            models(lines@) == strips(ws@.take(i as int), which),
        decreases ws@.len() - i,
    {
        proof {
            lemma_next(ws@, i as int);
        }
        if is_among(&ws[i], which) {
            push_line(&mut lines, PanelLine::Strip(warning_strip(&ws[i])));
        }
        i = i + 1;
    }
    proof {
        assert(ws@.take(i as int) =~= ws@);
    }
    lines
}

/// Appends lines.
fn append_lines(lines: &mut Vec<PanelLine>, more: Vec<PanelLine>)
    ensures
        models(final(lines)@) == models(old(lines)@) + models(more@),
{
    let ghost before = lines@;
    let ghost added = more@;
    let mut more = more;
    lines.append(&mut more);
    proof {
        assert(models(lines@) =~= models(before) + models(added));
    }
}

// ── rows ────────────────────────────────────────────────────────────

/// Values longer than this do not fit beside their label.
pub const VALUE_INLINE_MAX: usize = 20;

/// A label and a value; a long value gets a line of its own.
pub open spec fn value_line(
    indent: int,
    label: Seq<char>,
    value: Seq<char>,
    muted: bool,
) -> LineModel {
    LineModel::Value { indent, label, value, stacked: value.len() > VALUE_INLINE_MAX, muted }
}

/// A labelled value of a descriptor: an address to check character by
/// character where the value is exactly one, and text otherwise.
pub open spec fn item_line(label: Seq<char>, value: Seq<char>, indent: int) -> LineModel {
    match spelled_address(trimmed(value)) {
        Some(addr) => LineModel::Address { indent, label: "· "@ + label, addr },
        None => value_line(indent, "· "@ + label, clamped(value, 48), false),
    }
}

/// The value of an argument, as shown.
pub open spec fn arg_text(d: ArgDisplay) -> Seq<char> {
    match d {
        ArgDisplay::Address { addr, ens } => match ens {
            Some(name) => name@ + "  "@ + addr.short_text(),
            None => addr.short_text(),
        },
        ArgDisplay::Uint { formatted } => formatted@,
        ArgDisplay::Int { formatted } => formatted@,
        ArgDisplay::Bool(b) => if b {
            "true"@
        } else {
            "false"@
        },
        ArgDisplay::Text(s) => "\""@ + clamped(s@, 48) + "\""@,
        ArgDisplay::Bytes(b) => "0x"@ + clamped(hex_bytes(b@), 32),
        ArgDisplay::Raw(s) => clamped(s@, 48),
    }
}

/// The label of an argument: its name, where it has one, and its type.
pub open spec fn arg_label(name: Option<Seq<char>>, ty: SolType) -> Seq<char> {
    match name {
        Some(n) => if n.len() == 0 {
            "· "@ + type_text(ty)
        } else {
            "· "@ + n + ": "@ + type_text(ty)
        },
        None => "· "@ + type_text(ty),
    }
}

/// The row of an argument.
pub open spec fn arg_line(a: CallArg) -> LineModel {
    value_line(0, arg_label(model_of(a.name), a.ty), arg_text(a.display), false)
}

/// The rows of arguments, in order.
pub open spec fn arg_lines(s: Seq<CallArg>) -> Seq<LineModel> {
    s.map_values(|a: CallArg| arg_line(a))
}

/// A label and a value; a long value gets a line of its own.
fn labeled_value(indent: u32, label: String, value: String, muted: bool) -> (r: PanelLine)
    ensures
        r@ == value_line(indent as int, label@, value@, muted),
{
    let stacked: bool = chars_of(value.as_str()).len() > VALUE_INLINE_MAX;
    PanelLine::Value { indent, label, value, stacked, muted }
}

/// A label behind its dot.
fn dotted(label: &str) -> (r: String)
    ensures
        r@ == "· "@ + label@,
{
    let mut s: String = "· ".to_owned();
    s.append(label);
    s
}

/// The row of a labelled value.
fn display_item_row(item: &DisplayItem, indent: u32) -> (r: PanelLine)
    ensures
        r@ == item_line(item.label@, item.value@, indent as int),
{
    let label: String = dotted(item.label.as_str());
    match parse_hex_address(trim(item.value.as_str()).as_str()) {
        Some(addr) => PanelLine::Address { indent, label, addr },
        None => labeled_value(indent, label, truncate(item.value.as_str(), 48), false),
    }
}

/// The value of an argument, as shown.
fn arg_value(d: &ArgDisplay) -> (r: String)
    ensures
        r@ == arg_text(*d),
{
    match d {
        ArgDisplay::Address { addr, ens } => match ens {
            Some(name) => {
                let mut s: String = name.clone();
                s.append("  ");
                s.append(short_address(*addr).as_str());
                s
            },
            None => short_address(*addr),
        },
        ArgDisplay::Uint { formatted } => formatted.clone(),
        ArgDisplay::Int { formatted } => formatted.clone(),
        ArgDisplay::Bool(b) => if *b {
            "true".to_owned()
        } else {
            "false".to_owned()
        },
        ArgDisplay::Text(t) => {
            let mut s: String = "\"".to_owned();
            s.append(truncate(t.as_str(), 48).as_str());
            s.append("\"");
            s
        },
        ArgDisplay::Bytes(b) => {
            let mut s: String = "0x".to_owned();
            s.append(truncate(hex_of_bytes(b).as_str(), 32).as_str());
            s
        },
        ArgDisplay::Raw(t) => truncate(t.as_str(), 48),
    }
}

/// The row of an argument.
fn arg_row(arg: &CallArg) -> (r: PanelLine)
    ensures
        r@ == arg_line(*arg),
{
    let ty: String = ty_short(&arg.ty);
    let label: String = match &arg.name {
        Some(name) => if name.as_str().is_empty() {
            dotted(ty.as_str())
        } else {
            let mut s: String = dotted(name.as_str());
            s.append(": ");
            s.append(ty.as_str());
            s
        },
        None => dotted(ty.as_str()),
    };
    labeled_value(0, label, arg_value(&arg.display), false)
}

// ── descriptor entries ──────────────────────────────────────────────

/// The items that the headline did not spell out, in order.
pub open spec fn unsaid(items: Seq<DisplayItem>, said: Option<Seq<char>>) -> Seq<DisplayItem>
    decreases items.len(),
{
    if items.len() == 0 {
        seq![]
    } else if spells_out(said, items.last().value@) {
        unsaid(items.drop_last(), said)
    } else {
        unsaid(items.drop_last(), said).push(items.last())
    }
}

/// The rows of items, in order.
pub open spec fn item_lines(items: Seq<DisplayItem>, indent: int) -> Seq<LineModel> {
    items.map_values(|i: DisplayItem| item_line(i.label@, i.value@, indent))
}

/// Whether an entry still has something to show without what the headline said.
pub open spec fn entry_shows(entry: DisplayEntry, said: Option<Seq<char>>) -> bool {
    match entry {
        DisplayEntry::Item(item) => !spells_out(said, item.value@),
        DisplayEntry::Group { items, .. } => exists|i: int|
            0 <= i < items@.len() && !spells_out(said, (#[trigger] items@[i]).value@),
        DisplayEntry::Nested { .. } => true,
    }
}

/// The lines of an entry at a depth of nesting. A group whose every item was
/// said takes its label with it.
pub open spec fn entry_lines(entry: DisplayEntry, depth: nat, said: Option<Seq<char>>) -> Seq<
    LineModel,
>
    decreases entry,
{
    let indent = (depth * 12) as int;
    match entry {
        DisplayEntry::Item(item) => if spells_out(said, item.value@) {
            seq![]
        } else {
            seq![item_line(item.label@, item.value@, indent)]
        },
        DisplayEntry::Group { label, items } => if unsaid(items@, said).len() == 0 {
            seq![]
        } else {
            seq![LineModel::Heading { indent, label: label@ }] + item_lines(
                unsaid(items@, said),
                indent + 8,
            )
        },
        DisplayEntry::Nested { label, intent, entries } => seq![
            LineModel::Nested { indent, label: label@, intent: intent@ },
        ] + nested_lines(entries@, depth + 1, said),
    }
}

/// The lines of entries, in order.
pub open spec fn nested_lines(s: Seq<DisplayEntry>, depth: nat, said: Option<Seq<char>>) -> Seq<
    LineModel,
>
    decreases s,
{
    if s.len() == 0 {
        seq![]
    } else {
        nested_lines(s.drop_last(), depth, said) + entry_lines(s.last(), depth, said)
    }
}

/// Whether an entry nests at most `room` deep.
pub open spec fn fits(entry: DisplayEntry, room: nat) -> bool
    decreases entry,
{
    match entry {
        DisplayEntry::Nested { entries, .. } => room > 0 && all_fit(entries@, (room - 1) as nat),
        _ => true,
    }
}

/// Whether every entry nests at most `room` deep.
pub open spec fn all_fit(s: Seq<DisplayEntry>, room: nat) -> bool
    decreases s,
{
    s.len() == 0 || (all_fit(s.drop_last(), room) && fits(s.last(), room))
}

/// Every entry of a fitting list fits.
proof fn lemma_all_fit(s: Seq<DisplayEntry>, room: nat, i: int)
    requires
        all_fit(s, room),
        0 <= i < s.len(),
    ensures
        fits(s[i], room),
    decreases s.len(),
{
    if i < s.len() - 1 {
        lemma_all_fit(s.drop_last(), room, i);
        assert(s.drop_last()[i] == s[i]);
    }
}

/// Something is left of a group exactly when one of its items was not said.
proof fn lemma_unsaid(items: Seq<DisplayItem>, said: Option<Seq<char>>)
    ensures
        (unsaid(items, said).len() > 0) == (exists|i: int|
            0 <= i < items.len() && !spells_out(said, (#[trigger] items[i]).value@)),
    decreases items.len(),
{
    if items.len() > 0 {
        let init = items.drop_last();
        lemma_unsaid(init, said);
        if unsaid(init, said).len() > 0 {
            let i = choose|i: int|
                0 <= i < init.len() && !spells_out(said, (#[trigger] init[i]).value@);
            assert(items[i] == init[i]);
        } else if !spells_out(said, items.last().value@) {
            assert(!spells_out(said, items[items.len() - 1].value@));
        } else {
            assert forall|i: int| 0 <= i < items.len() implies spells_out(
                said,
                (#[trigger] items[i]).value@,
            ) by {
                if i < items.len() - 1 {
                    assert(init[i] == items[i]);
                }
            }
        }
    }
}

/// An entry that still has something to show has lines, and no other has.
pub proof fn lemma_shown_entry_has_lines(
    entry: DisplayEntry,
    depth: nat,
    said: Option<Seq<char>>,
)
    ensures
        entry_shows(entry, said) == (entry_lines(entry, depth, said).len() > 0),
{
    match entry {
        DisplayEntry::Group { items, .. } => {
            lemma_unsaid(items@, said);
        },
        _ => {},
    }
}

/// Whether an entry still has something to show without what the headline said.
pub fn entry_is_visible(entry: &DisplayEntry, said: Option<&str>) -> (r: bool)
    ensures
        r == entry_shows(*entry, model_of(said)),
{
    match entry {
        DisplayEntry::Item(item) => !already_said(said, item.value.as_str()),
        DisplayEntry::Group { items, .. } => {
            let mut i: usize = 0;
            while i < items.len()
                invariant
                    i <= items@.len(),
                    entry matches DisplayEntry::Group { items: it, .. } && it == items,
                    forall|k: int|
                        0 <= k < i ==> spells_out(model_of(said), (#[trigger] items@[k]).value@),
                decreases items@.len() - i,
            {
                if !already_said(said, items[i].value.as_str()) {
                    return true;
                }
                i = i + 1;
            }
            false
        },
        DisplayEntry::Nested { .. } => true,
    }
}

/// The lines of a group's items that the headline did not spell out.
fn group_rows(items: &Vec<DisplayItem>, indent: u32, said: Option<&str>) -> (r: Vec<PanelLine>)
    ensures
        models(r@) == item_lines(unsaid(items@, model_of(said)), indent as int),
{
    let mut lines: Vec<PanelLine> = none_of();
    let mut i: usize = 0;
    proof {
        assert(items@.take(0) =~= seq![]);
        assert(item_lines(seq![], indent as int) =~= seq![]);
    }
    while i < items.len()
        invariant
            i <= items@.len(),
            models(lines@) == item_lines(
                unsaid(items@.take(i as int), model_of(said)),
                indent as int,
            ),
        decreases items@.len() - i,
    {
        let ghost kept = unsaid(items@.take(i as int), model_of(said));
        proof {
            lemma_next(items@, i as int);
        }
        if !already_said(said, items[i].value.as_str()) {
            push_line(&mut lines, display_item_row(&items[i], indent));
            proof {
                assert(item_lines(kept.push(items@[i as int]), indent as int) =~= item_lines(
                    kept,
                    indent as int,
                ).push(
                    item_line(items@[i as int].label@, items@[i as int].value@, indent as int),
                ));
            }
        }
        i = i + 1;
    }
    proof {
        assert(items@.take(i as int) =~= items@);
    }
    lines
}

/// The lines of an entry at a depth of nesting, without what the headline said.
fn entry_rows(entry: &DisplayEntry, depth: u16, said: Option<&str>) -> (r: Vec<PanelLine>)
    requires
        fits(*entry, (u16::MAX - depth) as nat),
    ensures
        models(r@) == entry_lines(*entry, depth as nat, model_of(said)),
    decreases entry,
{
    let indent: u32 = depth as u32 * 12;
    let mut lines: Vec<PanelLine> = none_of();
    match entry {
        DisplayEntry::Item(item) => {
            if !already_said(said, item.value.as_str()) {
                push_line(&mut lines, display_item_row(item, indent));
                proof {
                    assert(models(lines@) =~= seq![
                        item_line(item.label@, item.value@, indent as int),
                    ]);
                }
            }
        },
        DisplayEntry::Group { label, items } => {
            let rows: Vec<PanelLine> = group_rows(items, indent + 8, said);
            proof {
                assert(rows@.len() == models(rows@).len());
                assert(models(rows@).len() == unsaid(items@, model_of(said)).len());
            }
            if rows.len() > 0 {
                push_line(&mut lines, PanelLine::Heading { indent, label: label.clone() });
                append_lines(&mut lines, rows);
                proof {
                    assert(models(lines@) =~= seq![
                        LineModel::Heading { indent: indent as int, label: label@ },
                    ] + models(rows@));
                }
            }
        },
        DisplayEntry::Nested { label, intent, entries } => {
            push_line(
                &mut lines,
                PanelLine::Nested { indent, label: label.clone(), intent: intent.clone() },
            );
            let ghost head = models(lines@);
            let mut i: usize = 0;
            proof {
                assert(entries@.take(0) =~= seq![]);
                assert(head + nested_lines(seq![], (depth + 1) as nat, model_of(said)) =~= head);
            }
            while i < entries.len()
                invariant
                    i <= entries@.len(),
                    entry matches DisplayEntry::Nested { entries: e, .. } && e == entries,
                    depth < u16::MAX,
                    all_fit(entries@, (u16::MAX - depth - 1) as nat),
                    models(lines@) == head + nested_lines(
                        entries@.take(i as int),
                        (depth + 1) as nat,
                        model_of(said),
                    ),
                decreases entries@.len() - i,
            {
                proof {
                    lemma_next(entries@, i as int);
                    lemma_all_fit(entries@, (u16::MAX - depth - 1) as nat, i as int);
                }
                let ghost before = models(lines@);
                let rows: Vec<PanelLine> = entry_rows(&entries[i], depth + 1, said);
                append_lines(&mut lines, rows);
                proof {
                    assert(models(lines@) =~= head + nested_lines(
                        entries@.take(i + 1),
                        (depth + 1) as nat,
                        model_of(said),
                    ));
                }
                i = i + 1;
            }
            proof {
                assert(entries@.take(i as int) =~= entries@);
                assert(head =~= seq![
                    LineModel::Nested { indent: indent as int, label: label@, intent: intent@ },
                ]);
            }
        },
    }
    lines
}

// ── the panel ───────────────────────────────────────────────────────

/// The strips of those diagnostics that are warnings, in order.
pub open spec fn diagnostic_lines(s: Seq<Diagnostic>) -> Seq<LineModel>
    decreases s.len(),
{
    if s.len() == 0 {
        seq![]
    } else {
        let rest = diagnostic_lines(s.drop_last());
        if s.last().is_warning {
            rest.push(LineModel::Strip("⚠ "@ + s.last().message@))
        } else {
            rest
        }
    }
}

/// Lines at the foot, set off by a gap; nothing when there are none.
pub open spec fn foot(lines: Seq<LineModel>) -> Seq<LineModel> {
    if lines.len() == 0 {
        seq![]
    } else {
        seq![LineModel::Gap] + lines
    }
}

/// A panel of lines, or none when there is no line.
pub open spec fn panel_of(lines: Seq<LineModel>) -> Option<PanelModel> {
    if lines.len() == 0 {
        None
    } else {
        Some(PanelModel::Lines(lines))
    }
}

/// The lines of a descriptor: what casts doubt on it, what the headline did not
/// say, and the formatter's warnings.
pub open spec fn clear_signed_lines(
    entries: Seq<DisplayEntry>,
    diagnostics: Seq<Diagnostic>,
    warnings: Seq<Warning>,
    said: Option<Seq<char>>,
) -> Seq<LineModel> {
    strips(warnings, Strips::Doubt) + nested_lines(entries, 0, said) + foot(diagnostic_lines(diagnostics))
}

/// The raw bytes of a call whose argument types are unknown.
pub open spec fn raw_lines(d: DecodedCall) -> Seq<LineModel> {
    if d.args@.len() == 0 && d.state is Unknown {
        seq![value_line(0, "· raw"@, "0x"@ + clamped(hex_bytes(d.raw_calldata@), 64), true)]
    } else {
        seq![]
    }
}

/// The lines of a mechanical decode: what casts doubt on the name, the
/// arguments or else the raw bytes, and the other warnings.
pub open spec fn heuristic_lines(d: DecodedCall) -> Seq<LineModel> {
    strips(d.warnings@, Strips::Lead) + arg_lines(d.args@) + raw_lines(d) + foot(
        strips(d.warnings@, Strips::Foot),
    )
}

/// The panel of a decode whose headline reads `said`.
pub open spec fn panel(
    decoded: Option<DecodeResult>,
    said: Option<Seq<char>>,
    loading: bool,
) -> Option<PanelModel> {
    if loading {
        Some(PanelModel::Loading)
    } else {
        match decoded {
            Some(DecodeResult::ClearSigned { entries, diagnostics, warnings }) => panel_of(
                clear_signed_lines(entries@, diagnostics@, warnings@, said),
            ),
            Some(DecodeResult::Fallback { entries, diagnostics, heuristic }) => panel_of(
                clear_signed_lines(entries@, diagnostics@, heuristic.warnings@, said),
            ),
            Some(DecodeResult::Heuristic(d)) => if d.state is Empty {
                None
            } else {
                panel_of(heuristic_lines(d))
            },
            Some(DecodeResult::Empty) => None,
            None => None,
        }
    }
}

/// Whether the entries of a decode nest no deeper than the panel can indent.
pub open spec fn indentable(decoded: Option<DecodeResult>) -> bool {
    match decoded {
        Some(DecodeResult::ClearSigned { entries, .. }) => all_fit(entries@, u16::MAX as nat),
        Some(DecodeResult::Fallback { entries, .. }) => all_fit(entries@, u16::MAX as nat),
        _ => true,
    }
}

/// Lines at the foot, set off by a gap.
fn append_foot(lines: &mut Vec<PanelLine>, more: Vec<PanelLine>)
    ensures
        models(final(lines)@) == models(old(lines)@) + foot(models(more@)),
{
    let ghost before = models(lines@);
    proof {
        assert(models(more@).len() == more@.len());
    }
    if more.len() > 0 {
        push_line(lines, PanelLine::Gap);
        append_lines(lines, more);
        proof {
            assert(models(lines@) =~= before + foot(models(more@)));
        }
    } else {
        proof {
            assert(before + foot(models(more@)) =~= before);
        }
    }
}

/// The strips of those diagnostics that are warnings.
fn diagnostic_strips(ds: &Vec<Diagnostic>) -> (r: Vec<PanelLine>)
    ensures
        models(r@) == diagnostic_lines(ds@),
{
    let mut lines: Vec<PanelLine> = none_of();
    let mut i: usize = 0;
    proof {
        assert(ds@.take(0) =~= seq![]);
    }
    while i < ds.len()
        invariant
            i <= ds@.len(),
            models(lines@) == diagnostic_lines(ds@.take(i as int)),
        decreases ds@.len() - i,
    {
        proof {
            lemma_next(ds@, i as int);
        }
        if ds[i].is_warning {
            let mut s: String = "⚠ ".to_owned();
            s.append(ds[i].message.as_str());
            push_line(&mut lines, PanelLine::Strip(s));
        }
        i = i + 1;
    }
    proof {
        assert(ds@.take(i as int) =~= ds@);
    }
    lines
}

/// A panel of lines, or none when there is no line.
fn panel_with(lines: Vec<PanelLine>) -> (r: Option<Panel>)
    ensures
        model_of(r) == panel_of(models(lines@)),
{
    proof {
        assert(models(lines@).len() == lines@.len());
    }
    if lines.len() == 0 {
        None
    } else {
        Some(Panel::Lines(lines))
    }
}

/// The panel of a descriptor.
pub fn clear_signed_panel(
    entries: &Vec<DisplayEntry>,
    diagnostics: &Vec<Diagnostic>,
    warnings: &Vec<Warning>,
    said: Option<&str>,
) -> (r: Option<Panel>)
    requires
        all_fit(entries@, u16::MAX as nat),
    ensures
        model_of(r) == panel_of(
            clear_signed_lines(entries@, diagnostics@, warnings@, model_of(said)),
        ),
{
    let mut lines: Vec<PanelLine> = strips_of(warnings, Strips::Doubt);
    let ghost head = models(lines@);
    let mut i: usize = 0;
    proof {
        assert(entries@.take(0) =~= seq![]);
        assert(head + nested_lines(seq![], 0, model_of(said)) =~= head);
    }
    while i < entries.len()
        invariant
            i <= entries@.len(),
            all_fit(entries@, u16::MAX as nat),
            models(lines@) == head + nested_lines(entries@.take(i as int), 0, model_of(said)),
        decreases entries@.len() - i,
    {
        proof {
            lemma_next(entries@, i as int);
            lemma_all_fit(entries@, u16::MAX as nat, i as int);
            lemma_shown_entry_has_lines(entries@[i as int], 0, model_of(said));
        }
        if entry_is_visible(&entries[i], said) {
            let rows: Vec<PanelLine> = entry_rows(&entries[i], 0, said);
            append_lines(&mut lines, rows);
        }
        proof {
            assert(models(lines@) =~= head + nested_lines(
                entries@.take(i + 1),
                0,
                model_of(said),
            ));
        }
        i = i + 1;
    }
    proof {
        assert(entries@.take(i as int) =~= entries@);
    }
    append_foot(&mut lines, diagnostic_strips(diagnostics));
    panel_with(lines)
}

/// The panel of a mechanical decode.
pub fn heuristic_panel(d: &DecodedCall) -> (r: Option<Panel>)
    ensures
        model_of(r) == panel_of(heuristic_lines(*d)),
{
    let mut lines: Vec<PanelLine> = strips_of(&d.warnings, Strips::Lead);
    let ghost head = models(lines@);
    let mut i: usize = 0;
    proof {
        assert(head + arg_lines(d.args@.take(0)) =~= head);
    }
    while i < d.args.len()
        invariant
            i <= d.args@.len(),
            models(lines@) == head + arg_lines(d.args@.take(i as int)),
        decreases d.args@.len() - i,
    {
        push_line(&mut lines, arg_row(&d.args[i]));
        proof {
            assert(models(lines@) =~= head + arg_lines(d.args@.take(i + 1)));
        }
        i = i + 1;
    }
    proof {
        assert(d.args@.take(i as int) =~= d.args@);
    }
    if d.args.len() == 0 && d.state == ResolutionState::Unknown {
        let mut s: String = "0x".to_owned();
        s.append(truncate(hex_of_bytes(&d.raw_calldata).as_str(), 64).as_str());
        push_line(&mut lines, labeled_value(0, "· raw".to_owned(), s, true));
    }
    proof {
        assert(models(lines@) =~= head + arg_lines(d.args@) + raw_lines(*d));
    }
    append_foot(&mut lines, strips_of(&d.warnings, Strips::Foot));
    panel_with(lines)
}

/// The panel: the mechanical half of a decode, without what the headline
/// already says. `None` when there would be nothing in it.
pub fn view(decoded: Option<&DecodeResult>, said: Option<&str>, loading: bool) -> (r: Option<Panel>)
    requires
        indentable(match decoded {
            Some(d) => Some(*d),
            None => None,
        }),
    ensures
        model_of(r) == panel(
            match decoded {
                Some(d) => Some(*d),
                None => None,
            },
            model_of(said),
            loading,
        ),
{
    if loading {
        return Some(Panel::Loading);
    }
    match decoded {
        Some(DecodeResult::ClearSigned { entries, diagnostics, warnings }) => clear_signed_panel(
            entries,
            diagnostics,
            warnings,
            said,
        ),
        Some(DecodeResult::Fallback { entries, diagnostics, heuristic }) => clear_signed_panel(
            entries,
            diagnostics,
            &heuristic.warnings,
            said,
        ),
        Some(DecodeResult::Heuristic(d)) => if d.state == ResolutionState::Empty {
            None
        } else {
            heuristic_panel(d)
        },
        Some(DecodeResult::Empty) => None,
        None => None,
    }
}

} // verus!
