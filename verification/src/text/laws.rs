//! What holds of every text that is built or taken apart.

use vstd::prelude::*;

use crate::text::dec;
use crate::text::dec_fixed;
use crate::text::first_less_at;
use crate::text::hex_bytes;
use crate::text::hex_digit;
use crate::text::hex_value;
use crate::text::is_space;
use crate::text::joined;
use crate::text::lower_char;
use crate::text::lowered;
use crate::text::model_of;
use crate::text::models;
use crate::text::plural;
use crate::text::sorts_before;
use crate::text::ten_to;
use crate::text::trimmed;
use crate::text::trimmed_end;
use crate::text::trimmed_start;

verus! {

/// Whether `part` stands somewhere in `whole`.
pub open spec fn says(whole: Seq<char>, part: Seq<char>) -> bool {
    exists|i: int| stands_at(whole, part, i)
}

/// Whether `part` stands in `whole` at `i`.
pub open spec fn stands_at(whole: Seq<char>, part: Seq<char>, i: int) -> bool {
    0 <= i && i + part.len() <= whole.len() && whole.subrange(i, i + part.len()) == part
}

/// A text says what it was put together from.
pub proof fn lemma_says(before: Seq<char>, part: Seq<char>, after: Seq<char>)
    ensures
        says(before + part + after, part),
{
    assert((before + part + after).subrange(
        before.len() as int,
        (before.len() + part.len()) as int,
    ) =~= part);
    assert(stands_at(before + part + after, part, before.len() as int));
}

/// The number that decimal digits denote.
pub open spec fn read_decimal(s: Seq<char>) -> nat
    decreases s.len(),
{
    if s.len() == 0 {
        0
    } else {
        (read_decimal(s.drop_last()) * 10 + (s.last() as int - '0' as int)) as nat
    }
}

/// Whether every character is a decimal digit.
pub open spec fn all_decimal(s: Seq<char>) -> bool {
    forall|i: int| 0 <= i < s.len() ==> '0' <= #[trigger] s[i] && s[i] <= '9'
}

/// A number in decimal reads back as that number, and has no leading zero.
pub proof fn a_decimal_reads_back(n: nat)
    ensures
        dec(n).len() > 0,
        all_decimal(dec(n)),
        read_decimal(dec(n)) == n,
        n > 0 ==> dec(n)[0] != '0',
        n == 0 ==> dec(n).len() == 1,
    decreases n,
{
    let s = dec(n);
    if n >= 10 {
        let init = dec(n / 10);
        a_decimal_reads_back(n / 10);
        assert(s.drop_last() =~= init);
        assert(s[0] == init[0]);
        assert forall|i: int| 0 <= i < s.len() implies '0' <= #[trigger] s[i] && s[i] <= '9' by {
            if i < init.len() {
                assert(s[i] == init[i]);
            }
        }
    } else {
        assert(s.drop_last() =~= seq![]);
        assert(read_decimal(s.drop_last()) == 0);
    }
}

/// Different numbers look different in decimal.
pub proof fn decimals_differ(a: nat, b: nat)
    requires
        a != b,
    ensures
        dec(a) != dec(b),
{
    a_decimal_reads_back(a);
    a_decimal_reads_back(b);
}

/// A number padded to a width has that many digits, which read back as the
/// number where it fits.
pub proof fn a_padded_decimal_reads_back(n: nat, width: nat)
    ensures
        dec_fixed(n, width).len() == width,
        all_decimal(dec_fixed(n, width)),
        n < ten_to(width) ==> read_decimal(dec_fixed(n, width)) == n,
    decreases width,
{
    let s = dec_fixed(n, width);
    if width > 0 {
        let init = dec_fixed(n / 10, (width - 1) as nat);
        a_padded_decimal_reads_back(n / 10, (width - 1) as nat);
        assert(s.drop_last() =~= init);
        assert forall|i: int| 0 <= i < s.len() implies '0' <= #[trigger] s[i] && s[i] <= '9' by {
            if i < init.len() {
                assert(s[i] == init[i]);
            }
        }
    }
}

/// Each byte takes two digits, the high one first, and the digits stand in the
/// order of the bytes.
pub proof fn each_byte_takes_two_digits(b: Seq<u8>, i: int)
    requires
        0 <= i < b.len(),
    ensures
        hex_bytes(b).len() == 2 * b.len(),
        hex_value(hex_bytes(b)[2 * i]) == Some((b[i] / 16) as nat),
        hex_value(hex_bytes(b)[2 * i + 1]) == Some((b[i] % 16) as nat),
        !('A' <= hex_bytes(b)[2 * i] && hex_bytes(b)[2 * i] <= 'F'),
        !('A' <= hex_bytes(b)[2 * i + 1] && hex_bytes(b)[2 * i + 1] <= 'F'),
    decreases b.len(),
{
    let init = b.drop_last();
    lemma_hex_bytes_len(b);
    lemma_hex_bytes_len(init);
    let h = hex_bytes(b);
    if i < init.len() {
        each_byte_takes_two_digits(init, i);
        assert(h[2 * i] == hex_bytes(init)[2 * i]);
        assert(h[2 * i + 1] == hex_bytes(init)[2 * i + 1]);
    } else {
        assert(h[2 * i] == hex_digit((b.last() / 16) as int));
        assert(h[2 * i + 1] == hex_digit((b.last() % 16) as int));
    }
}

proof fn lemma_hex_bytes_len(b: Seq<u8>)
    ensures
        hex_bytes(b).len() == 2 * b.len(),
    decreases b.len(),
{
    if b.len() > 0 {
        lemma_hex_bytes_len(b.drop_last());
    }
}

/// Different bytes look different in hexadecimal.
pub proof fn hexadecimals_differ(a: Seq<u8>, b: Seq<u8>)
    requires
        a != b,
    ensures
        hex_bytes(a) != hex_bytes(b),
{
    lemma_hex_bytes_len(a);
    lemma_hex_bytes_len(b);
    if hex_bytes(a) == hex_bytes(b) {
        assert forall|i: int| 0 <= i < a.len() implies a[i] == b[i] by {
            each_byte_takes_two_digits(a, i);
            each_byte_takes_two_digits(b, i);
        }
        assert(a =~= b);
    }
}

/// Whether all of a text is white space.
pub open spec fn blank(s: Seq<char>) -> bool {
    forall|i: int| 0 <= i < s.len() ==> is_space(#[trigger] s[i])
}

/// Trimming takes white space off the two ends, all of it and nothing else.
pub proof fn trimming_takes_the_ends(before: Seq<char>, s: Seq<char>, after: Seq<char>)
    requires
        blank(before),
        blank(after),
        s.len() == 0 || (!is_space(s[0]) && !is_space(s.last())),
    ensures
        trimmed(before + s + after) == s,
{
    lemma_trim_front(before, s + after);
    assert(before + (s + after) =~= before + s + after);
    if s.len() == 0 {
        assert(s + after =~= after);
        lemma_trim_blank(after);
        lemma_trim_blank(before + after);
        assert(before + s + after =~= before + after);
        assert forall|i: int| 0 <= i < (before + after).len() implies is_space(
            #[trigger] (before + after)[i],
        ) by {
            if i < before.len() {
                assert(is_space(before[i]));
            } else {
                assert(is_space(after[i - before.len()]));
            }
        }
        lemma_trim_blank(before + after);
        assert(trimmed(before + s + after) =~= s);
    } else {
        assert((s + after)[0] == s[0]);
        lemma_trim_back(s, after);
    }
}

proof fn lemma_trim_front(before: Seq<char>, rest: Seq<char>)
    requires
        blank(before),
    ensures
        trimmed_start(before + rest) == trimmed_start(rest),
    decreases before.len(),
{
    if before.len() > 0 {
        assert(is_space(before[0]));
        let tail = before.drop_first();
        assert forall|i: int| 0 <= i < tail.len() implies is_space(#[trigger] tail[i]) by {
            assert(is_space(before[i + 1]));
        }
        lemma_trim_front(tail, rest);
        assert((before + rest).drop_first() =~= tail + rest);
    } else {
        assert(before + rest =~= rest);
    }
}

proof fn lemma_trim_back(rest: Seq<char>, after: Seq<char>)
    requires
        blank(after),
        rest.len() > 0,
        !is_space(rest.last()),
    ensures
        trimmed_end(rest + after) == rest,
    decreases after.len(),
{
    if after.len() > 0 {
        assert(is_space(after[after.len() - 1]));
        let head = after.drop_last();
        assert forall|i: int| 0 <= i < head.len() implies is_space(#[trigger] head[i]) by {
            assert(is_space(after[i]));
        }
        lemma_trim_back(rest, head);
        assert((rest + after).drop_last() =~= rest + head);
    } else {
        assert(rest + after =~= rest);
    }
}

/// Nothing is left of white space.
pub proof fn lemma_trim_blank(s: Seq<char>)
    ensures
        blank(s) ==> trimmed(s).len() == 0,
{
    if blank(s) {
        lemma_trim_front(s, seq![]);
        assert(s + Seq::<char>::empty() =~= s);
    }
}

/// Among the ASCII characters the space, and those from tab to carriage return,
/// are white space.
pub proof fn ascii_white_space(c: char)
    requires
        (c as u32) < 128,
    ensures
        is_space(c) == (c == ' ' || ('\t' <= c && c <= '\r')),
{
}

/// Folding the case changes the capitals of ASCII, each into its small letter,
/// and nothing else.
pub proof fn only_capitals_are_folded(s: Seq<char>, i: int)
    requires
        0 <= i < s.len(),
    ensures
        lowered(s).len() == s.len(),
        'A' <= s[i] && s[i] <= 'Z' ==> lowered(s)[i] as int - s[i] as int == 'a' as int
            - 'A' as int,
        !('A' <= s[i] && s[i] <= 'Z') ==> lowered(s)[i] == s[i],
{
    assert(lowered(s)[i] == lower_char(s[i]));
}

/// One thing is singular, and any other number of things plural.
pub proof fn only_one_is_singular(n: nat)
    ensures
        plural(1).len() == 0,
        n != 1 ==> plural(n) == "s"@,
{
    reveal_strlit("s");
    assert("s"@ =~= seq!['s']);
}

/// A list is its parts in order, with the separator between neighbours and
/// nowhere else.
pub proof fn a_list_is_its_parts(a: Seq<Seq<char>>, b: Seq<Seq<char>>, x: Seq<char>, sep: Seq<char>)
    ensures
        joined(Seq::empty(), sep) == Seq::<char>::empty(),
        joined(seq![x], sep) == x,
        a.len() > 0 && b.len() > 0 ==> joined(a + b, sep) == joined(a, sep) + sep + joined(b, sep),
    decreases b.len(),
{
    if a.len() > 0 && b.len() > 0 {
        let whole = a + b;
        assert(whole.drop_last() =~= a + b.drop_last());
        assert(whole.last() == b.last());
        if b.len() == 1 {
            assert(whole.drop_last() =~= a);
            assert(joined(b, sep) == b[0]);
        } else {
            a_list_is_its_parts(a, b.drop_last(), x, sep);
            assert(joined(whole, sep) =~= joined(a, sep) + sep + joined(b, sep));
        }
    }
}

/// A list says each of its parts.
pub proof fn a_list_says_each_part(parts: Seq<Seq<char>>, sep: Seq<char>, i: int)
    requires
        0 <= i < parts.len(),
    ensures
        says(joined(parts, sep), parts[i]),
    decreases parts.len(),
{
    let n = Seq::<char>::empty();
    if parts.len() == 1 {
        lemma_says(n, parts[0], n);
        assert(n + parts[0] + n =~= parts[0]);
    } else {
        let init = parts.drop_last();
        let head = joined(init, sep);
        if i < init.len() {
            a_list_says_each_part(init, sep, i);
            let k = choose|k: int| stands_at(head, init[i], k);
            let whole = joined(parts, sep);
            assert(whole =~= head + (sep + parts.last()));
            assert(whole.subrange(k, k + parts[i].len()) =~= head.subrange(k, k + parts[i].len()));
            assert(stands_at(whole, parts[i], k));
        } else {
            lemma_says(head + sep, parts[i], n);
            assert(head + sep + parts[i] + n =~= joined(parts, sep));
        }
    }
}

/// The models of a list are those of its items, each in its place, and the model of
/// what may be absent is there exactly when it is.
pub proof fn lists_are_modelled_item_by_item<T: View>(s: Seq<T>, i: int, o: Option<T>)
    ensures
        models(s).len() == s.len(),
        0 <= i < s.len() ==> models(s)[i] == s[i]@,
        o is None ==> model_of(o) is None,
        o matches Some(x) ==> model_of(o) == Some(x@),
{
}

/// The digits of a hexadecimal number have the values they are named for, in either
/// case, and no other character is a digit.
pub proof fn a_digit_has_its_value(c: char, d: int)
    ensures
        0 <= d < 10 && c as int == '0' as int + d ==> hex_value(c) == Some(d as nat),
        10 <= d < 16 && c as int == 'a' as int + d - 10 ==> hex_value(c) == Some(d as nat),
        10 <= d < 16 && c as int == 'A' as int + d - 10 ==> hex_value(c) == Some(d as nat),
        hex_value(c) is Some ==> hex_value(c)->0 < 16,
        hex_value(c) is Some <==> ('0' <= c && c <= '9') || ('a' <= c && c <= 'f') || ('A' <= c && c
            <= 'F'),
{
}

/// Texts sort by their first difference, and a text sorts before any that goes on
/// from it; none sorts before itself.
pub proof fn texts_sort_by_their_first_difference(
    a: Seq<char>,
    c: char,
    d: char,
    x: Seq<char>,
    y: Seq<char>,
)
    ensures
        c < d ==> sorts_before(a + seq![c] + x, a + seq![d] + y),
        x.len() > 0 ==> sorts_before(a, a + x),
        !sorts_before(a, a),
{
    let n = a.len() as int;
    if c < d {
        let l = a + seq![c] + x;
        let r = a + seq![d] + y;
        assert(l.take(n) =~= r.take(n));
        assert(first_less_at(l, r, n));
    }
    if x.len() > 0 {
        assert(a.take(n) =~= (a + x).take(n));
        assert(first_less_at(a, a + x, n));
    }
    if sorts_before(a, a) {
        let i = choose|i: int| first_less_at(a, a, i);
        assert(first_less_at(a, a, i));
    }
}

/// White space is what Unicode calls so, and nothing else: the controls of a line,
/// the spaces, the two separators.
pub proof fn what_is_white_space(c: char)
    ensures
        ({
            let u = c as u32;
            &&& u == 0x20 || 0x9 <= u <= 0xd || u == 0x85 || u == 0xa0 ==> is_space(c)
            &&& u == 0x1680 || 0x2000 <= u <= 0x200a || u == 0x202f || u == 0x205f || u == 0x3000
                ==> is_space(c)
            &&& u == 0x2028 || u == 0x2029 ==> is_space(c)
            &&& u <= 0x8 || 0xe <= u <= 0x1f || 0x21 <= u <= 0x84 || 0x86 <= u <= 0x9f
                ==> !is_space(c)
            &&& 0xa1 <= u <= 0x167f || 0x1681 <= u <= 0x1fff ==> !is_space(c)
            &&& 0x200b <= u <= 0x2027 || 0x202a <= u <= 0x202e || 0x2030 <= u <= 0x205e
                ==> !is_space(c)
            &&& 0x2060 <= u <= 0x2fff || u >= 0x3001 ==> !is_space(c)
        }),
{
}

} // verus!
