//! Text building blocks: decimal and hexadecimal digits, trimming, ASCII case
//! folding, and conversions between strings and vectors of characters.

use vstd::prelude::*;

pub mod laws;

verus! {

/// `String::push`: appends one character.
pub assume_specification[ String::push ](s: &mut String, c: char)
    ensures
        final(s)@ == old(s)@.push(c),
;

/// The model of each element, in order.
pub open spec fn models<T: View>(s: Seq<T>) -> Seq<T::V> {
    s.map_values(|x: T| x@)
}

/// The model of an optional value.
pub open spec fn model_of<T: View>(o: Option<T>) -> Option<T::V> {
    match o {
        Some(x) => Some(x@),
        None => None,
    }
}

/// A beginning that is one item longer ends in that item.
pub proof fn lemma_next<T>(s: Seq<T>, i: int)
    requires
        0 <= i < s.len(),
    ensures
        s.take(i + 1) == s.take(i).push(s[i]),
        s.take(i + 1).drop_last() == s.take(i),
        s.take(i + 1).last() == s[i],
{
    assert(s.take(i + 1) =~= s.take(i).push(s[i]));
    assert(s.take(i + 1).drop_last() =~= s.take(i));
}

/// An empty vector.
pub fn none_of<T: View>() -> (r: Vec<T>)
    ensures
        r@ == Seq::<T>::empty(),
        models(r@) == Seq::<T::V>::empty(),
{
    proof {
        assert(models(Seq::<T>::empty()) =~= Seq::<T::V>::empty());
    }
    Vec::new()
}

/// A value that can be duplicated without changing its model.
pub trait Replica: View + Sized {
    fn replica(&self) -> (r: Self)
        ensures
            r@ == self@,
    ;
}

impl Replica for String {
    fn replica(&self) -> (r: Self) {
        self.clone()
    }
}

/// Duplicates a vector element by element.
pub fn replicate<T: Replica>(v: &Vec<T>) -> (r: Vec<T>)
    ensures
        models(r@) == models(v@),
        r@.len() == v@.len(),
{
    let mut out: Vec<T> = Vec::new();
    let mut i: usize = 0;
    while i < v.len()
        invariant
            i <= v@.len(),
            out@.len() == i,
            models(out@) =~= models(v@).take(i as int),
        decreases v@.len() - i,
    {
        out.push(v[i].replica());
        i = i + 1;
    }
    proof {
        assert(models(v@).take(i as int) =~= models(v@));
    }
    out
}

/// Duplicates an optional value.
pub fn replicate_opt<T: Replica>(o: &Option<T>) -> (r: Option<T>)
    ensures
        model_of(r) == model_of(*o),
{
    match o {
        Some(x) => Some(x.replica()),
        None => None,
    }
}

/// The decimal digit that stands for `d`.
pub open spec fn digit(d: int) -> char {
    if d == 0 {
        '0'
    } else if d == 1 {
        '1'
    } else if d == 2 {
        '2'
    } else if d == 3 {
        '3'
    } else if d == 4 {
        '4'
    } else if d == 5 {
        '5'
    } else if d == 6 {
        '6'
    } else if d == 7 {
        '7'
    } else if d == 8 {
        '8'
    } else {
        '9'
    }
}

/// `n` in decimal, without leading zeros.
pub open spec fn dec(n: nat) -> Seq<char>
    decreases n,
{
    if n < 10 {
        seq![digit(n as int)]
    } else {
        dec(n / 10).push(digit((n % 10) as int))
    }
}

/// `n` in decimal, padded with zeros on the left to `width` digits; only the
/// last `width` digits are kept.
pub open spec fn dec_fixed(n: nat, width: nat) -> Seq<char>
    decreases width,
{
    if width == 0 {
        seq![]
    } else {
        dec_fixed(n / 10, (width - 1) as nat).push(digit((n % 10) as int))
    }
}

/// The lower-case hexadecimal digit that stands for `d`.
pub open spec fn hex_digit(d: int) -> char {
    if d < 10 {
        digit(d)
    } else if d == 10 {
        'a'
    } else if d == 11 {
        'b'
    } else if d == 12 {
        'c'
    } else if d == 13 {
        'd'
    } else if d == 14 {
        'e'
    } else {
        'f'
    }
}

/// The last `width` hexadecimal digits of `n`, lower case.
pub open spec fn hex_fixed(n: nat, width: nat) -> Seq<char>
    decreases width,
{
    if width == 0 {
        seq![]
    } else {
        hex_fixed(n / 16, (width - 1) as nat).push(hex_digit((n % 16) as int))
    }
}

/// The value of a hexadecimal digit of either case.
pub open spec fn hex_value(c: char) -> Option<nat> {
    if '0' <= c && c <= '9' {
        Some((c as int - '0' as int) as nat)
    } else if 'a' <= c && c <= 'f' {
        Some((c as int - 'a' as int + 10) as nat)
    } else if 'A' <= c && c <= 'F' {
        Some((c as int - 'A' as int + 10) as nat)
    } else {
        None
    }
}

/// Whether every character is a hexadecimal digit.
pub open spec fn all_hex(s: Seq<char>) -> bool {
    forall|i: int| 0 <= i < s.len() ==> hex_value(#[trigger] s[i]) is Some
}

/// The number a string of hexadecimal digits denotes.
pub open spec fn hex_number(s: Seq<char>) -> nat
    decreases s.len(),
{
    if s.len() == 0 {
        0
    } else {
        hex_number(s.drop_last()) * 16 + hex_value(s.last())->0
    }
}

/// Two lower-case hexadecimal digits for each byte.
pub open spec fn hex_bytes(b: Seq<u8>) -> Seq<char>
    decreases b.len(),
{
    if b.len() == 0 {
        seq![]
    } else {
        hex_bytes(b.drop_last()) + seq![
            hex_digit((b.last() / 16) as int),
            hex_digit((b.last() % 16) as int),
        ]
    }
}

/// The Unicode `White_Space` property.
pub open spec fn is_space(c: char) -> bool {
    let u = c as u32;
    ||| 0x9 <= u <= 0xd
    ||| u == 0x20
    ||| u == 0x85
    ||| u == 0xa0
    ||| u == 0x1680
    ||| 0x2000 <= u <= 0x200a
    ||| u == 0x2028
    ||| u == 0x2029
    ||| u == 0x202f
    ||| u == 0x205f
    ||| u == 0x3000
}

/// `s` from its first character that is not white space.
pub open spec fn trimmed_start(s: Seq<char>) -> Seq<char>
    decreases s.len(),
{
    if s.len() > 0 && is_space(s[0]) {
        trimmed_start(s.drop_first())
    } else {
        s
    }
}

/// `s` up to its last character that is not white space.
pub open spec fn trimmed_end(s: Seq<char>) -> Seq<char>
    decreases s.len(),
{
    if s.len() > 0 && is_space(s.last()) {
        trimmed_end(s.drop_last())
    } else {
        s
    }
}

/// `s` without the white space at both ends.
pub open spec fn trimmed(s: Seq<char>) -> Seq<char> {
    trimmed_end(trimmed_start(s))
}

/// An ASCII capital letter in lower case; any other character unchanged.
pub open spec fn lower_char(c: char) -> char {
    if 'A' <= c && c <= 'Z' {
        (c as u32 + 32) as char
    } else {
        c
    }
}

/// ASCII case folding of a whole string.
pub open spec fn lowered(s: Seq<char>) -> Seq<char> {
    s.map_values(|c: char| lower_char(c))
}

/// "s" unless there is exactly one.
pub open spec fn plural(n: nat) -> Seq<char> {
    if n == 1 {
        seq![]
    } else {
        seq!['s']
    }
}

/// The texts in order, with `sep` between neighbours.
pub open spec fn joined(parts: Seq<Seq<char>>, sep: Seq<char>) -> Seq<char>
    decreases parts.len(),
{
    if parts.len() == 0 {
        seq![]
    } else if parts.len() == 1 {
        parts[0]
    } else {
        joined(parts.drop_last(), sep) + sep + parts.last()
    }
}

/// Whether two texts first differ at `i`, where `a` has the lesser character or
/// has ended.
pub open spec fn first_less_at(a: Seq<char>, b: Seq<char>, i: int) -> bool {
    &&& 0 <= i <= a.len()
    &&& i < b.len()
    &&& a.take(i) == b.take(i)
    &&& i < a.len() ==> a[i] < b[i]
}

/// Whether `a` comes before `b` when texts are sorted character by character.
pub open spec fn sorts_before(a: Seq<char>, b: Seq<char>) -> bool {
    exists|i: int| first_less_at(a, b, i)
}

/// No text comes before itself.
pub proof fn lemma_sorted_texts_differ(a: Seq<char>, b: Seq<char>)
    requires
        sorts_before(a, b),
    ensures
        a != b,
{
}

/// Sorting is transitive.
pub proof fn lemma_sorting_is_transitive(a: Seq<char>, b: Seq<char>, c: Seq<char>)
    requires
        sorts_before(a, b),
        sorts_before(b, c),
    ensures
        sorts_before(a, c),
{
    let i = choose|i: int| first_less_at(a, b, i);
    let j = choose|j: int| first_less_at(b, c, j);
    let k = if i < j {
        i
    } else {
        j
    };
    assert(a.take(k) =~= b.take(k)) by {
        assert(a.take(i).take(k) =~= a.take(k));
        assert(b.take(i).take(k) =~= b.take(k));
    }
    assert(b.take(k) =~= c.take(k)) by {
        assert(b.take(j).take(k) =~= b.take(k));
        assert(c.take(j).take(k) =~= c.take(k));
    }
    if i < j {
        assert(b.take(j)[i] == c.take(j)[i]);
    } else if j < i {
        assert(a.take(i)[j] == b.take(i)[j]);
    }
    assert(first_less_at(a, c, k));
}

/// Two different texts sort one way or the other.
pub proof fn lemma_sorting_is_total(a: Seq<char>, b: Seq<char>)
    requires
        !sorts_before(a, b),
    ensures
        a == b || sorts_before(b, a),
    decreases a.len(),
{
    if a.len() == 0 {
        if b.len() > 0 {
            assert(a.take(0) =~= b.take(0));
            assert(first_less_at(a, b, 0));
        }
        assert(a =~= b);
    } else if b.len() == 0 {
        assert(b.take(0) =~= a.take(0));
        assert(first_less_at(b, a, 0));
    } else if a[0] != b[0] {
        assert(a.take(0) =~= b.take(0));
        if a[0] < b[0] {
            assert(first_less_at(a, b, 0));
        }
        assert(first_less_at(b, a, 0));
    } else {
        let start = seq![a[0]];
        let (x, y) = (a.drop_first(), b.drop_first());
        assert(a =~= start + x);
        assert(b =~= start + y);
        if sorts_before(x, y) {
            lemma_sorted_by_endings(start, x, y);
        }
        lemma_sorting_is_total(x, y);
        if x != y {
            lemma_sorted_by_endings(start, y, x);
        }
    }
}

/// Texts that sort by their beginnings sort whatever follows.
pub proof fn lemma_sorted_by_beginnings(
    a: Seq<char>,
    b: Seq<char>,
    more_a: Seq<char>,
    more_b: Seq<char>,
)
    requires
        a.len() == b.len(),
        sorts_before(a, b),
    ensures
        sorts_before(a + more_a, b + more_b),
{
    let i = choose|i: int| first_less_at(a, b, i);
    assert((a + more_a).take(i) =~= a.take(i));
    assert((b + more_b).take(i) =~= b.take(i));
    assert(first_less_at(a + more_a, b + more_b, i));
}

/// Texts with the same beginning sort by their endings.
pub proof fn lemma_sorted_by_endings(start: Seq<char>, a: Seq<char>, b: Seq<char>)
    requires
        sorts_before(a, b),
    ensures
        sorts_before(start + a, start + b),
{
    let i = choose|i: int| first_less_at(a, b, i);
    let n = start.len() + i;
    assert((start + a).take(n) =~= start + a.take(i));
    assert((start + b).take(n) =~= start + b.take(i));
    assert(first_less_at(start + a, start + b, n));
}

/// The least number that needs more than `width` digits.
pub open spec fn ten_to(width: nat) -> nat
    decreases width,
{
    if width == 0 {
        1
    } else {
        10 * ten_to((width - 1) as nat)
    }
}

/// A zero-padded number has its width in digits.
pub proof fn lemma_fixed_len(n: nat, width: nat)
    ensures
        dec_fixed(n, width).len() == width,
    decreases width,
{
    if width > 0 {
        lemma_fixed_len(n / 10, (width - 1) as nat);
    }
}

/// Zero-padded numbers sort as the numbers do.
pub proof fn lemma_fixed_sorted(a: nat, b: nat, width: nat)
    requires
        a < b < ten_to(width),
    ensures
        sorts_before(dec_fixed(a, width), dec_fixed(b, width)),
    decreases width,
{
    let w = (width - 1) as nat;
    let x = dec_fixed(a / 10, w);
    let y = dec_fixed(b / 10, w);
    lemma_fixed_len(a / 10, w);
    lemma_fixed_len(b / 10, w);
    let last_a = seq![digit((a % 10) as int)];
    let last_b = seq![digit((b % 10) as int)];
    assert(dec_fixed(a, width) =~= x + last_a);
    assert(dec_fixed(b, width) =~= y + last_b);
    if a / 10 < b / 10 {
        lemma_fixed_sorted(a / 10, b / 10, w);
        lemma_sorted_by_beginnings(x, y, last_a, last_b);
    } else {
        assert(last_a.take(0) =~= last_b.take(0));
        assert(first_less_at(last_a, last_b, 0));
        lemma_sorted_by_endings(x, last_a, last_b);
    }
}

/// A number of four digits is not padded to four.
pub proof fn lemma_four_digits(n: nat)
    requires
        1000 <= n < 10_000,
    ensures
        dec(n) == dec_fixed(n, 4),
{
    reveal_with_fuel(dec, 4);
    reveal_with_fuel(dec_fixed, 5);
    assert(dec_fixed(n, 4) =~= dec(n));
}

/// The character for a decimal digit.
pub fn digit_char(d: u64) -> (c: char)
    requires
        d < 10,
    ensures
        c == digit(d as int),
{
    match d {
        0 => '0',
        1 => '1',
        2 => '2',
        3 => '3',
        4 => '4',
        5 => '5',
        6 => '6',
        7 => '7',
        8 => '8',
        _ => '9',
    }
}

/// `n` in decimal.
pub fn decimal(n: u64) -> (r: String)
    ensures
        r@ == dec(n as nat),
    decreases n,
{
    let mut s: String = if n < 10 {
        String::new()
    } else {
        decimal(n / 10)
    };
    s.push(digit_char(n % 10));
    proof {
        if n < 10 {
            assert(s@ =~= seq![digit(n as int)]);
        }
    }
    s
}

/// `n` in decimal, for a number too wide for 64 bits.
pub fn decimal_wide(n: u128) -> (r: String)
    ensures
        r@ == dec(n as nat),
    decreases n,
{
    let mut s: String = if n < 10 {
        String::new()
    } else {
        decimal_wide(n / 10)
    };
    s.push(digit_char((n % 10) as u64));
    proof {
        if n < 10 {
            assert(s@ =~= seq![digit(n as int)]);
        }
    }
    s
}

/// `n` in decimal, for a length or an index.
pub fn decimal_usize(n: usize) -> (r: String)
    ensures
        r@ == dec(n as nat),
{
    decimal(n as u64)
}

/// The last `width` decimal digits of `n`, zero-padded on the left.
pub fn decimal_fixed(n: u64, width: u64) -> (r: String)
    ensures
        r@ == dec_fixed(n as nat, width as nat),
    decreases width,
{
    if width == 0 {
        String::new()
    } else {
        let mut s: String = decimal_fixed(n / 10, width - 1);
        s.push(digit_char(n % 10));
        s
    }
}

/// The characters of a string.
pub fn chars_of(s: &str) -> (r: Vec<char>)
    ensures
        r@ == s@,
{
    let mut out: Vec<char> = Vec::new();
    for c in it: s.chars()
        invariant
            out@ == s@.take(it.index()),
            it.seq() == s@,
    {
        out.push(c);
        proof {
            assert(out@ =~= s@.take(it.index() + 1));
        }
    }
    proof {
        assert(s@.take(s@.len() as int) =~= s@);
    }
    out
}

/// The string made of the characters `from..to`.
pub fn string_of(v: &Vec<char>, from: usize, to: usize) -> (r: String)
    requires
        from <= to <= v@.len(),
    ensures
        r@ == v@.subrange(from as int, to as int),
{
    let mut s: String = String::new();
    let mut i: usize = from;
    while i < to
        invariant
            from <= i <= to <= v@.len(),
            s@ =~= v@.subrange(from as int, i as int),
        decreases to - i,
    {
        s.push(v[i]);
        i = i + 1;
    }
    s
}

/// Whether two texts are the same.
pub fn same_text(a: &str, b: &str) -> (r: bool)
    ensures
        r == (a@ == b@),
{
    let x: Vec<char> = chars_of(a);
    let y: Vec<char> = chars_of(b);
    if x.len() != y.len() {
        return false;
    }
    let mut i: usize = 0;
    while i < x.len()
        invariant
            x@ == a@,
            y@ == b@,
            x@.len() == y@.len(),
            i <= x@.len(),
            forall|k: int| 0 <= k < i ==> x@[k] == y@[k],
        decreases x@.len() - i,
    {
        if x[i] != y[i] {
            return false;
        }
        i = i + 1;
    }
    proof {
        assert(a@ =~= b@);
    }
    true
}

/// Whether `a` comes before `b` when texts are sorted character by character.
pub fn precedes(a: &str, b: &str) -> (r: bool)
    ensures
        r == sorts_before(a@, b@),
{
    let x: Vec<char> = chars_of(a);
    let y: Vec<char> = chars_of(b);
    let mut i: usize = 0;
    while i < x.len() && i < y.len() && x[i] == y[i]
        invariant
            x@ == a@,
            y@ == b@,
            i <= x@.len(),
            i <= y@.len(),
            x@.take(i as int) =~= y@.take(i as int),
        decreases x@.len() - i,
    {
        proof {
            lemma_next(x@, i as int);
            lemma_next(y@, i as int);
        }
        i = i + 1;
    }
    let r: bool = i < y.len() && (i == x.len() || x[i] < y[i]);
    proof {
        if r {
            assert(first_less_at(a@, b@, i as int));
        } else {
            assert forall|k: int| !first_less_at(a@, b@, k) by {
                if first_less_at(a@, b@, k) {
                    if k < i {
                        assert(a@.take(i as int)[k] == b@.take(i as int)[k]);
                    } else if k > i {
                        assert(a@.take(k)[i as int] == b@.take(k)[i as int]);
                    }
                }
            }
        }
    }
    r
}

/// Whether a character has the Unicode `White_Space` property.
pub fn is_whitespace(c: char) -> (r: bool)
    ensures
        r == is_space(c),
{
    let u: u32 = c as u32;
    (0x9 <= u && u <= 0xd) || u == 0x20 || u == 0x85 || u == 0xa0 || u == 0x1680 || (0x2000 <= u
        && u <= 0x200a) || u == 0x2028 || u == 0x2029 || u == 0x202f || u == 0x205f || u == 0x3000
}

/// How many characters at the front are white space.
fn leading_space(v: &Vec<char>) -> (i: usize)
    ensures
        i <= v@.len(),
        trimmed_start(v@) == v@.subrange(i as int, v@.len() as int),
{
    let mut i: usize = 0;
    proof {
        assert(v@.subrange(0, v@.len() as int) =~= v@);
    }
    while i < v.len() && is_whitespace(v[i])
        invariant
            i <= v@.len(),
            trimmed_start(v@) == trimmed_start(v@.subrange(i as int, v@.len() as int)),
        decreases v@.len() - i,
    {
        let ghost rest = v@.subrange(i as int, v@.len() as int);
        proof {
            assert(rest[0] == v@[i as int]);
            assert(rest.drop_first() =~= v@.subrange(i + 1, v@.len() as int));
        }
        i = i + 1;
    }
    proof {
        let rest = v@.subrange(i as int, v@.len() as int);
        assert(rest.len() > 0 ==> rest[0] == v@[i as int]);
    }
    i
}

/// `s` without the white space at both ends.
pub fn trim(s: &str) -> (r: String)
    ensures
        r@ == trimmed(s@),
{
    let v: Vec<char> = chars_of(s);
    let i: usize = leading_space(&v);
    let mut j: usize = v.len();
    let ghost front = trimmed_start(s@);
    while i < j && is_whitespace(v[j - 1])
        invariant
            i <= j <= v@.len(),
            trimmed_end(front) == trimmed_end(v@.subrange(i as int, j as int)),
        decreases j,
    {
        let ghost rest = v@.subrange(i as int, j as int);
        proof {
            assert(rest.last() == v@[j - 1]);
            assert(rest.drop_last() =~= v@.subrange(i as int, j - 1));
        }
        j = j - 1;
    }
    proof {
        let rest = v@.subrange(i as int, j as int);
        assert(rest.len() > 0 ==> rest.last() == v@[j - 1]);
    }
    string_of(&v, i, j)
}

/// The lower-case form of an ASCII capital letter; other characters unchanged.
pub fn to_lower(c: char) -> (r: char)
    ensures
        r == lower_char(c),
{
    match c {
        'A' => 'a',
        'B' => 'b',
        'C' => 'c',
        'D' => 'd',
        'E' => 'e',
        'F' => 'f',
        'G' => 'g',
        'H' => 'h',
        'I' => 'i',
        'J' => 'j',
        'K' => 'k',
        'L' => 'l',
        'M' => 'm',
        'N' => 'n',
        'O' => 'o',
        'P' => 'p',
        'Q' => 'q',
        'R' => 'r',
        'S' => 's',
        'T' => 't',
        'U' => 'u',
        'V' => 'v',
        'W' => 'w',
        'X' => 'x',
        'Y' => 'y',
        'Z' => 'z',
        _ => c,
    }
}

/// "s" unless there is exactly one.
pub fn plural_suffix(n: u64) -> (r: &'static str)
    ensures
        r@ == plural(n as nat),
{
    proof {
        reveal_strlit("");
        reveal_strlit("s");
        assert(""@ =~= seq![]);
        assert("s"@ =~= seq!['s']);
    }
    if n == 1 {
        ""
    } else {
        "s"
    }
}

/// The texts in order, with `sep` between neighbours.
pub fn join(parts: &Vec<String>, sep: &str) -> (r: String)
    ensures
        r@ == joined(models(parts@), sep@),
{
    if parts.len() == 0 {
        return String::new();
    }
    let mut s: String = parts[0].clone();
    let mut i: usize = 1;
    proof {
        assert(models(parts@).take(1).len() == 1);
    }
    while i < parts.len()
        invariant
            1 <= i <= parts@.len(),
            s@ == joined(models(parts@).take(i as int), sep@),
        decreases parts@.len() - i,
    {
        proof {
            lemma_next(models(parts@), i as int);
        }
        s.append(sep);
        s.append(parts[i].as_str());
        i = i + 1;
    }
    proof {
        assert(models(parts@).take(i as int) =~= models(parts@));
    }
    s
}

} // verus!
