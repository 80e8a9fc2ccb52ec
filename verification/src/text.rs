use vstd::prelude::*;

verus! {

/// The characters of `s`, in order.
pub fn chars_of(s: &str) -> (r: Vec<char>)
    ensures
        r@ == s@,
{
    let mut r: Vec<char> = Vec::new();
    for c in it: s.chars()
        invariant
            r@ == it.seq().take(it.index() as int),
    {
        r.push(c);
    }
    r
}

/// Appends one character to a string (`String::push`).
#[verifier::external_body]
pub(crate) fn push_char(s: &mut String, c: char)
    ensures
        final(s)@ == old(s)@.push(c),
{
    s.push(c);
}

/// The string made of `v[lo..hi]`.
pub fn string_of(v: &Vec<char>, lo: usize, hi: usize) -> (r: String)
    requires
        lo <= hi <= v.len(),
    ensures
        r@ == v@.subrange(lo as int, hi as int),
{
    let mut r = String::new();
    let mut i = lo;
    while i < hi
        invariant
            lo <= i <= hi <= v.len(),
            r@ == v@.subrange(lo as int, i as int),
        decreases hi - i,
    {
        push_char(&mut r, v[i]);
        assert(v@.subrange(lo as int, i + 1) =~= v@.subrange(lo as int, i as int).push(v@[i as int]));
        i = i + 1;
    }
    r
}

/// Whether `c` has the Unicode `White_Space` property (the characters that
/// `char::is_whitespace` and `str::trim` treat as whitespace).
pub open spec fn is_white_space(c: char) -> bool {
    let u = c as u32;
    ||| 0x09 <= u <= 0x0d
    ||| u == 0x20
    ||| u == 0x85
    ||| u == 0xa0
    ||| u == 0x1680
    ||| 0x2000 <= u <= 0x200a
    ||| u == 0x2028
    ||| u == 0x2029
    ||| u == 0x202f
    ||| u == 0x205f
    ||| u == 0x3000
}

/// `c` has the Unicode `White_Space` property.
pub fn white_space(c: char) -> (r: bool)
    ensures
        r == is_white_space(c),
{
    let u = c as u32;
    (0x09 <= u && u <= 0x0d) || u == 0x20 || u == 0x85 || u == 0xa0 || u == 0x1680 || (0x2000 <= u
        && u <= 0x200a) || u == 0x2028 || u == 0x2029 || u == 0x202f || u == 0x205f || u == 0x3000
}

/// `s` without its leading whitespace.
pub open spec fn trim_start(s: Seq<char>) -> Seq<char>
    decreases s.len(),
{
    if s.len() > 0 && is_white_space(s[0]) {
        trim_start(s.drop_first())
    } else {
        s
    }
}

/// `s` without its trailing whitespace.
pub open spec fn trim_end(s: Seq<char>) -> Seq<char>
    decreases s.len(),
{
    if s.len() > 0 && is_white_space(s.last()) {
        trim_end(s.drop_last())
    } else {
        s
    }
}

/// `s` without leading and trailing whitespace, as `str::trim` gives it.
pub open spec fn trimmed(s: Seq<char>) -> Seq<char> {
    trim_end(trim_start(s))
}

/// Narrows `v[lo..hi]` to its trimmed part: the bounds returned delimit
/// `trimmed(v[lo..hi])`.
pub fn trim_range(v: &Vec<char>, lo: usize, hi: usize) -> (r: (usize, usize))
    requires
        lo <= hi <= v.len(),
    ensures
        lo <= r.0 <= r.1 <= hi,
        v@.subrange(r.0 as int, r.1 as int) == trimmed(v@.subrange(lo as int, hi as int)),
{
    let ghost s = v@.subrange(lo as int, hi as int);
    let mut a = lo;
    while a < hi && white_space(v[a])
        invariant
            lo <= a <= hi <= v.len(),
            trim_start(s) == trim_start(v@.subrange(a as int, hi as int)),
        decreases hi - a,
    {
        assert(v@.subrange(a as int, hi as int).drop_first() =~= v@.subrange(a + 1, hi as int));
        a = a + 1;
    }
    assert(trim_start(s) == v@.subrange(a as int, hi as int));
    let mut b = hi;
    while b > a && white_space(v[b - 1])
        invariant
            lo <= a <= b <= hi <= v.len(),
            trimmed(s) == trim_end(v@.subrange(a as int, b as int)),
        decreases b - a,
    {
        assert(v@.subrange(a as int, b as int).drop_last() =~= v@.subrange(a as int, b - 1));
        b = b - 1;
    }
    (a, b)
}

/// The pieces of `s` read so far: the completed pieces, and the piece that
/// is still open.
pub open spec fn split_scan(s: Seq<char>, sep: char) -> (Seq<Seq<char>>, Seq<char>)
    decreases s.len(),
{
    if s.len() == 0 {
        (seq![], seq![])
    } else {
        let (done, cur) = split_scan(s.drop_last(), sep);
        if s.last() == sep {
            (done.push(cur), seq![])
        } else {
            (done, cur.push(s.last()))
        }
    }
}

/// The pieces of `s` between the occurrences of `sep`, as `str::split`
/// gives them: one more piece than there are separators.
pub open spec fn pieces(s: Seq<char>, sep: char) -> Seq<Seq<char>> {
    split_scan(s, sep).0.push(split_scan(s, sep).1)
}

/// The text of each index range of `v`.
pub open spec fn range_texts(v: Seq<char>, r: Seq<(usize, usize)>) -> Seq<Seq<char>> {
    r.map_values(|p: (usize, usize)| v.subrange(p.0 as int, p.1 as int))
}

/// The index ranges, in `v`, of the pieces of `v[lo..hi]` between the
/// occurrences of `sep`.
pub fn split_ranges(v: &Vec<char>, lo: usize, hi: usize, sep: char) -> (r: Vec<(usize, usize)>)
    requires
        lo <= hi <= v.len(),
    ensures
        range_texts(v@, r@) =~~= pieces(v@.subrange(lo as int, hi as int), sep),
        forall|k: int| #![trigger r@[k]] 0 <= k < r.len() ==> lo <= r@[k].0 <= r@[k].1 <= hi,
        r.len() >= 1,
        r@[0].0 == lo,
        forall|k: int| #![trigger r@[k]] 0 <= k < r.len() - 1 ==> r@[k].1 < hi,
{
    let mut r: Vec<(usize, usize)> = Vec::new();
    let mut start = lo;
    let mut i = lo;
    while i < hi
        invariant
            lo <= start <= i <= hi <= v.len(),
            range_texts(v@, r@) =~~= split_scan(v@.subrange(lo as int, i as int), sep).0,
            v@.subrange(start as int, i as int) =~= split_scan(
                v@.subrange(lo as int, i as int),
                sep,
            ).1,
            forall|k: int| #![trigger r@[k]] 0 <= k < r.len() ==> lo <= r@[k].0 <= r@[k].1 < i,
            r.len() == 0 ==> start == lo,
            r.len() > 0 ==> r@[0].0 == lo,
        decreases hi - i,
    {
        let ghost prev = v@.subrange(lo as int, i as int);
        assert(v@.subrange(lo as int, i + 1).drop_last() =~= prev);
        if v[i] == sep {
            r.push((start, i));
            start = i + 1;
            assert(v@.subrange(start as int, i + 1) =~= Seq::<char>::empty());
        } else {
            assert(v@.subrange(start as int, i + 1) =~= v@.subrange(start as int, i as int).push(
                v@[i as int],
            ));
        }
        i = i + 1;
    }
    r.push((start, hi));
    r
}

/// `l` without one trailing carriage return.
pub open spec fn strip_cr(l: Seq<char>) -> Seq<char> {
    if l.len() > 0 && l.last() == '\r' {
        l.drop_last()
    } else {
        l
    }
}

/// The lines of `s`, as `str::lines` gives them: split at each `\n`, a
/// `\r` before the `\n` dropped, and no line after a final `\n`.
pub open spec fn lines_of(s: Seq<char>) -> Seq<Seq<char>> {
    let p = pieces(s, '\n');
    let n = p.len() as int;
    let count = if p[n - 1].len() == 0 {
        n - 1
    } else {
        n
    };
    Seq::new(count as nat, |i: int| if i < n - 1 { strip_cr(p[i]) } else { p[i] })
}

/// The index ranges, in `v`, of the lines of `v`.
pub fn line_ranges(v: &Vec<char>) -> (r: Vec<(usize, usize)>)
    ensures
        range_texts(v@, r@) =~~= lines_of(v@),
        forall|k: int| #![trigger r@[k]] 0 <= k < r.len() ==> r@[k].0 <= r@[k].1 && r@[k].1 <= v.len(),
{
    let p = split_ranges(v, 0, v.len(), '\n');
    let ghost ps = pieces(v@.subrange(0, v.len() as int), '\n');
    assert(v@.subrange(0, v.len() as int) =~= v@);
    assert(ps.len() == p.len());
    assert(ps[p.len() - 1] == v@.subrange(p@[p.len() - 1].0 as int, p@[p.len() - 1].1 as int));
    let n = p.len();
    let count = if p[n - 1].0 == p[n - 1].1 {
        n - 1
    } else {
        n
    };
    let mut r: Vec<(usize, usize)> = Vec::new();
    let mut k: usize = 0;
    while k < count
        invariant
            k <= count <= n == p.len(),
            n >= 1,
            range_texts(v@, p@) =~~= ps,
            ps == pieces(v@, '\n'),
            count == lines_of(v@).len(),
            forall|j: int| #![trigger p@[j]] 0 <= j < p.len() ==> p@[j].0 <= p@[j].1 && p@[j].1 <= v.len(),
            r.len() == k,
            forall|j: int| #![trigger r@[j]] 0 <= j < k ==> r@[j].0 <= r@[j].1 && r@[j].1 <= v.len(),
            forall|j: int|
                0 <= j < k ==> v@.subrange(#[trigger] r@[j].0 as int, r@[j].1 as int)
                    == lines_of(v@)[j],
        decreases count - k,
    {
        let (a, b) = p[k];
        assert(v@.subrange(a as int, b as int) == ps[k as int]);
        if k + 1 < n && b > a && v[b - 1] == '\r' {
            assert(v@.subrange(a as int, b - 1) =~= v@.subrange(a as int, b as int).drop_last());
            r.push((a, b - 1));
        } else {
            r.push((a, b));
        }
        k = k + 1;
    }
    r
}

/// `s` begins with `prefix`.
pub open spec fn has_prefix(s: Seq<char>, prefix: Seq<char>) -> bool {
    prefix.len() <= s.len() && s.subrange(0, prefix.len() as int) == prefix
}

/// `v[lo..hi]` begins with `prefix`.
pub fn range_has_prefix(v: &Vec<char>, lo: usize, hi: usize, prefix: &Vec<char>) -> (r: bool)
    requires
        lo <= hi <= v.len(),
    ensures
        r == has_prefix(v@.subrange(lo as int, hi as int), prefix@),
{
    let ghost s = v@.subrange(lo as int, hi as int);
    if prefix.len() > hi - lo {
        return false;
    }
    let mut i: usize = 0;
    while i < prefix.len()
        invariant
            lo <= hi <= v.len(),
            prefix.len() <= hi - lo,
            i <= prefix.len(),
            s == v@.subrange(lo as int, hi as int),
            forall|j: int| 0 <= j < i ==> s[j] == prefix@[j],
        decreases prefix.len() - i,
    {
        if v[lo + i] != prefix[i] {
            assert(s.subrange(0, prefix.len() as int)[i as int] != prefix@[i as int]);
            return false;
        }
        i = i + 1;
    }
    assert(s.subrange(0, prefix.len() as int) =~= prefix@);
    true
}

/// `c` with an ASCII capital letter turned into its small letter.
pub open spec fn ascii_lower(c: char) -> char {
    if 'A' <= c <= 'Z' {
        ((c as u32) + 32) as char
    } else {
        c
    }
}

/// The strings are equal once ASCII letters are folded to one case, as
/// `str::eq_ignore_ascii_case` decides.
pub open spec fn equal_ignoring_ascii_case(a: Seq<char>, b: Seq<char>) -> bool {
    a.len() == b.len() && forall|i: int| 0 <= i < a.len() ==> ascii_lower(a[i]) == ascii_lower(b[i])
}

fn lower(c: char) -> (r: char)
    ensures
        r == ascii_lower(c),
{
    if 'A' <= c && c <= 'Z' {
        let u = (c as u8) + 32;
        u as char
    } else {
        c
    }
}

/// Whether the two strings match when ASCII case is ignored.
pub fn eq_ignore_ascii_case(a: &str, b: &str) -> (r: bool)
    ensures
        r == equal_ignoring_ascii_case(a@, b@),
{
    let x = chars_of(a);
    let y = chars_of(b);
    if x.len() != y.len() {
        assert(x@.len() != y@.len());
        return false;
    }
    let mut i: usize = 0;
    while i < x.len()
        invariant
            x@ == a@,
            y@ == b@,
            x.len() == y.len(),
            i <= x.len(),
            forall|j: int| 0 <= j < i ==> ascii_lower(x@[j]) == ascii_lower(y@[j]),
        decreases x.len() - i,
    {
        if lower(x[i]) != lower(y[i]) {
            return false;
        }
        i = i + 1;
    }
    true
}

/// The value of hexadecimal digit `c`, where it is one.
pub open spec fn hex_digit(c: char) -> Option<int> {
    let u = c as u32;
    if 0x30 <= u <= 0x39 {
        Some(u - 0x30)
    } else if 0x61 <= u <= 0x66 {
        Some(u - 0x61 + 10)
    } else if 0x41 <= u <= 0x46 {
        Some(u - 0x41 + 10)
    } else {
        None
    }
}

/// The number `s` writes in hexadecimal digits, where every character is one.
pub open spec fn hex_value(s: Seq<char>) -> Option<int>
    decreases s.len(),
{
    if s.len() == 0 {
        Some(0)
    } else {
        let high = hex_value(s.drop_last());
        let low = hex_digit(s.last());
        if high is Some && low is Some {
            Some(high->0 * 16 + low->0)
        } else {
            None
        }
    }
}

/// The `u16` that `s` writes in hexadecimal, as `u16::from_str_radix(s, 16)`
/// reads it: an optional `+`, then at least one hexadecimal digit and
/// nothing else, with a value that fits.
pub open spec fn hex_u16(s: Seq<char>) -> Option<u16> {
    let d = if s.len() > 0 && s[0] == '+' {
        s.drop_first()
    } else {
        s
    };
    let v = hex_value(d);
    if d.len() > 0 && v is Some && v->0 <= 0xffff {
        Some(v->0 as u16)
    } else {
        None
    }
}

fn digit_value(c: char) -> (r: Option<u64>)
    ensures
        r == (match hex_digit(c) {
            Some(d) => Some(d as u64),
            None => None,
        }),
{
    let u = c as u32;
    if 0x30 <= u && u <= 0x39 {
        Some((u - 0x30) as u64)
    } else if 0x61 <= u && u <= 0x66 {
        Some((u - 0x61 + 10) as u64)
    } else if 0x41 <= u && u <= 0x46 {
        Some((u - 0x41 + 10) as u64)
    } else {
        None
    }
}

/// Reads `v[lo..hi]` as `u16::from_str_radix(.., 16)` does.
pub fn parse_hex_u16(v: &Vec<char>, lo: usize, hi: usize) -> (r: Option<u16>)
    requires
        lo <= hi <= v.len(),
    ensures
        r == hex_u16(v@.subrange(lo as int, hi as int)),
{
    let ghost s = v@.subrange(lo as int, hi as int);
    let start = if lo < hi && v[lo] == '+' {
        lo + 1
    } else {
        lo
    };
    let ghost d = v@.subrange(start as int, hi as int);
    assert(d =~= (if s.len() > 0 && s[0] == '+' {
        s.drop_first()
    } else {
        s
    }));
    if start == hi {
        return None;
    }
    let mut value: u64 = 0;
    let mut i = start;
    assert(v@.subrange(start as int, start as int) =~= Seq::<char>::empty());
    while i < hi
        invariant
            lo <= start <= i <= hi <= v.len(),
            d == v@.subrange(start as int, hi as int),
            s == v@.subrange(lo as int, hi as int),
            d == (if s.len() > 0 && s[0] == '+' {
                s.drop_first()
            } else {
                s
            }),
            hex_value(v@.subrange(start as int, i as int)) is Some,
            value == if hex_value(v@.subrange(start as int, i as int))->0 <= 0xffff {
                hex_value(v@.subrange(start as int, i as int))->0
            } else {
                0x10000
            },
        decreases hi - i,
    {
        let ghost prefix = v@.subrange(start as int, i as int);
        let ghost next = v@.subrange(start as int, i + 1);
        assert(next.drop_last() =~= prefix);
        match digit_value(v[i]) {
            Some(d) => {
                let n = value * 16 + d;
                value = if n > 0xffff {
                    0x10000
                } else {
                    n
                };
            },
            None => {
                proof {
                    lemma_hex_value_none(d, (i - start) as int);
                }
                return None;
            },
        }
        i = i + 1;
    }
    assert(v@.subrange(start as int, hi as int) =~= d);
    if value <= 0xffff {
        Some(value as u16)
    } else {
        None
    }
}

/// A character that is no hexadecimal digit leaves the whole text without a value.
proof fn lemma_hex_value_none(d: Seq<char>, i: int)
    requires
        0 <= i < d.len(),
        hex_digit(d[i]) is None,
    ensures
        hex_value(d) is None,
    decreases d.len(),
{
    if i < d.len() - 1 {
        lemma_hex_value_none(d.drop_last(), i);
    }
}

/// The upper-case hexadecimal digit of `d` (below 16).
pub open spec fn hex_char(d: u8) -> char {
    if d < 10 {
        (0x30 + d) as char
    } else {
        (0x41 + d - 10) as char
    }
}

/// Appends the hexadecimal digit of `d`.
pub fn push_hex_digit(s: &mut String, d: u8)
    requires
        d < 16,
    ensures
        final(s)@ == old(s)@.push(hex_char(d)),
{
    if d < 10 {
        push_char(s, (0x30 + d) as char);
    } else {
        push_char(s, (0x41 + d - 10) as char);
    }
}

/// The digit `d` (below 10).
pub open spec fn digit_char(d: nat) -> char {
    (0x30 + d) as char
}

/// `n` written in decimal.
pub open spec fn decimal(n: nat) -> Seq<char>
    decreases n,
{
    if n < 10 {
        seq![digit_char(n)]
    } else {
        decimal(n / 10).push(digit_char(n % 10))
    }
}

/// Appends the characters of `t`.
pub fn push_text(s: &mut String, t: &str)
    ensures
        final(s)@ == old(s)@ + t@,
{
    let v = crate::text::chars_of(t);
    let mut i: usize = 0;
    while i < v.len()
        invariant
            i <= v.len(),
            v@ == t@,
            s@ == old(s)@ + v@.subrange(0, i as int),
        decreases v.len() - i,
    {
        push_char(s, v[i]);
        assert(v@.subrange(0, i + 1) =~= v@.subrange(0, i as int).push(v@[i as int]));
        i = i + 1;
    }
    assert(v@.subrange(0, v.len() as int) =~= v@);
}

/// Appends `n` in decimal.
pub fn push_decimal(s: &mut String, n: u128)
    ensures
        final(s)@ == old(s)@ + decimal(n as nat),
{
    let mut digits: Vec<char> = Vec::new();
    let mut m = n;
    while m >= 10
        invariant
            decimal(n as nat) == decimal(m as nat) + digits@.reverse(),
        decreases m,
    {
        let d = (m % 10) as u8;
        digits.push((0x30 + d) as char);
        proof {
            assert(digits@.reverse() =~= seq![digit_char((m % 10) as nat)] + digits@.drop_last().reverse());
        }
        m = m / 10;
    }
    push_char(s, (0x30 + m as u8) as char);
    let mut i = digits.len();
    while i > 0
        invariant
            i <= digits.len(),
            s@ == old(s)@ + decimal(m as nat) + digits@.subrange(i as int, digits.len() as int).reverse(),
        decreases i,
    {
        i = i - 1;
        push_char(s, digits[i]);
        assert(digits@.subrange(i as int, digits.len() as int).reverse() =~= digits@.subrange(
            i + 1,
            digits.len() as int,
        ).reverse().push(digits@[i as int]));
    }
    assert(digits@.subrange(0, digits.len() as int) =~= digits@);
    assert(decimal(m as nat) + digits@.reverse() == decimal(n as nat));
}

/// Two uppercase hexadecimal digits.
pub open spec fn hex_byte(v: u8) -> Seq<char> {
    seq![hex_char(v >> 4u8), hex_char(v & 0xf)]
}

/// Four uppercase hexadecimal digits.
pub open spec fn hex_word(v: u16) -> Seq<char> {
    seq![
        hex_char(((v >> 12u16) & 0xf) as u8),
        hex_char(((v >> 8u16) & 0xf) as u8),
        hex_char(((v >> 4u16) & 0xf) as u8),
        hex_char((v & 0xf) as u8),
    ]
}

/// Appends the two hexadecimal digits of `v`.
pub fn push_hex_byte(s: &mut String, v: u8)
    ensures
        final(s)@ == old(s)@ + hex_byte(v),
{
    proof {
        crate::bit_facts::lemma_u8_fields();
    }
    assert(v >> 4u8 < 16u8 && v & 0xf < 16u8);
    push_hex_digit(s, v >> 4);
    push_hex_digit(s, v & 0xf);
    assert(final(s)@ =~= old(s)@ + hex_byte(v));
}

/// Appends the four hexadecimal digits of `v`.
pub fn push_hex_word(s: &mut String, v: u16)
    ensures
        final(s)@ == old(s)@ + hex_word(v),
{
    assert(((v >> 12u16) & 0xf) < 16u16 && ((v >> 8u16) & 0xf) < 16u16 && ((v >> 4u16) & 0xf) < 16u16
        && (v & 0xf) < 16u16) by (bit_vector);
    push_hex_digit(s, ((v >> 12) & 0xf) as u8);
    push_hex_digit(s, ((v >> 8) & 0xf) as u8);
    push_hex_digit(s, ((v >> 4) & 0xf) as u8);
    push_hex_digit(s, (v & 0xf) as u8);
    assert(final(s)@ =~= old(s)@ + hex_word(v));
}

/// `true` or `false`.
pub open spec fn bool_text(b: bool) -> Seq<char> {
    if b {
        "true"@
    } else {
        "false"@
    }
}

/// Appends `true` or `false`.
pub fn push_bool(s: &mut String, b: bool)
    ensures
        final(s)@ == old(s)@ + bool_text(b),
{
    if b {
        push_text(s, "true");
    } else {
        push_text(s, "false");
    }
}

/// `n` in binary, without leading zeros.
pub open spec fn binary(n: nat) -> Seq<char>
    decreases n,
{
    if n < 2 {
        seq![digit_char(n)]
    } else {
        binary(n / 2).push(digit_char(n % 2))
    }
}

/// `digits` with `_` between groups of four digits, counted from the right.
pub open spec fn grouped4(digits: Seq<char>) -> Seq<char>
    decreases digits.len(),
{
    if digits.len() <= 4 {
        digits
    } else {
        grouped4(digits.subrange(0, digits.len() - 4)) + seq!['_'] + digits.subrange(
            digits.len() - 4,
            digits.len() as int,
        )
    }
}

/// The binary digits of `n`, most significant first.
pub fn binary_digits(n: u16) -> (r: Vec<char>)
    ensures
        r@ == binary(n as nat),
        r@.len() >= 1,
{
    let mut reversed: Vec<char> = Vec::new();
    let mut m = n;
    while m >= 2
        invariant
            binary(n as nat) == binary(m as nat) + reversed@.reverse(),
        decreases m,
    {
        let d = (m % 2) as u8;
        reversed.push((0x30 + d) as char);
        proof {
            assert(reversed@.reverse() =~= seq![digit_char((m % 2) as nat)] + reversed@.drop_last().reverse());
        }
        m = m / 2;
    }
    let mut r: Vec<char> = Vec::new();
    r.push((0x30 + m as u8) as char);
    assert(r@ =~= binary(m as nat));
    let mut i = reversed.len();
    while i > 0
        invariant
            i <= reversed.len(),
            r@ == binary(m as nat) + reversed@.subrange(i as int, reversed.len() as int).reverse(),
        decreases i,
    {
        i = i - 1;
        r.push(reversed[i]);
        assert(reversed@.subrange(i as int, reversed.len() as int).reverse() =~= reversed@.subrange(
            i + 1,
            reversed.len() as int,
        ).reverse().push(reversed@[i as int]));
    }
    assert(reversed@.subrange(0, reversed.len() as int) =~= reversed@);
    r
}

/// Appends `digits` grouped by fours from the right.
pub fn push_grouped4(s: &mut String, digits: &Vec<char>)
    ensures
        final(s)@ == old(s)@ + grouped4(digits@),
{
    let len = digits.len();
    if len == 0 {
        assert(grouped4(digits@) =~= Seq::<char>::empty());
        return;
    }
    let first = if len % 4 == 0 { 4 } else { len % 4 };
    let mut i: usize = 0;
    while i < first
        invariant
            i <= first <= 4,
            first <= len == digits@.len(),
            s@ == old(s)@ + digits@.subrange(0, i as int),
        decreases first - i,
    {
        push_char(s, digits[i]);
        assert(digits@.subrange(0, i + 1) =~= digits@.subrange(0, i as int).push(digits@[i as int]));
        i = i + 1;
    }
    assert(grouped4(digits@.subrange(0, first as int)) == digits@.subrange(0, first as int));
    let mut k: usize = first;
    while k < len
        invariant
            1 <= first <= k <= len == digits@.len(),
            (len - k) % 4 == 0,
            s@ == old(s)@ + grouped4(digits@.subrange(0, k as int)),
        decreases len - k,
    {
        let ghost before = s@;
        push_char(s, '_');
        push_char(s, digits[k]);
        push_char(s, digits[k + 1]);
        push_char(s, digits[k + 2]);
        push_char(s, digits[k + 3]);
        proof {
            let d = digits@.subrange(0, k + 4);
            assert(d.subrange(0, d.len() - 4) =~= digits@.subrange(0, k as int));
            assert(d.subrange(d.len() - 4, d.len() as int) =~= digits@.subrange(k as int, k + 4));
            assert(s@ =~= before + seq!['_'] + digits@.subrange(k as int, k + 4));
        }
        k = k + 4;
    }
    assert(digits@.subrange(0, len as int) =~= digits@);
}

/// The value of digit `c` in base `radix` (at most 16), where it is one.
pub open spec fn radix_digit(c: char, radix: int) -> Option<int> {
    match hex_digit(c) {
        Some(d) => if d < radix {
            Some(d)
        } else {
            None
        },
        None => None,
    }
}

/// The number `s` writes in base `radix`, where every character is a digit.
pub open spec fn radix_value(s: Seq<char>, radix: int) -> Option<int>
    decreases s.len(),
{
    if s.len() == 0 {
        Some(0)
    } else {
        let high = radix_value(s.drop_last(), radix);
        let low = radix_digit(s.last(), radix);
        if high is Some && low is Some {
            Some(high->0 * radix + low->0)
        } else {
            None
        }
    }
}

/// The number that `s` writes in base `radix`, as `from_str_radix` reads it
/// into a type whose largest value is `max`: an optional `+`, then at least
/// one digit and nothing else, with a value that fits.
pub open spec fn radix_num(s: Seq<char>, radix: int, max: int) -> Option<int> {
    let d = if s.len() > 0 && s[0] == '+' {
        s.drop_first()
    } else {
        s
    };
    let v = radix_value(d, radix);
    if d.len() > 0 && v is Some && 0 <= v->0 <= max {
        Some(v->0)
    } else {
        None
    }
}

/// A character that is no digit leaves the whole text without a value.
proof fn lemma_radix_value_none(d: Seq<char>, radix: int, i: int)
    requires
        0 <= i < d.len(),
        radix_digit(d[i], radix) is None,
    ensures
        radix_value(d, radix) is None,
    decreases d.len(),
{
    if i < d.len() - 1 {
        lemma_radix_value_none(d.drop_last(), radix, i);
    }
}

/// Reads `v[lo..hi]` as `from_str_radix(.., radix)` does into a type whose
/// largest value is `max`.
pub fn parse_radix(v: &Vec<char>, lo: usize, hi: usize, radix: u64, max: u64) -> (r: Option<u64>)
    requires
        lo <= hi <= v.len(),
        2 <= radix <= 16,
        max <= 0xffff_ffff,
    ensures
        r == (match radix_num(v@.subrange(lo as int, hi as int), radix as int, max as int) {
            Some(n) => Some(n as u64),
            None => None,
        }),
{
    let ghost s = v@.subrange(lo as int, hi as int);
    let start = if lo < hi && v[lo] == '+' {
        lo + 1
    } else {
        lo
    };
    let ghost d = v@.subrange(start as int, hi as int);
    assert(d =~= (if s.len() > 0 && s[0] == '+' {
        s.drop_first()
    } else {
        s
    }));
    if start == hi {
        return None;
    }
    let mut value: u64 = 0;
    let mut i = start;
    assert(v@.subrange(start as int, start as int) =~= Seq::<char>::empty());
    while i < hi
        invariant
            lo <= start <= i <= hi <= v.len(),
            2 <= radix <= 16,
            max <= 0xffff_ffff,
            d == v@.subrange(start as int, hi as int),
            s == v@.subrange(lo as int, hi as int),
            d == (if s.len() > 0 && s[0] == '+' {
                s.drop_first()
            } else {
                s
            }),
            radix_value(v@.subrange(start as int, i as int), radix as int) is Some,
            value == if radix_value(v@.subrange(start as int, i as int), radix as int)->0 <= max {
                radix_value(v@.subrange(start as int, i as int), radix as int)->0
            } else {
                max + 1
            },
        decreases hi - i,
    {
        let ghost prefix = v@.subrange(start as int, i as int);
        let ghost next = v@.subrange(start as int, i + 1);
        assert(next.drop_last() =~= prefix);
        match digit_value(v[i]) {
            Some(dv) => {
                if dv >= radix {
                    proof {
                        assert(radix_digit(d[i - start], radix as int) is None);
                        lemma_radix_value_none(d, radix as int, (i - start) as int);
                    }
                    return None;
                }
                let ghost p = radix_value(prefix, radix as int)->0;
                assert(value * radix + dv <= (max + 1) * 16 + 15) by (nonlinear_arith)
                    requires
                        value <= max + 1,
                        radix <= 16,
                        dv < 16,
                ;
                let n = value * radix + dv;
                proof {
                    assert(radix_digit(v@[i as int], radix as int) == Some(dv as int));
                    assert(radix_value(next, radix as int) == Some(p * radix + dv));
                    if p > max {
                        assert(p * radix + dv > max) by (nonlinear_arith)
                            requires
                                p > max,
                                radix >= 2,
                                dv >= 0,
                        ;
                        assert(n > max) by (nonlinear_arith)
                            requires
                                value == max + 1,
                                n == value * radix + dv,
                                radix >= 2,
                                dv >= 0,
                        ;
                    }
                }
                value = if n > max {
                    max + 1
                } else {
                    n
                };
            },
            None => {
                proof {
                    lemma_radix_value_none(d, radix as int, (i - start) as int);
                }
                return None;
            },
        }
        i = i + 1;
    }
    assert(v@.subrange(start as int, hi as int) =~= d);
    if value <= max {
        Some(value)
    } else {
        None
    }
}

/// Whether `pat` occurs in `s` at `k`.
pub open spec fn occurs_at(s: Seq<char>, pat: Seq<char>, k: int) -> bool {
    0 <= k && k + pat.len() <= s.len() && s.subrange(k, k + pat.len()) == pat
}

/// `k` is the first position at or after `from` where `pat` occurs in `s`.
pub open spec fn first_at(s: Seq<char>, pat: Seq<char>, from: int, k: int) -> bool {
    from <= k && occurs_at(s, pat, k) && forall|j: int| from <= j < k ==> !occurs_at(s, pat, j)
}

/// The first position at or after `from` where `pat` occurs in `s`, as
/// `str::find` on the text from `from` gives it (counted from the start).
pub open spec fn find_in(s: Seq<char>, pat: Seq<char>, from: int) -> Option<int> {
    if exists|k: int| first_at(s, pat, from, k) {
        Some(choose|k: int| first_at(s, pat, from, k))
    } else {
        None
    }
}

/// Two first positions are the same position.
pub proof fn lemma_first_at_unique(s: Seq<char>, pat: Seq<char>, from: int, k: int)
    requires
        first_at(s, pat, from, k),
    ensures
        find_in(s, pat, from) == Some(k),
{
    let c = choose|k: int| first_at(s, pat, from, k);
    assert(first_at(s, pat, from, c));
    if c < k {
        assert(!occurs_at(s, pat, c));
    }
    if k < c {
        assert(!occurs_at(s, pat, k));
    }
}

/// The first position at or after `from` where `pat` occurs in `v`.
pub fn find_from(v: &Vec<char>, pat: &Vec<char>, from: usize) -> (r: Option<usize>)
    requires
        from <= v.len(),
    ensures
        r == (match find_in(v@, pat@, from as int) {
            Some(k) => Some(k as usize),
            None => None,
        }),
        r matches Some(k) ==> first_at(v@, pat@, from as int, k as int),
        r is None ==> forall|j: int| from <= j ==> !#[trigger] occurs_at(v@, pat@, j),
{
    let mut k = from;
    while pat.len() <= v.len() - k
        invariant
            from <= k <= v.len(),
            forall|j: int| from <= j < k ==> !occurs_at(v@, pat@, j),
        decreases v.len() - k,
    {
        let mut j: usize = 0;
        let mut same = true;
        assert(v@.subrange(k as int, k as int) =~= pat@.subrange(0, 0));
        while j < pat.len()
            invariant
                j <= pat.len(),
                k + pat.len() <= v.len(),
                same == (v@.subrange(k as int, k + j) == pat@.subrange(0, j as int)),
            decreases pat.len() - j,
        {
            if v[k + j] != pat[j] {
                assert(v@.subrange(k as int, k + j + 1)[j as int] != pat@.subrange(0, j + 1)[j as int]);
                same = false;
            } else if same {
                assert(v@.subrange(k as int, k + j + 1) =~= v@.subrange(k as int, k + j).push(v@[k + j]));
                assert(pat@.subrange(0, j + 1) =~= pat@.subrange(0, j as int).push(pat@[j as int]));
            }
            if !same {
                proof {
                    if v@.subrange(k as int, k + j + 1) == pat@.subrange(0, j + 1) {
                        assert(v@.subrange(k as int, k + j) =~= v@.subrange(k as int, k + j + 1).subrange(0, j as int));
                        assert(pat@.subrange(0, j as int) =~= pat@.subrange(0, j + 1).subrange(0, j as int));
                    }
                }
            }
            j = j + 1;
        }
        assert(pat@.subrange(0, pat.len() as int) =~= pat@);
        if same {
            proof {
                assert(first_at(v@, pat@, from as int, k as int));
                lemma_first_at_unique(v@, pat@, from as int, k as int);
            }
            return Some(k);
        }
        assert(pat.len() > 0);
        k = k + 1;
    }
    proof {
        assert forall|j: int| from <= j implies !#[trigger] occurs_at(v@, pat@, j) by {
            if j >= k {
                assert(j + pat@.len() > v@.len());
            }
        }
        if exists|k2: int| first_at(v@, pat@, from as int, k2) {
            let k2 = choose|k2: int| first_at(v@, pat@, from as int, k2);
            assert(occurs_at(v@, pat@, k2));
        }
    }
    None
}

/// Whether two texts are the same.
pub fn same_text(a: &str, b: &str) -> (r: bool)
    ensures
        r == (a@ == b@),
{
    let x = chars_of(a);
    let y = chars_of(b);
    if x.len() != y.len() {
        assert(x@.len() != y@.len());
        return false;
    }
    let mut i: usize = 0;
    while i < x.len()
        invariant
            x@ == a@,
            y@ == b@,
            x.len() == y.len(),
            i <= x.len(),
            forall|j: int| 0 <= j < i ==> x@[j] == y@[j],
        decreases x.len() - i,
    {
        if x[i] != y[i] {
            assert(x@[i as int] != y@[i as int]);
            return false;
        }
        i = i + 1;
    }
    assert(x@ =~= y@);
    true
}

} // verus!
