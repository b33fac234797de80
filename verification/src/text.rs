//! Byte-level text handling shared by the registry-map readers: locating a
//! separator, splitting a string slice around it, breaking a text into lines
//! and reading unsigned decimal numbers.
use vstd::prelude::*;
use vstd::utf8::*;
use vstd::string::StringSliceAdditionalSpecFns;

verus! {

/// Line feed.
pub const LF: u8 = 10;

/// Carriage return.
pub const CR: u8 = 13;

/// Field separator of a registry-map line.
pub const COMMA: u8 = 44;

/// The `+` sign that may lead an unsigned number.
pub const PLUS: u8 = 43;

/// The position of the first occurrence of `b` in `s`, if any.
pub open spec fn find_byte(s: Seq<u8>, b: u8) -> Option<int>
    decreases s.len(),
{
    if s.len() == 0 {
        None
    } else if s[0] == b {
        Some(0)
    } else {
        match find_byte(s.drop_first(), b) {
            Some(i) => Some(i + 1),
            None => None,
        }
    }
}

/// `find_byte` gives the first occurrence, or says there is none.
pub proof fn lemma_find_byte(s: Seq<u8>, b: u8)
    ensures
        match find_byte(s, b) {
            Some(i) => 0 <= i < s.len() && s[i] == b && forall|j: int| 0 <= j < i ==> s[j] != b,
            None => forall|j: int| 0 <= j < s.len() ==> s[j] != b,
        },
    decreases s.len(),
{
    if s.len() > 0 {
        lemma_find_byte(s.drop_first(), b);
        if s[0] != b {
            match find_byte(s.drop_first(), b) {
                Some(i) => {
                    assert forall|j: int| 0 <= j < i + 1 implies s[j] != b by {
                        if j > 0 {
                            assert(s[j] == s.drop_first()[j - 1]);
                        }
                    }
                },
                None => {
                    assert forall|j: int| 0 <= j < s.len() implies s[j] != b by {
                        if j > 0 {
                            assert(s[j] == s.drop_first()[j - 1]);
                        }
                    }
                },
            }
        }
    }
}

/// The pieces of `s` between occurrences of `sep`, as `str::split` yields them:
/// there is always at least one piece, and empty pieces are kept.
pub open spec fn split_on(s: Seq<u8>, sep: u8) -> Seq<Seq<u8>>
    decreases s.len(),
{
    match find_byte(s, sep) {
        Some(i) => {
            proof {
                lemma_find_byte(s, sep);
            }
            seq![s.take(i)] + split_on(s.skip(i + 1), sep)
        },
        None => seq![s],
    }
}

/// A line without the carriage return of a `\r\n` line ending.
pub open spec fn strip_cr(line: Seq<u8>) -> Seq<u8> {
    if line.len() > 0 && line.last() == CR {
        line.drop_last()
    } else {
        line
    }
}

/// The lines of a text as `str::lines` yields them: lines end at `\n` or
/// `\r\n`, the line ending is not part of the line, and the ending of the last
/// line is optional (a text that ends with a line ending has no empty last line).
pub open spec fn text_lines(s: Seq<u8>) -> Seq<Seq<u8>>
    decreases s.len(),
{
    match find_byte(s, LF) {
        Some(i) => {
            proof {
                lemma_find_byte(s, LF);
            }
            seq![strip_cr(s.take(i))] + text_lines(s.skip(i + 1))
        },
        None => if s.len() == 0 {
            seq![]
        } else {
            seq![s]
        },
    }
}

/// The pieces joined back together, with `sep` between each two.
pub open spec fn join_on(parts: Seq<Seq<u8>>, sep: u8) -> Seq<u8>
    decreases parts.len(),
{
    if parts.len() == 0 {
        Seq::empty()
    } else if parts.len() == 1 {
        parts[0]
    } else {
        parts[0] + seq![sep] + join_on(parts.drop_first(), sep)
    }
}

proof fn lemma_split_on_nonempty(s: Seq<u8>, sep: u8)
    ensures
        split_on(s, sep).len() >= 1,
{
    lemma_find_byte(s, sep);
}

/// Splitting loses nothing: joining the pieces with the separator gives the
/// text back.
pub proof fn lemma_split_join(s: Seq<u8>, sep: u8)
    ensures
        join_on(split_on(s, sep), sep) == s,
    decreases s.len(),
{
    lemma_find_byte(s, sep);
    match find_byte(s, sep) {
        Some(i) => {
            let rest = s.skip(i + 1);
            lemma_split_join(rest, sep);
            lemma_split_on_nonempty(rest, sep);
            let parts = split_on(s, sep);
            assert(parts.drop_first() =~= split_on(rest, sep));
            assert(s =~= s.take(i) + seq![sep] + rest);
        },
        None => {},
    }
}

/// Splitting a text made of two texts and a separator between them gives the
/// pieces of the first, then the pieces of the second.
pub proof fn lemma_split_on_concat(a: Seq<u8>, b: Seq<u8>, sep: u8)
    ensures
        split_on(a + seq![sep] + b, sep) == split_on(a, sep) + split_on(b, sep),
    decreases a.len(),
{
    let t = a + seq![sep] + b;
    lemma_find_byte(a, sep);
    lemma_find_byte(t, sep);
    match find_byte(a, sep) {
        Some(i) => {
            match find_byte(t, sep) {
                Some(k) => {
                    if k < i {
                        assert(t[k] == a[k]);
                    } else if k > i {
                        assert(t[i] == a[i]);
                    }
                },
                None => {
                    assert(t[i] == a[i]);
                },
            }
            assert(t.take(i) =~= a.take(i));
            assert(t.skip(i + 1) =~= a.skip(i + 1) + seq![sep] + b);
            lemma_split_on_concat(a.skip(i + 1), b, sep);
            assert(split_on(t, sep) =~= split_on(a, sep) + split_on(b, sep));
        },
        None => {
            assert(t[a.len() as int] == sep);
            match find_byte(t, sep) {
                Some(k) => {
                    if k < a.len() {
                        assert(t[k] == a[k]);
                    }
                    assert(k == a.len());
                },
                None => {
                    assert(t[a.len() as int] == sep);
                },
            }
            assert(t.take(a.len() as int) =~= a);
            assert(t.skip(a.len() + 1int) =~= b);
            assert(split_on(a, sep) == seq![a]);
            assert(split_on(t, sep) =~= split_on(a, sep) + split_on(b, sep));
        },
    }
}

/// A text without the separator is a single piece.
pub proof fn lemma_split_on_single(x: Seq<u8>, sep: u8)
    requires
        forall|i: int| 0 <= i < x.len() ==> x[i] != sep,
    ensures
        split_on(x, sep) == seq![x],
{
    lemma_find_byte(x, sep);
    if let Some(i) = find_byte(x, sep) {
        assert(x[i] == sep);
    }
}

/// No line holds a line feed.
pub proof fn lemma_lines_hold_no_line_feed(s: Seq<u8>)
    ensures
        forall|k: int, j: int|
            0 <= k < text_lines(s).len() && 0 <= j < text_lines(s)[k].len() ==> #[trigger] text_lines(
                s,
            )[k][j] != LF,
    decreases s.len(),
{
    lemma_find_byte(s, LF);
    match find_byte(s, LF) {
        Some(i) => {
            let rest = s.skip(i + 1);
            lemma_lines_hold_no_line_feed(rest);
            let first = strip_cr(s.take(i));
            assert forall|j: int| 0 <= j < first.len() implies first[j] != LF by {
                assert(first[j] == s[j]);
            }
            assert forall|k: int, j: int|
                0 <= k < text_lines(s).len() && 0 <= j < text_lines(s)[k].len() implies #[trigger] text_lines(
                s,
            )[k][j] != LF by {
                if k > 0 {
                    assert(text_lines(s)[k] == text_lines(rest)[k - 1]);
                }
            }
        },
        None => {},
    }
}

/// A line ends at the first line feed, and a carriage return just before that
/// line feed is not part of the line (nor is any other byte dropped); a text
/// without line feed is one line, as it is, unless empty.
pub proof fn lemma_line_endings(a: Seq<u8>, b: Seq<u8>)
    requires
        forall|i: int| 0 <= i < a.len() ==> a[i] != LF,
    ensures
        (a.len() == 0 || a.last() != CR) ==> text_lines(a + seq![LF] + b) == seq![a] + text_lines(b),
        text_lines(a + seq![CR, LF] + b) == seq![a] + text_lines(b),
        a.len() > 0 ==> text_lines(a) == seq![a],
        text_lines(Seq::<u8>::empty()).len() == 0,
{
    let t1 = a + seq![LF] + b;
    lemma_find_byte(t1, LF);
    match find_byte(t1, LF) {
        Some(k) => {
            if k < a.len() {
                assert(t1[k] == a[k]);
            } else if k > a.len() {
                assert(t1[a.len() as int] == LF);
            }
        },
        None => {
            assert(t1[a.len() as int] == LF);
        },
    }
    assert(t1.take(a.len() as int) =~= a);
    assert(t1.skip(a.len() + 1int) =~= b);
    let c = a.push(CR);
    let t2 = a + seq![CR, LF] + b;
    assert(t2 =~= c + seq![LF] + b);
    lemma_find_byte(t2, LF);
    match find_byte(t2, LF) {
        Some(k) => {
            if k < c.len() {
                assert(t2[k] == c[k]);
                if k < a.len() {
                    assert(c[k] == a[k]);
                }
            } else if k > c.len() {
                assert(t2[c.len() as int] == LF);
            }
        },
        None => {
            assert(t2[c.len() as int] == LF);
        },
    }
    assert(t2.take(c.len() as int) =~= c);
    assert(t2.skip(c.len() + 1int) =~= b);
    assert(c.drop_last() =~= a);
    lemma_find_byte(a, LF);
    if let Some(i) = find_byte(a, LF) {
        assert(a[i] == LF);
    }
}

/// The ending of the last line is optional: a text gives the same lines with
/// and without a final line feed. This holds of a text that does not end
/// with a line ending or a carriage return already, and of no other.
pub proof fn lemma_final_line_ending_optional(s: Seq<u8>)
    requires
        s.len() > 0,
        s.last() != LF,
        s.last() != CR,
    ensures
        text_lines(s.push(LF)) == text_lines(s),
    decreases s.len(),
{
    let t = s.push(LF);
    lemma_find_byte(s, LF);
    lemma_find_byte(t, LF);
    match find_byte(s, LF) {
        Some(i) => {
            match find_byte(t, LF) {
                Some(k) => {
                    if k < i {
                        assert(t[k] == s[k]);
                    } else if k > i {
                        assert(t[i] == s[i]);
                    }
                },
                None => {
                    assert(t[i] == s[i]);
                },
            }
            let rest = s.skip(i + 1);
            assert(t.take(i) =~= s.take(i));
            assert(t.skip(i + 1) =~= rest.push(LF));
            assert(rest.len() > 0);
            assert(rest.last() == s.last());
            lemma_final_line_ending_optional(rest);
        },
        None => {
            match find_byte(t, LF) {
                Some(k) => {
                    if k < s.len() {
                        assert(t[k] == s[k]);
                    }
                    assert(k == s.len());
                    assert(t.take(k) =~= s);
                    assert(t.skip(k + 1) =~= Seq::<u8>::empty());
                    assert(find_byte(Seq::<u8>::empty(), LF) is None);
                    assert(text_lines(Seq::<u8>::empty()) =~= Seq::<Seq<u8>>::empty());
                },
                None => {
                    assert(t[s.len() as int] == LF);
                },
            }
        },
    }
}

pub open spec fn is_digit(b: u8) -> bool {
    48 <= b <= 57
}

pub open spec fn all_digits(s: Seq<u8>) -> bool {
    forall|i: int| 0 <= i < s.len() ==> is_digit(#[trigger] s[i])
}

/// The value of a string of decimal digits, most significant first.
pub open spec fn digits_value(s: Seq<u8>) -> nat
    decreases s.len(),
{
    if s.len() == 0 {
        0
    } else {
        digits_value(s.drop_last()) * 10 + (s.last() - 48) as nat
    }
}

/// The digits of an unsigned number: the text without one leading `+`.
pub open spec fn unsigned_digits(s: Seq<u8>) -> Seq<u8> {
    if s.len() > 0 && s[0] == PLUS {
        s.drop_first()
    } else {
        s
    }
}

/// What `str::parse` gives for an unsigned integer type whose largest value
/// is `max`: an optional `+`, then one or more decimal digits whose value does
/// not exceed `max`; anything else is refused.
pub open spec fn parse_unsigned(s: Seq<u8>, max: nat) -> Option<nat> {
    let d = unsigned_digits(s);
    if d.len() > 0 && all_digits(d) && digits_value(d) <= max {
        Some(digits_value(d))
    } else {
        None
    }
}

/// Decimal reading: one digit is worth its value; appending a digit to a
/// number multiplies it by ten and adds the digit (where the result is not
/// above the maximum); a leading `+` and leading zeros change nothing; and a
/// text with a byte that is not a digit (after the sign) is refused.
pub proof fn lemma_decimal_reading(d: Seq<u8>, c: u8, max: nat)
    requires
        48 <= c <= 57,
    ensures
        (c - 48) as nat <= max ==> parse_unsigned(seq![c], max) == Some((c - 48) as nat),
        d.len() > 0 && d[0] != PLUS && parse_unsigned(d, max) is Some
            && parse_unsigned(d, max).unwrap() * 10 + (c - 48) <= max ==> parse_unsigned(
            d.push(c),
            max,
        ) == Some(parse_unsigned(d, max).unwrap() * 10 + (c - 48) as nat),
        d.len() > 0 && d[0] != PLUS ==> parse_unsigned(seq![PLUS] + d, max) == parse_unsigned(
            d,
            max,
        ),
        d.len() > 0 && d[0] != PLUS ==> parse_unsigned(seq![48u8] + d, max) == parse_unsigned(
            d,
            max,
        ),
        (exists|i: int| 0 <= i < d.len() && !is_digit(#[trigger] d[i]) && i > 0) ==> parse_unsigned(
            d,
            max,
        ) is None,
{
    assert(seq![c].drop_last() =~= Seq::<u8>::empty());
    assert(unsigned_digits(seq![c]) == seq![c]);
    assert(all_digits(seq![c]));
    assert(digits_value(seq![c]) == digits_value(seq![c].drop_last()) * 10 + (c - 48) as nat);
    assert((seq![PLUS] + d).drop_first() =~= d);
    if d.len() > 0 && d[0] != PLUS {
        assert(d.push(c)[0] == d[0]);
        assert(d.push(c).drop_last() =~= d);
        if all_digits(d) {
            assert(all_digits(d.push(c))) by {
                assert forall|i: int| 0 <= i < d.push(c).len() implies is_digit(
                    #[trigger] d.push(c)[i],
                ) by {
                    if i < d.len() {
                        assert(d.push(c)[i] == d[i]);
                    }
                }
            }
        }
        let z = seq![48u8] + d;
        assert(z[0] != PLUS);
        lemma_leading_zero(d);
        assert(all_digits(z) == all_digits(d)) by {
            if all_digits(d) {
                assert forall|i: int| 0 <= i < z.len() implies is_digit(#[trigger] z[i]) by {
                    if i > 0 {
                        assert(z[i] == d[i - 1]);
                    }
                }
            }
            if all_digits(z) {
                assert forall|i: int| 0 <= i < d.len() implies is_digit(#[trigger] d[i]) by {
                    assert(z[i + 1] == d[i]);
                }
            }
        }
    }
    if exists|i: int| 0 <= i < d.len() && !is_digit(#[trigger] d[i]) && i > 0 {
        let i = choose|i: int| 0 <= i < d.len() && !is_digit(#[trigger] d[i]) && i > 0;
        let u = unsigned_digits(d);
        if d.len() > 0 && d[0] == PLUS {
            assert(u[i - 1] == d[i]);
        } else {
            assert(u[i] == d[i]);
        }
    }
}

/// A leading zero does not change the value of digits.
proof fn lemma_leading_zero(d: Seq<u8>)
    ensures
        digits_value(seq![48u8] + d) == digits_value(d),
    decreases d.len(),
{
    if d.len() > 0 {
        let z = seq![48u8] + d;
        assert(z.drop_last() =~= seq![48u8] + d.drop_last());
        assert(z.last() == d.last());
        lemma_leading_zero(d.drop_last());
        assert(digits_value(z) == digits_value(z.drop_last()) * 10 + (z.last() - 48) as nat);
    } else {
        let z = seq![48u8] + d;
        assert(z =~= seq![48u8]);
        assert(z.drop_last() =~= Seq::<u8>::empty());
        assert(digits_value(z) == digits_value(z.drop_last()) * 10 + (z.last() - 48) as nat);
    }
}

/// A longer string of digits is worth at least as much as its prefix.
proof fn lemma_digits_value_prefix(s: Seq<u8>, k: int)
    requires
        all_digits(s),
        0 <= k <= s.len(),
    ensures
        digits_value(s.take(k)) <= digits_value(s),
    decreases s.len(),
{
    if k < s.len() {
        let p = s.drop_last();
        assert(s.take(k) =~= p.take(k));
        assert(all_digits(p)) by {
            assert forall|i: int| 0 <= i < p.len() implies is_digit(#[trigger] p[i]) by {
                assert(p[i] == s[i]);
            }
        }
        lemma_digits_value_prefix(p, k);
    } else {
        assert(s.take(k) =~= s);
    }
}

/// Reads `s` as an unsigned decimal number no greater than `max`, with the
/// rules of `str::parse` for unsigned integers.
pub fn parse_unsigned_bytes(s: &[u8], max: u32) -> (r: Option<u32>)
    requires
        max <= 0xffff,
    ensures
        match parse_unsigned(s@, max as nat) {
            Some(v) => r == Some(v as u32),
            None => r is None,
        },
{
    let start: usize = if s.len() > 0 && s[0] == PLUS {
        1
    } else {
        0
    };
    let ghost d = unsigned_digits(s@);
    assert(d =~= s@.skip(start as int));
    if start == s.len() {
        return None;
    }
    let mut acc: u32 = 0;
    let mut i: usize = start;
    while i < s.len()
        invariant
            start <= i <= s@.len(),
            d == s@.skip(start as int),
            d == unsigned_digits(s@),
            max <= 0xffff,
            all_digits(d.take(i - start)),
            acc as nat == digits_value(d.take(i - start)),
            acc <= max,
        decreases s.len() - i,
    {
        let b = s[i];
        let ghost k = i - start;
        assert(d[k] == b);
        if b < 48 || b > 57 {
            assert(!all_digits(d)) by {
                assert(!is_digit(d[k]));
            }
            assert(parse_unsigned(s@, max as nat) is None);
            return None;
        }
        let next: u32 = acc * 10 + (b - 48) as u32;
        assert(d.take(k + 1).drop_last() =~= d.take(k));
        assert(all_digits(d.take(k + 1))) by {
            assert forall|j: int| 0 <= j < k + 1 implies is_digit(#[trigger] d.take(k + 1)[j]) by {
                if j < k {
                    assert(d.take(k + 1)[j] == d.take(k)[j]);
                }
            }
        }
        if next > max {
            proof {
                if all_digits(d) {
                    lemma_digits_value_prefix(d, k + 1);
                    assert(digits_value(d) > max);
                }
            }
            assert(parse_unsigned(s@, max as nat) is None);
            return None;
        }
        acc = next;
        i = i + 1;
    }
    assert(d.take(i - start) =~= d);
    Some(acc)
}

/// Splits `s` around the first occurrence of the ASCII byte `sep`.
pub fn split_once_byte<'a>(s: &'a str, sep: u8) -> (r: Option<(&'a str, &'a str)>)
    requires
        sep < 0x80,
    ensures
        match find_byte(s.spec_bytes(), sep) {
            Some(i) => r matches Some((before, after)) && before.spec_bytes() == s.spec_bytes().take(i)
                && after.spec_bytes() == s.spec_bytes().skip(i + 1),
            None => r is None,
        },
{
    let bytes = s.as_bytes();
    let ghost sb = s.spec_bytes();
    assert(sb == encode_utf8(s@));
    let mut i: usize = 0;
    while i < bytes.len()
        invariant
            bytes@ == sb,
            sb == s.spec_bytes(),
            sb == encode_utf8(s@),
            sep < 0x80,
            i <= sb.len(),
            forall|j: int| 0 <= j < i ==> sb[j] != sep,
        decreases bytes.len() - i,
    {
        if bytes[i] == sep {
            proof {
                lemma_find_byte(sb, sep);
                match find_byte(sb, sep) {
                    Some(k) => {
                        assert(k == i);
                    },
                    None => {},
                }
                encode_utf8_valid_utf8(s@);
                assert(sb[i as int] == sep);
                assert(!is_continuation_byte(sb[i as int]));
                is_char_boundary_iff_not_is_continuation_byte(sb, i as int);
                assert(is_char_boundary(sb, i as int));
            }
            let (before, rest) = s.split_at(i);
            let ghost rb = rest.spec_bytes();
            proof {
                assert(rb =~= sb.subrange(i as int, sb.len() as int));
                valid_utf8_split(sb, i as int);
                assert(valid_utf8(rb));
                assert(rb[0] == sep);
                lemma_char_boundary_after_ascii(rb);
            }
            let (_, after) = rest.split_at(1);
            proof {
                assert(before.spec_bytes() =~= sb.take(i as int));
                assert(after.spec_bytes() =~= sb.skip(i + 1));
            }
            return Some((before, after));
        }
        i = i + 1;
    }
    proof {
        lemma_find_byte(sb, sep);
        match find_byte(sb, sep) {
            Some(k) => {
                assert(sb[k] != sep);
            },
            None => {},
        }
    }
    None
}

/// In valid UTF-8 that starts with an ASCII byte, the next character starts at 1.
proof fn lemma_char_boundary_after_ascii(bytes: Seq<u8>)
    requires
        valid_utf8(bytes),
        bytes.len() > 0,
        bytes[0] < 0x80,
    ensures
        is_char_boundary(bytes, 1),
{
    reveal_with_fuel(is_char_boundary, 2);
    assert(length_of_first_scalar(bytes) == 1);
    assert(valid_utf8(pop_first_scalar(bytes)));
}

} // verus!
