//! Taking text apart: lines, fields, numbers.

use vstd::prelude::*;

use crate::text::{chars_of, decimal, text_of, views};

verus! {

broadcast use crate::text::lemma_views_push;

/// A character that shows as a blank: the Unicode property White_Space.
pub open spec fn is_blank(c: char) -> bool {
    let n = c as u32;
    ||| 0x09 <= n <= 0x0d
    ||| n == 0x20
    ||| n == 0x85
    ||| n == 0xa0
    ||| n == 0x1680
    ||| 0x2000 <= n <= 0x200a
    ||| n == 0x2028
    ||| n == 0x2029
    ||| n == 0x202f
    ||| n == 0x205f
    ||| n == 0x3000
}

fn char_is_blank(c: char) -> (r: bool)
    ensures
        r == is_blank(c),
{
    let n: u32 = c as u32;
    (0x09 <= n && n <= 0x0d) || n == 0x20 || n == 0x85 || n == 0xa0 || n == 0x1680 || (0x2000 <= n && n
        <= 0x200a) || n == 0x2028 || n == 0x2029 || n == 0x202f || n == 0x205f || n == 0x3000
}

/// `s` without the blanks at its beginning.
pub open spec fn trimmed_start(s: Seq<char>) -> Seq<char>
    decreases s.len(),
{
    if s.len() > 0 && is_blank(s[0]) {
        trimmed_start(s.skip(1))
    } else {
        s
    }
}

/// `s` without the blanks at its end.
pub open spec fn trimmed_end(s: Seq<char>) -> Seq<char>
    decreases s.len(),
{
    if s.len() > 0 && is_blank(s.last()) {
        trimmed_end(s.drop_last())
    } else {
        s
    }
}

/// `s` without the blanks at its ends.
pub open spec fn trimmed(s: Seq<char>) -> Seq<char> {
    trimmed_end(trimmed_start(s))
}

/// `s` without the blanks at its ends.
pub fn trim(s: &str) -> (r: String)
    ensures
        r@ == trimmed(s@),
{
    let chars = chars_of(s);
    let ghost t = s@;
    let n: usize = chars.len();
    let mut from: usize = 0;
    assert(t.skip(0) =~= t);
    while from < n && char_is_blank(chars[from])
        invariant
            chars@ == t,
            from <= n == t.len(),
            trimmed_start(t.skip(from as int)) == trimmed_start(t),
        decreases n - from,
    {
        assert(t.skip(from as int).skip(1) =~= t.skip(from as int + 1));
        from = from + 1;
    }
    assert(trimmed_start(t) == t.skip(from as int));
    let ghost u = t.skip(from as int);
    let mut to: usize = n;
    assert(t.subrange(from as int, n as int) =~= u);
    while to > from && char_is_blank(chars[to - 1])
        invariant
            chars@ == t,
            from <= to <= n == t.len(),
            trimmed_end(t.subrange(from as int, to as int)) == trimmed_end(u),
        decreases to,
    {
        let ghost v = t.subrange(from as int, to as int);
        assert(v.last() == t[to as int - 1]);
        assert(v.drop_last() =~= t.subrange(from as int, to as int - 1));
        to = to - 1;
    }
    assert(to > from ==> t.subrange(from as int, to as int).last() == t[to as int - 1]);
    text_of(&chars, from, to)
}

/// Whether nothing but blanks is in `s`.
pub fn is_all_blank(s: &str) -> (r: bool)
    ensures
        r == (trimmed(s@).len() == 0),
{
    trim(s).as_str().is_empty()
}

/// Where `c` first occurs in `s`; the length of `s` where it does not.
pub open spec fn first_index(s: Seq<char>, c: char) -> nat
    decreases s.len(),
{
    if s.len() == 0 || s[0] == c {
        0
    } else {
        1 + first_index(s.skip(1), c)
    }
}

/// What `first_index` finds lies within the text.
pub proof fn lemma_first_index(s: Seq<char>, c: char)
    ensures
        first_index(s, c) <= s.len(),
        first_index(s, c) < s.len() ==> s[first_index(s, c) as int] == c,
        forall|i: int| 0 <= i < first_index(s, c) ==> s[i] != c,
    decreases s.len(),
{
    if s.len() > 0 && s[0] != c {
        lemma_first_index(s.skip(1), c);
        assert forall|i: int| 0 <= i < first_index(s, c) implies s[i] != c by {
            if i > 0 {
                assert(s.skip(1)[i - 1] == s[i]);
            }
        }
    }
}

/// The fields of `s` that `sep` parts. There is at least one.
pub open spec fn fields(s: Seq<char>, sep: char) -> Seq<Seq<char>>
    decreases s.len(),
{
    let i = first_index(s, sep) as int;
    proof {
        lemma_first_index(s, sep);
    }
    if i < s.len() {
        seq![s.take(i)] + fields(s.skip(i + 1), sep)
    } else {
        seq![s]
    }
}

/// A line without the carriage return at its end.
pub open spec fn without_return(s: Seq<char>) -> Seq<char> {
    if s.len() > 0 && s.last() == '\r' {
        s.drop_last()
    } else {
        s
    }
}

/// The lines of `s`. A line ends in a line feed, which a carriage return may precede; the last need
/// not end.
pub open spec fn lines(s: Seq<char>) -> Seq<Seq<char>>
    decreases s.len(),
{
    let i = first_index(s, '\n') as int;
    proof {
        lemma_first_index(s, '\n');
    }
    if s.len() == 0 {
        Seq::empty()
    } else if i < s.len() {
        seq![without_return(s.take(i))] + lines(s.skip(i + 1))
    } else {
        seq![s]
    }
}

/// Where `c` first occurs at or behind `from`.
fn find_from(chars: &Vec<char>, from: usize, c: char) -> (r: usize)
    requires
        from <= chars@.len(),
    ensures
        r == from + first_index(chars@.skip(from as int), c),
        from <= r <= chars@.len(),
{
    let ghost t = chars@;
    let mut i: usize = from;
    while i < chars.len() && chars[i] != c
        invariant
            chars@ == t,
            from <= i <= t.len(),
            i + first_index(t.skip(i as int), c) == from + first_index(t.skip(from as int), c),
        decreases t.len() - i,
    {
        assert(t.skip(i as int)[0] == t[i as int]);
        assert(t.skip(i as int).skip(1) =~= t.skip(i as int + 1));
        i = i + 1;
    }
    proof {
        if i < t.len() {
            assert(t.skip(i as int)[0] == t[i as int]);
        }
    }
    i
}

/// The fields of `s` that `sep` parts.
pub fn split_fields(s: &str, sep: char) -> (r: Vec<String>)
    ensures
        views(r@) == fields(s@, sep),
{
    let chars = chars_of(s);
    let ghost t = s@;
    let n: usize = chars.len();
    let mut out: Vec<String> = Vec::new();
    let mut from: usize = 0;
    assert(t.skip(0) =~= t);
    assert(views(out@) + fields(t, sep) =~= fields(t, sep));
    loop
        invariant_except_break
            chars@ == t,
            from <= n == t.len(),
            views(out@) + fields(t.skip(from as int), sep) == fields(t, sep),
        ensures
            views(out@) == fields(t, sep),
        decreases n - from,
    {
        let ghost rest = t.skip(from as int);
        let ghost before = views(out@);
        let i: usize = find_from(&chars, from, sep);
        proof {
            lemma_first_index(rest, sep);
        }
        if i == n {
            assert(t.subrange(from as int, n as int) =~= rest);
            out.push(text_of(&chars, from, n));
            assert(views(out@) =~= before + seq![rest]);
            break;
        }
        assert(t.subrange(from as int, i as int) =~= rest.take(i - from));
        assert(rest.skip(i - from + 1) =~= t.skip(i as int + 1));
        out.push(text_of(&chars, from, i));
        assert(views(out@) + fields(t.skip(i as int + 1), sep) =~= before + fields(rest, sep));
        from = i + 1;
    }
    out
}

/// The lines of `s`.
pub fn split_lines(s: &str) -> (r: Vec<String>)
    ensures
        views(r@) == lines(s@),
{
    let chars = chars_of(s);
    let ghost t = s@;
    let n: usize = chars.len();
    let mut out: Vec<String> = Vec::new();
    let mut from: usize = 0;
    assert(t.skip(0) =~= t);
    assert(views(out@) + lines(t) =~= lines(t));
    while from < n
        invariant
            chars@ == t,
            from <= n == t.len(),
            views(out@) + lines(t.skip(from as int)) == lines(t),
        decreases n - from,
    {
        let ghost rest = t.skip(from as int);
        let ghost before = views(out@);
        let i: usize = find_from(&chars, from, '\n');
        proof {
            lemma_first_index(rest, '\n');
        }
        if i == n {
            assert(t.subrange(from as int, n as int) =~= rest);
            out.push(text_of(&chars, from, n));
            assert(t.skip(n as int) =~= Seq::<char>::empty());
            assert(lines(Seq::<char>::empty()) =~= Seq::<Seq<char>>::empty());
            assert(views(out@) + lines(t.skip(n as int)) =~= before + lines(rest));
            from = n;
        } else {
            let ghost line = rest.take(i - from);
            let to: usize = if i > from && chars[i - 1] == '\r' {
                i - 1
            } else {
                i
            };
            assert(line.len() > 0 ==> line.last() == t[i as int - 1]);
            assert(t.subrange(from as int, to as int) =~= without_return(line));
            assert(rest.skip(i - from + 1) =~= t.skip(i as int + 1));
            out.push(text_of(&chars, from, to));
            assert(views(out@) + lines(t.skip(i as int + 1)) =~= before + lines(rest));
            from = i + 1;
        }
    }
    assert(t.skip(from as int) =~= Seq::<char>::empty());
    assert(views(out@) + lines(t.skip(from as int)) =~= views(out@));
    out
}

// Numbers

/// A decimal digit.
pub open spec fn is_digit(c: char) -> bool {
    '0' <= c <= '9'
}

/// There is nothing but digits.
pub open spec fn all_digits(s: Seq<char>) -> bool {
    forall|i: int| 0 <= i < s.len() ==> is_digit(#[trigger] s[i])
}

/// The number that digits stand for.
pub open spec fn value_of(s: Seq<char>) -> nat
    decreases s.len(),
{
    if s.len() == 0 {
        0
    } else {
        value_of(s.drop_last()) * 10 + (s.last() as nat - 48) as nat
    }
}

/// The digits of a number that a plus sign may precede.
pub open spec fn without_plus(s: Seq<char>) -> Seq<char> {
    if s.len() > 1 && s[0] == '+' {
        s.skip(1)
    } else {
        s
    }
}

/// The number that `s` stands for, where it stands for one of at most `max`: digits, which a plus
/// sign may precede.
pub open spec fn number_in(s: Seq<char>, max: nat) -> Option<nat> {
    let digits = without_plus(s);
    if digits.len() > 0 && all_digits(digits) && value_of(digits) <= max {
        Some(value_of(digits))
    } else {
        None
    }
}

/// More digits stand for no smaller number.
proof fn lemma_value_grows(s: Seq<char>, n: nat)
    requires
        all_digits(s),
        n <= s.len(),
    ensures
        value_of(s.take(n as int)) <= value_of(s),
    decreases s.len(),
{
    if n < s.len() {
        let t = s.drop_last();
        assert forall|i: int| 0 <= i < t.len() implies is_digit(#[trigger] t[i]) by {
            assert(s[i] == t[i]);
        }
        lemma_value_grows(t, n);
        assert(t.take(n as int) =~= s.take(n as int));
    } else {
        assert(s.take(n as int) =~= s);
    }
}

/// The number that `s` stands for, where it stands for one of at most `max`.
pub fn parse_number(s: &str, max: u64) -> (r: Option<u64>)
    ensures
        match r {
            Some(n) => number_in(s@, max as nat) == Some(n as nat),
            None => number_in(s@, max as nat) is None,
        },
{
    let chars = chars_of(s);
    let ghost t = s@;
    let n: usize = chars.len();
    let from: usize = if n > 1 && chars[0] == '+' {
        1
    } else {
        0
    };
    let ghost digits = without_plus(t);
    assert(digits =~= t.skip(from as int));
    if from == n {
        return None;
    }
    let mut value: u64 = 0;
    let mut i: usize = from;
    assert(digits.take(0) =~= Seq::<char>::empty());
    while i < n
        invariant
            chars@ == t,
            t == s@,
            n == t.len(),
            from <= i <= n,
            digits == t.skip(from as int),
            value <= max,
            all_digits(digits.take(i - from)),
            value == value_of(digits.take(i - from)),
            digits == without_plus(t),
            digits.len() > 0,
        decreases n - i,
    {
        let c = chars[i];
        let ghost k = i - from;
        assert(digits[k] == c);
        if !('0' <= c && c <= '9') {
            assert(!is_digit(digits[k]));
            return None;
        }
        let d: u64 = (c as u32 - 48) as u64;
        proof {
            let next = digits.take(k + 1);
            assert(next.drop_last() =~= digits.take(k));
            assert(next.last() == c);
            assert forall|j: int| 0 <= j < next.len() implies is_digit(#[trigger] next[j]) by {
                if j < k {
                    assert(digits.take(k)[j] == next[j]);
                }
            }
            assert(value_of(next) == value * 10 + d);
            if value * 10 + d > max && all_digits(digits) {
                lemma_value_grows(digits, (k + 1) as nat);
            }
        }
        let next: u128 = value as u128 * 10 + d as u128;
        if next > max as u128 {
            return None;
        }
        value = next as u64;
        i = i + 1;
    }
    assert(digits.take(i - from) =~= digits);
    Some(value)
}

/// A decimal is made of digits and stands for its number.
proof fn lemma_decimal_value(n: nat)
    ensures
        all_digits(decimal(n)),
        value_of(decimal(n)) == n,
        decimal(n).len() > 0,
    decreases n,
{
    let s = decimal(n);
    if n < 10 {
        assert(s.drop_last() =~= Seq::<char>::empty());
        assert(value_of(Seq::<char>::empty()) == 0);
    } else {
        lemma_decimal_value(n / 10);
        assert(s.drop_last() =~= decimal(n / 10));
        assert forall|i: int| 0 <= i < s.len() implies is_digit(#[trigger] s[i]) by {
            if i < s.len() - 1 {
                assert(decimal(n / 10)[i] == s[i]);
            }
        }
    }
}

/// A number written in decimal is read back.
pub proof fn law_decimals_are_read_back(n: nat, max: nat)
    requires
        n <= max,
    ensures
        number_in(decimal(n), max) == Some(n),
{
    lemma_decimal_value(n);
    assert(is_digit(decimal(n)[0]));
}

} // verus!
