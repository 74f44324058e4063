//! What is found when text is taken apart.

use vstd::prelude::*;

use crate::parse::{
    all_digits, fields, first_index, is_blank, is_digit, lemma_first_index, lines, number_in, trimmed,
    trimmed_end, trimmed_start, value_of, without_plus, without_return,
};
use crate::text::{concatenated, decimal, joined};

verus! {

/// Spaces, tabs and the ends of lines are blanks; no letter, digit or sign of ASCII is.
pub proof fn law_blanks_in_ascii(c: char)
    requires
        (c as u32) < 0x80,
    ensures
        is_blank(c) <==> c == ' ' || c == '\t' || c == '\n' || c == '\r' || c as u32 == 0x0b || c as u32
            == 0x0c,
{
}

/// Beyond ASCII there are nineteen blanks: the next line, the spaces that do not break and those of
/// Ogham, of mathematics and of ideographs, the eleven of typography, and the separators of lines and
/// of paragraphs.
pub proof fn law_blanks_beyond_ascii(c: char)
    requires
        (c as u32) >= 0x80,
    ensures
        is_blank(c) <==> {
            ||| c == '\u{85}'
            ||| c == '\u{a0}'
            ||| c == '\u{1680}'
            ||| c == '\u{2000}'
            ||| c == '\u{2001}'
            ||| c == '\u{2002}'
            ||| c == '\u{2003}'
            ||| c == '\u{2004}'
            ||| c == '\u{2005}'
            ||| c == '\u{2006}'
            ||| c == '\u{2007}'
            ||| c == '\u{2008}'
            ||| c == '\u{2009}'
            ||| c == '\u{200a}'
            ||| c == '\u{2028}'
            ||| c == '\u{2029}'
            ||| c == '\u{202f}'
            ||| c == '\u{205f}'
            ||| c == '\u{3000}'
        },
{
}

/// What is cut off at the beginning is blank.
proof fn lemma_trimmed_start(s: Seq<char>) -> (from: int)
    ensures
        0 <= from <= s.len(),
        trimmed_start(s) == s.skip(from),
        forall|k: int| 0 <= k < from ==> is_blank(#[trigger] s[k]),
        from < s.len() ==> !is_blank(s[from]),
    decreases s.len(),
{
    if s.len() > 0 && is_blank(s[0]) {
        let n = lemma_trimmed_start(s.skip(1));
        assert(s.skip(1).skip(n) =~= s.skip(n + 1));
        assert forall|k: int| 0 <= k < n + 1 implies is_blank(#[trigger] s[k]) by {
            if k > 0 {
                assert(s.skip(1)[k - 1] == s[k]);
            }
        }
        n + 1
    } else {
        assert(s.skip(0) =~= s);
        0
    }
}

/// What is cut off at the end is blank.
proof fn lemma_trimmed_end(s: Seq<char>) -> (to: int)
    ensures
        0 <= to <= s.len(),
        trimmed_end(s) == s.take(to),
        forall|k: int| to <= k < s.len() ==> is_blank(#[trigger] s[k]),
        to > 0 ==> !is_blank(s[to - 1]),
    decreases s.len(),
{
    if s.len() > 0 && is_blank(s.last()) {
        let t = s.drop_last();
        let n = lemma_trimmed_end(t);
        assert(t.take(n) =~= s.take(n));
        assert forall|k: int| n <= k < s.len() implies is_blank(#[trigger] s[k]) by {
            if k < t.len() {
                assert(t[k] == s[k]);
            }
        }
        n
    } else {
        assert(s.take(s.len() as int) =~= s);
        s.len() as int
    }
}

/// Trimming cuts off all blanks at both ends, and nothing else.
pub proof fn law_trimming_cuts_off_blanks(s: Seq<char>)
    ensures
        exists|from: int, to: int| #[trigger] is_core(s, from, to) && trimmed(s) == s.subrange(from, to),
        trimmed(s).len() > 0 ==> !is_blank(trimmed(s).first()) && !is_blank(trimmed(s).last()),
{
    let from = lemma_trimmed_start(s);
    let u = s.skip(from);
    let n = lemma_trimmed_end(u);
    let to = from + n;
    assert(u.take(n) =~= s.subrange(from, to));
    assert forall|k: int| to <= k < s.len() implies is_blank(#[trigger] s[k]) by {
        assert(u[k - from] == s[k]);
    }
    assert(is_core(s, from, to));
    if n > 0 {
        assert(u[n - 1] == s[to - 1]);
        assert(u[0] == s[from]);
    }
}

/// All that lies before `from` and behind `to` is blank.
pub open spec fn is_core(s: Seq<char>, from: int, to: int) -> bool {
    &&& 0 <= from <= to <= s.len()
    &&& forall|k: int| 0 <= k < from ==> is_blank(#[trigger] s[k])
    &&& forall|k: int| to <= k < s.len() ==> is_blank(#[trigger] s[k])
}

/// A text that neither begins nor ends in a blank stays as it is.
pub proof fn law_trimmed_text_stays(s: Seq<char>)
    requires
        s.len() > 0 ==> !is_blank(s.first()) && !is_blank(s.last()),
    ensures
        trimmed(s) == s,
{
}

/// A text that begins with what is fixed, and joined behind it.
proof fn lemma_joined_front(first: Seq<char>, rest: Seq<Seq<char>>, sep: Seq<char>)
    requires
        rest.len() > 0,
    ensures
        joined(seq![first] + rest, sep) == first + sep + joined(rest, sep),
    decreases rest.len(),
{
    let all = seq![first] + rest;
    if rest.len() == 1 {
        assert(all.drop_last() =~= seq![first]);
        assert(joined(seq![first], sep) == first);
        assert(all.last() == rest[0]);
    } else {
        lemma_joined_front(first, rest.drop_last(), sep);
        assert(all.drop_last() =~= seq![first] + rest.drop_last());
        assert(all.last() == rest.last());
        assert(joined(all, sep) =~= first + sep + joined(rest, sep));
    }
}

/// The fields of a text are what its separators part: none of them holds one, and with the separator
/// between them they are the text.
pub proof fn law_fields_are_what_separators_part(s: Seq<char>, sep: char, i: int)
    ensures
        fields(s, sep).len() >= 1,
        joined(fields(s, sep), seq![sep]) == s,
        0 <= i < fields(s, sep).len() ==> !fields(s, sep)[i].contains(sep),
    decreases s.len(),
{
    let k = first_index(s, sep) as int;
    lemma_first_index(s, sep);
    if k < s.len() {
        let rest = s.skip(k + 1);
        law_fields_are_what_separators_part(rest, sep, i - 1);
        lemma_joined_front(s.take(k), fields(rest, sep), seq![sep]);
        assert(s =~= s.take(k) + seq![sep] + rest);
        assert(!s.take(k).contains(sep)) by {
            if s.take(k).contains(sep) {
                let j = choose|j: int| 0 <= j < s.take(k).len() && s.take(k)[j] == sep;
                assert(s[j] == sep);
            }
        }
        if i == 0 {
            assert(fields(s, sep)[0] == s.take(k));
        } else if 0 < i < fields(s, sep).len() {
            assert(fields(s, sep)[i] == fields(rest, sep)[i - 1]);
        }
    } else {
        if s.contains(sep) {
            let j = choose|j: int| 0 <= j < s.len() && s[j] == sep;
            assert(s[j] != sep);
        }
        if i == 0 {
            assert(fields(s, sep)[0] == s);
        }
    }
}

/// The first field ends where the first separator stands.
pub proof fn law_fields_begin_with_the_first(a: Seq<char>, rest: Seq<char>, sep: char)
    requires
        !a.contains(sep),
    ensures
        fields(a + seq![sep] + rest, sep) == seq![a] + fields(rest, sep),
        fields(a, sep) == seq![a],
{
    let s = a + seq![sep] + rest;
    lemma_first_index(s, sep);
    lemma_first_index(a, sep);
    let k = first_index(s, sep) as int;
    assert(s[a.len() as int] == sep);
    if k < a.len() {
        assert(s[k] == a[k]);
        assert(a.contains(a[k]));
    }
    assert(k == a.len());
    assert(s.take(k) =~= a);
    assert(s.skip(k + 1) =~= rest);
    if first_index(a, sep) < a.len() {
        assert(a.contains(a[first_index(a, sep) as int]));
    }
}

/// A line ends in a line feed, which a carriage return may precede; what comes behind is the lines of
/// the rest. A last line need not end, and nothing behind the last end is no line.
pub proof fn law_lines_end_in_line_feeds(a: Seq<char>, rest: Seq<char>)
    requires
        !a.contains('\n'),
    ensures
        lines(a + seq!['\n'] + rest) == seq![without_return(a)] + lines(rest),
        a.len() > 0 ==> lines(a) == seq![a],
        lines(Seq::empty()) == Seq::<Seq<char>>::empty(),
        a.len() > 0 && a.last() == '\r' ==> without_return(a) == a.drop_last(),
        a.len() == 0 || a.last() != '\r' ==> without_return(a) == a,
{
    let s = a + seq!['\n'] + rest;
    lemma_first_index(s, '\n');
    lemma_first_index(a, '\n');
    let k = first_index(s, '\n') as int;
    assert(s[a.len() as int] == '\n');
    if k < a.len() {
        assert(s[k] == a[k]);
        assert(a.contains(a[k]));
    }
    assert(k == a.len());
    assert(s.take(k) =~= a);
    assert(s.skip(k + 1) =~= rest);
    if first_index(a, '\n') < a.len() {
        assert(a.contains(a[first_index(a, '\n') as int]));
    }
}

/// A number is read digit by digit, where it is not too large. Anything else than digits, but for a
/// plus in front, is no number, and nothing is none either.
pub proof fn law_numbers_are_read_by_digits(s: Seq<char>, d: char, max: nat, i: int)
    ensures
        number_in(Seq::empty(), max) is None,
        match number_in(s, max) {
            Some(n) => is_digit(d) ==> number_in(s.push(d), max) == (if n * 10 + (d as nat - 48) <= max {
                Some((n * 10 + (d as nat - 48)) as nat)
            } else {
                None
            }),
            None => true,
        },
        is_digit(d) ==> number_in(seq![d], 9) == Some((d as nat - 48) as nat),
        1 <= i < s.len() && !is_digit(s[i]) ==> number_in(s, max) is None,
        s.len() > 0 && !is_digit(s[0]) && s[0] != '+' ==> number_in(s, max) is None,
{
    let digits = without_plus(s);
    let more = s.push(d);
    if is_digit(d) && number_in(s, max) is Some {
        assert(is_digit(digits[0]));
        assert(without_plus(more) =~= digits.push(d));
        assert(digits.push(d).drop_last() =~= digits);
        assert forall|k: int| 0 <= k < digits.push(d).len() implies is_digit(
            #[trigger] digits.push(d)[k],
        ) by {
            if k < digits.len() {
                assert(is_digit(digits[k]));
            }
        }
        assert(all_digits(digits.push(d)));
    }
    if is_digit(d) {
        assert(seq![d].drop_last() =~= Seq::<char>::empty());
        assert(value_of(Seq::<char>::empty()) == 0);
        assert(without_plus(seq![d]) == seq![d]);
        assert(all_digits(seq![d]));
    }
    if 1 <= i < s.len() && !is_digit(s[i]) {
        if digits.len() < s.len() {
            assert(digits[i - 1] == s[i]);
        } else {
            assert(digits[i] == s[i]);
        }
    }
    if s.len() > 0 && !is_digit(s[0]) && s[0] != '+' {
        assert(digits[0] == s[0]);
    }
}

/// Texts put together one after the other are the same however they are parted.
pub proof fn law_concatenation_adds_up(a: Seq<Seq<char>>, b: Seq<Seq<char>>)
    ensures
        concatenated(a + b) == concatenated(a) + concatenated(b),
    decreases b.len(),
{
    if b.len() == 0 {
        assert(a + b =~= a);
        assert(concatenated(a) + concatenated(b) =~= concatenated(a));
    } else {
        law_concatenation_adds_up(a, b.drop_last());
        assert((a + b).drop_last() =~= a + b.drop_last());
        assert((a + b).last() == b.last());
        assert(concatenated(a + b) =~= concatenated(a) + concatenated(b));
    }
}

/// A decimal is made of digits, begins with none that counts for nothing unless it is zero, and holds
/// no blank.
pub proof fn law_decimals_are_digits(n: nat, i: int)
    ensures
        decimal(n).len() > 0,
        0 <= i < decimal(n).len() ==> is_digit(decimal(n)[i]),
        n > 0 ==> decimal(n)[0] != '0',
        trimmed(decimal(n)) == decimal(n),
    decreases n,
{
    lemma_decimal_digits(n);
    let s = decimal(n);
    assert(is_digit(s[0]));
    assert(is_digit(s[s.len() - 1]));
    law_trimmed_text_stays(s);
    if 0 <= i < s.len() {
        assert(is_digit(s[i]));
    }
}

proof fn lemma_decimal_digits(n: nat)
    ensures
        decimal(n).len() > 0,
        forall|i: int| 0 <= i < decimal(n).len() ==> is_digit(#[trigger] decimal(n)[i]),
        n > 0 ==> decimal(n)[0] != '0',
    decreases n,
{
    if n >= 10 {
        lemma_decimal_digits(n / 10);
        assert(decimal(n)[0] == decimal(n / 10)[0]);
        assert forall|i: int| 0 <= i < decimal(n).len() implies is_digit(#[trigger] decimal(n)[i]) by {
            if i < decimal(n / 10).len() {
                assert(decimal(n)[i] == decimal(n / 10)[i]);
            }
        }
    }
}

} // verus!
