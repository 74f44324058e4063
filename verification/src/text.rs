//! Building and taking apart text.

use vstd::prelude::*;
use vstd::string::StringExecFns;

verus! {

/// `String::push` appends a character.
pub assume_specification[ String::push ](s: &mut String, c: char)
    ensures
        final(s)@ == old(s)@.push(c),
;

/// The characters of each of `s`.
pub open spec fn views(s: Seq<String>) -> Seq<Seq<char>> {
    s.map_values(|t: String| t@)
}

/// Viewing passes through a push.
pub broadcast proof fn lemma_views_push(s: Seq<String>, t: String)
    ensures
        #[trigger] views(s.push(t)) == views(s).push(t@),
{
    assert(views(s.push(t)) =~= views(s).push(t@));
}

/// Viewing passes through putting lists together.
pub broadcast proof fn lemma_views_concat(s: Seq<String>, t: Seq<String>)
    ensures
        #[trigger] views(s + t) == views(s) + views(t),
{
    assert(views(s + t) =~= views(s) + views(t));
}

/// The characters of `s`.
pub fn chars_of(s: &str) -> (r: Vec<char>)
    ensures
        r@ == s@,
{
    let mut out: Vec<char> = Vec::new();
    for c in it: s.chars()
        invariant
            it.seq() == s@,
            out@ == s@.take(it.index() as int),
    {
        out.push(c);
        assert(s@.take(it.index() as int + 1) =~= s@.take(it.index() as int).push(c));
    }
    assert(s@.take(s@.len() as int) =~= s@);
    out
}

/// The text of the characters `from..to` of `chars`.
pub fn text_of(chars: &Vec<char>, from: usize, to: usize) -> (r: String)
    requires
        from <= to <= chars@.len(),
    ensures
        r@ == chars@.subrange(from as int, to as int),
{
    let mut out = String::new();
    let mut i: usize = from;
    while i < to
        invariant
            from <= i <= to <= chars@.len(),
            out@ == chars@.subrange(from as int, i as int),
        decreases to - i,
    {
        out.push(chars[i]);
        assert(chars@.subrange(from as int, i as int + 1) =~= chars@.subrange(
            from as int,
            i as int,
        ).push(chars@[i as int]));
        i = i + 1;
    }
    out
}

/// Whether `a` and `b` are the same text.
pub fn same_text(a: &str, b: &str) -> (r: bool)
    ensures
        r == (a@ == b@),
{
    a.to_string() == b.to_string()
}

// Numbers

/// The digit of a number below ten.
pub open spec fn digit(d: nat) -> char {
    (48 + d) as char
}

/// A number in decimal, without leading zeros.
pub open spec fn decimal(n: nat) -> Seq<char>
    decreases n,
{
    if n < 10 {
        seq![digit(n)]
    } else {
        decimal(n / 10).push(digit(n % 10))
    }
}

/// A number in decimal, with a zero in front where it has one digit.
pub open spec fn decimal2(n: nat) -> Seq<char> {
    if n < 10 {
        seq!['0'] + decimal(n)
    } else {
        decimal(n)
    }
}

fn digit_char(d: u64) -> (r: char)
    requires
        d < 10,
    ensures
        r == digit(d as nat),
{
    (48u8 + d as u8) as char
}

/// `n` in decimal.
pub fn decimal_text(n: u64) -> (r: String)
    ensures
        r@ == decimal(n as nat),
    decreases n,
{
    let mut out =
    if n < 10 {
        String::new()
    } else {
        decimal_text(n / 10)
    };
    out.push(digit_char(n % 10));
    assert(n < 10 ==> out@ =~= decimal(n as nat));
    out
}

/// `n` in decimal, with a zero in front where it has one digit.
pub fn decimal2_text(n: u64) -> (r: String)
    ensures
        r@ == decimal2(n as nat),
{
    let digits = decimal_text(n);
    if n < 10 {
        let mut out = String::new();
        out.push('0');
        out.append(digits.as_str());
        assert(out@ =~= decimal2(n as nat));
        out
    } else {
        digits
    }
}

// Repetition and padding

/// `c`, `n` times.
pub open spec fn repeated(c: char, n: nat) -> Seq<char> {
    Seq::new(n, |i: int| c)
}

/// `c`, `n` times.
pub fn repeat_char(c: char, n: usize) -> (r: String)
    ensures
        r@ == repeated(c, n as nat),
{
    let mut out = String::new();
    let mut i: usize = 0;
    assert(out@ =~= repeated(c, 0));
    while i < n
        invariant
            i <= n,
            out@ == repeated(c, i as nat),
        decreases n - i,
    {
        out.push(c);
        i = i + 1;
        assert(out@ =~= repeated(c, i as nat));
    }
    out
}

/// `s` followed by spaces up to `width` characters; a longer `s` as it is.
pub open spec fn padded_right(s: Seq<char>, width: nat) -> Seq<char> {
    if s.len() < width {
        s + repeated(' ', (width - s.len()) as nat)
    } else {
        s
    }
}

/// `s` followed by spaces up to `width` characters.
pub fn pad_right(s: &str, width: usize) -> (r: String)
    ensures
        r@ == padded_right(s@, width as nat),
{
    let n: usize = s.unicode_len();
    let mut out = s.to_string();
    if n < width {
        out.append(repeat_char(' ', width - n).as_str());
    }
    out
}

// Joining and filling in

/// The texts of `parts`, one after the other.
pub open spec fn concatenated(parts: Seq<Seq<char>>) -> Seq<char>
    decreases parts.len(),
{
    if parts.len() == 0 {
        Seq::empty()
    } else {
        concatenated(parts.drop_last()) + parts.last()
    }
}

/// The texts of `parts` with `sep` between them.
pub open spec fn joined(parts: Seq<Seq<char>>, sep: Seq<char>) -> Seq<char>
    decreases parts.len(),
{
    if parts.len() == 0 {
        Seq::empty()
    } else if parts.len() == 1 {
        parts[0]
    } else {
        joined(parts.drop_last(), sep) + sep + parts.last()
    }
}

/// The texts of `parts`, one after the other.
pub fn concat_all(parts: &Vec<String>) -> (r: String)
    ensures
        r@ == concatenated(views(parts@)),
{
    let mut out = String::new();
    let mut i: usize = 0;
    assert(views(parts@).take(0) =~= Seq::<Seq<char>>::empty());
    while i < parts.len()
        invariant
            i <= parts@.len(),
            out@ == concatenated(views(parts@).take(i as int)),
        decreases parts@.len() - i,
    {
        out.append(parts[i].as_str());
        proof {
            let t = views(parts@).take(i as int + 1);
            assert(t.drop_last() =~= views(parts@).take(i as int));
            assert(t.last() == parts@[i as int]@);
        }
        i = i + 1;
    }
    assert(views(parts@).take(i as int) =~= views(parts@));
    out
}

/// The texts of `parts` with `sep` between them.
pub fn join(parts: &Vec<String>, sep: &str) -> (r: String)
    ensures
        r@ == joined(views(parts@), sep@),
{
    let mut out = String::new();
    let mut i: usize = 0;
    assert(views(parts@).take(0) =~= Seq::<Seq<char>>::empty());
    while i < parts.len()
        invariant
            i <= parts@.len(),
            out@ == joined(views(parts@).take(i as int), sep@),
        decreases parts@.len() - i,
    {
        proof {
            let t = views(parts@).take(i as int + 1);
            assert(t.drop_last() =~= views(parts@).take(i as int));
            assert(t.last() == parts@[i as int]@);
        }
        if i == 0 {
            out = parts[0].clone();
        } else {
            out.append(sep);
            out.append(parts[i].as_str());
        }
        i = i + 1;
    }
    assert(views(parts@).take(i as int) =~= views(parts@));
    out
}

/// `template` with each `{}` replaced by the next of `fields`, as long as there is one.
pub open spec fn filled(template: Seq<char>, fields: Seq<Seq<char>>) -> Seq<char>
    decreases template.len(),
{
    if template.len() == 0 {
        Seq::empty()
    } else if template.len() >= 2 && template[0] == '{' && template[1] == '}' && fields.len() > 0 {
        fields[0] + filled(template.skip(2), fields.skip(1))
    } else {
        seq![template[0]] + filled(template.skip(1), fields)
    }
}

/// `template` with each `{}` replaced by the next of `fields`, as long as there is one.
pub fn fill(template: &str, fields: &Vec<String>) -> (r: String)
    ensures
        r@ == filled(template@, views(fields@)),
{
    let chars = chars_of(template);
    let ghost t = template@;
    let ghost f = views(fields@);
    let mut out = String::new();
    let mut i: usize = 0;
    let mut k: usize = 0;
    assert(t.skip(0) =~= t);
    assert(f.skip(0) =~= f);
    assert(out@ + filled(t, f) =~= filled(t, f));
    while i < chars.len()
        invariant
            chars@ == t,
            f == views(fields@),
            i <= t.len(),
            k <= f.len(),
            out@ + filled(t.skip(i as int), f.skip(k as int)) == filled(t, f),
        decreases t.len() - i,
    {
        let ghost rest = t.skip(i as int);
        let ghost left = f.skip(k as int);
        assert(rest[0] == t[i as int]);
        if chars[i] == '{' && i + 1 < chars.len() && chars[i + 1] == '}' && k < fields.len() {
            assert(rest[1] == t[i as int + 1]);
            assert(left[0] == fields@[k as int]@);
            assert(rest.skip(2) =~= t.skip(i as int + 2));
            assert(left.skip(1) =~= f.skip(k as int + 1));
            let ghost before = out@;
            out.append(fields[k].as_str());
            assert(out@ + filled(t.skip(i as int + 2), f.skip(k as int + 1)) =~= before + filled(
                rest,
                left,
            ));
            i = i + 2;
            k = k + 1;
        } else {
            assert(i + 1 < t.len() ==> rest[1] == t[i as int + 1]);
            assert(rest.skip(1) =~= t.skip(i as int + 1));
            let ghost before = out@;
            out.push(chars[i]);
            assert(out@ + filled(t.skip(i as int + 1), left) =~= before + filled(rest, left));
            i = i + 1;
        }
    }
    assert(t.skip(i as int) =~= Seq::<char>::empty());
    assert(out@ + filled(t.skip(i as int), f.skip(k as int)) =~= out@);
    out
}

/// A text that holds another, from some place on.
pub open spec fn holds_at(text: Seq<char>, part: Seq<char>, i: int) -> bool {
    0 <= i && i + part.len() <= text.len() && text.subrange(i, i + part.len() as int) == part
}

/// One text holds another.
pub open spec fn mentions(text: Seq<char>, part: Seq<char>) -> bool {
    exists|i: int| holds_at(text, part, i)
}

// What a filled template says

/// Nothing is filled in here.
pub open spec fn is_fixed(s: Seq<char>) -> bool {
    forall|i: int| 0 <= i < s.len() ==> #[trigger] s[i] != '{'
}

/// From part `i` on: each fixed text, what is said behind it, and at last `end`.
pub open spec fn woven_from(parts: Seq<(Seq<char>, Seq<char>)>, end: Seq<char>, i: int) -> Seq<char>
    decreases parts.len() - i,
{
    if 0 <= i < parts.len() {
        parts[i].0 + parts[i].1 + woven_from(parts, end, i + 1)
    } else {
        end
    }
}

/// Each fixed text with what is said behind it, and at last `end`.
pub open spec fn woven(parts: Seq<(Seq<char>, Seq<char>)>, end: Seq<char>) -> Seq<char> {
    woven_from(parts, end, 0)
}

/// From part `i` on: each fixed text with a place behind it to fill in, and at last `end`.
pub open spec fn blank_from(parts: Seq<(Seq<char>, Seq<char>)>, end: Seq<char>, i: int) -> Seq<char>
    decreases parts.len() - i,
{
    if 0 <= i < parts.len() {
        parts[i].0 + "{}"@ + blank_from(parts, end, i + 1)
    } else {
        end
    }
}

/// Each fixed text with a place behind it to fill in, and at last `end`.
pub open spec fn blank(parts: Seq<(Seq<char>, Seq<char>)>, end: Seq<char>) -> Seq<char> {
    blank_from(parts, end, 0)
}

/// What is said behind the fixed texts.
pub open spec fn said(parts: Seq<(Seq<char>, Seq<char>)>) -> Seq<Seq<char>> {
    parts.map_values(|p: (Seq<char>, Seq<char>)| p.1)
}

/// All texts that are not filled in are fixed.
pub open spec fn all_fixed(parts: Seq<(Seq<char>, Seq<char>)>, end: Seq<char>) -> bool {
    &&& is_fixed(end)
    &&& forall|i: int| 0 <= i < parts.len() ==> is_fixed((#[trigger] parts[i]).0)
}

/// A fixed text stays as it is, and the first field goes to the place behind it.
proof fn lemma_fill_next(a: Seq<char>, b: Seq<char>, fields: Seq<Seq<char>>)
    requires
        is_fixed(a),
        fields.len() > 0,
    ensures
        filled(a + "{}"@ + b, fields) == a + fields[0] + filled(b, fields.skip(1)),
    decreases a.len(),
{
    reveal_strlit("{}");
    let t = a + "{}"@ + b;
    if a.len() == 0 {
        assert(t.skip(2) =~= b);
        assert(a + fields[0] + filled(b, fields.skip(1)) =~= fields[0] + filled(b, fields.skip(1)));
    } else {
        let rest = a.skip(1);
        assert forall|i: int| 0 <= i < rest.len() implies #[trigger] rest[i] != '{' by {
            assert(rest[i] == a[i + 1]);
        }
        lemma_fill_next(rest, b, fields);
        assert(t.skip(1) =~= rest + "{}"@ + b);
        assert(t[0] == a[0]);
        assert(filled(t, fields) =~= a + fields[0] + filled(b, fields.skip(1)));
    }
}

/// Nothing is filled in where there is no place for it.
proof fn lemma_fill_none(a: Seq<char>, fields: Seq<Seq<char>>)
    requires
        is_fixed(a),
    ensures
        filled(a, fields) == a,
    decreases a.len(),
{
    if a.len() > 0 {
        let rest = a.skip(1);
        assert forall|i: int| 0 <= i < rest.len() implies #[trigger] rest[i] != '{' by {
            assert(rest[i] == a[i + 1]);
        }
        lemma_fill_none(rest, fields);
        assert(filled(a, fields) =~= a);
    }
}

proof fn lemma_fill_from(parts: Seq<(Seq<char>, Seq<char>)>, end: Seq<char>, i: int)
    requires
        all_fixed(parts, end),
        0 <= i <= parts.len(),
    ensures
        filled(blank_from(parts, end, i), said(parts).skip(i)) == woven_from(parts, end, i),
    decreases parts.len() - i,
{
    let fields = said(parts).skip(i);
    if i < parts.len() {
        lemma_fill_from(parts, end, i + 1);
        assert(is_fixed(parts[i].0));
        lemma_fill_next(parts[i].0, blank_from(parts, end, i + 1), fields);
        assert(fields.skip(1) =~= said(parts).skip(i + 1));
        assert(fields[0] == parts[i].1);
    } else {
        lemma_fill_none(end, fields);
    }
}

/// What is filled into a template stands where its place was, in order, and all else stays.
pub proof fn law_fields_go_to_their_places(parts: Seq<(Seq<char>, Seq<char>)>, end: Seq<char>)
    requires
        all_fixed(parts, end),
    ensures
        filled(blank(parts, end), said(parts)) == woven(parts, end),
{
    lemma_fill_from(parts, end, 0);
    assert(said(parts).skip(0) =~= said(parts));
}

proof fn lemma_woven_mentions(parts: Seq<(Seq<char>, Seq<char>)>, end: Seq<char>, i: int, k: int)
    requires
        0 <= k <= i < parts.len(),
    ensures
        mentions(
            woven_from(parts, end, k),
            parts[i].0 + parts[i].1 + (if i + 1 < parts.len() {
                parts[i + 1].0
            } else {
                end
            }),
        ),
    decreases i - k,
{
    let next = if i + 1 < parts.len() {
        parts[i + 1].0
    } else {
        end
    };
    let part = parts[i].0 + parts[i].1 + next;
    let text = woven_from(parts, end, k);
    if k == i {
        let rest = woven_from(parts, end, i + 1);
        assert(rest.subrange(0, next.len() as int) =~= next);
        assert(text.subrange(0, part.len() as int) =~= part);
        assert(holds_at(text, part, 0));
    } else {
        lemma_woven_mentions(parts, end, i, k + 1);
        let rest = woven_from(parts, end, k + 1);
        let at = choose|at: int| holds_at(rest, part, at);
        let n = (parts[k].0 + parts[k].1).len() as int;
        assert(text.subrange(n + at, n + at + part.len() as int) =~= rest.subrange(
            at,
            at + part.len() as int,
        ));
        assert(holds_at(text, part, n + at));
    }
}

/// What is said stands between the fixed text before it and the one behind it.
pub proof fn law_fields_stand_between_their_texts(
    parts: Seq<(Seq<char>, Seq<char>)>,
    end: Seq<char>,
    i: int,
)
    requires
        0 <= i < parts.len(),
    ensures
        mentions(
            woven(parts, end),
            parts[i].0 + parts[i].1 + (if i + 1 < parts.len() {
                parts[i + 1].0
            } else {
                end
            }),
        ),
{
    lemma_woven_mentions(parts, end, i, 0);
}

} // verus!
