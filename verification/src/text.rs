//! Text helpers: each is stated over the characters of its arguments.

use vstd::prelude::*;

verus! {

/// `String::push`: the character goes to the end.
pub assume_specification[ String::push ](s: &mut String, c: char)
    ensures
        final(s)@ == old(s)@.push(c),
;

/// The Unicode `White_Space` property.
pub open spec fn white_space(c: char) -> bool {
    ||| '\u{9}' <= c <= '\u{d}'
    ||| c == '\u{20}'
    ||| c == '\u{85}'
    ||| c == '\u{a0}'
    ||| c == '\u{1680}'
    ||| '\u{2000}' <= c <= '\u{200a}'
    ||| c == '\u{2028}'
    ||| c == '\u{2029}'
    ||| c == '\u{202f}'
    ||| c == '\u{205f}'
    ||| c == '\u{3000}'
}

/// `char::is_whitespace`: whether the character has the Unicode `White_Space`
/// property, whose members `white_space` lists.
pub assume_specification[ char::is_whitespace ](c: char) -> (b: bool)
    ensures
        b == white_space(c),
;

/// `s` without the white space it starts with.
pub open spec fn trimmed_start(s: Seq<char>) -> Seq<char>
    decreases s.len(),
{
    if s.len() > 0 && white_space(s[0]) {
        trimmed_start(s.drop_first())
    } else {
        s
    }
}

/// `s` without the white space it ends with.
pub open spec fn trimmed_end(s: Seq<char>) -> Seq<char>
    decreases s.len(),
{
    if s.len() > 0 && white_space(s.last()) {
        trimmed_end(s.drop_last())
    } else {
        s
    }
}

/// `s` without white space at either end.
pub open spec fn trimmed(s: Seq<char>) -> Seq<char> {
    trimmed_end(trimmed_start(s))
}

/// Whether every character is white space.
pub open spec fn blank(s: Seq<char>) -> bool {
    forall|i: int| 0 <= i < s.len() ==> white_space(#[trigger] s[i])
}

/// What is trimmed at the end is white space.
pub proof fn lemma_trimmed_end_rest(s: Seq<char>)
    ensures
        trimmed_end(s).len() <= s.len(),
        trimmed_end(s) == s.take(trimmed_end(s).len() as int),
        blank(s.skip(trimmed_end(s).len() as int)),
        trimmed_end(s).len() > 0 ==> !white_space(trimmed_end(s).last()),
    decreases s.len(),
{
    if s.len() > 0 && white_space(s.last()) {
        lemma_trimmed_end_rest(s.drop_last());
        let n = trimmed_end(s).len() as int;
        assert(s.drop_last().take(n) =~= s.take(n));
        assert forall|i: int| 0 <= i < s.skip(n).len() implies white_space(
            #[trigger] s.skip(n)[i],
        ) by {
            if i < s.len() - 1 - n {
                assert(s.skip(n)[i] == s.drop_last().skip(n)[i]);
            }
        }
    } else {
        assert(s.take(s.len() as int) =~= s);
    }
}

/// White space behind a text is trimmed with the rest.
proof fn lemma_trimmed_end_blank(s: Seq<char>, after: Seq<char>)
    requires
        blank(after),
    ensures
        trimmed_end(s + after) == trimmed_end(s),
{
    assert forall|i: int| s.len() <= i < (s + after).len() implies white_space(
        #[trigger] (s + after)[i],
    ) by {
        assert((s + after)[i] == after[i - s.len()]);
    }
    lemma_trimmed_end_take(s + after, s.len() as int);
    assert((s + after).take(s.len() as int) =~= s);
}

/// What follows a text stays behind it when it is trimmed at the start, unless
/// nothing is left of the text.
proof fn lemma_trimmed_start_append(s: Seq<char>, after: Seq<char>)
    ensures
        trimmed_start(s).len() > 0 ==> trimmed_start(s + after) == trimmed_start(s) + after,
        trimmed_start(s).len() == 0 ==> trimmed_start(s + after) == trimmed_start(after),
    decreases s.len(),
{
    if s.len() == 0 {
        assert(s + after =~= after);
    } else if white_space(s[0]) {
        lemma_trimmed_start_append(s.drop_first(), after);
        assert((s + after).drop_first() =~= s.drop_first() + after);
    }
}

/// Of white space nothing is left.
pub proof fn lemma_trimmed_blank(s: Seq<char>)
    requires
        blank(s),
    ensures
        trimmed_start(s) == Seq::<char>::empty(),
        trimmed_end(s) == Seq::<char>::empty(),
        trimmed(s) == Seq::<char>::empty(),
{
    lemma_trimmed_start_skip(s, s.len() as int);
    assert(s.skip(s.len() as int) =~= Seq::<char>::empty());
    lemma_trimmed_end_take(s, 0);
    assert(s.take(0) =~= Seq::<char>::empty());
}

/// White space around a text makes no difference to what is left when it is
/// trimmed.
pub proof fn lemma_trimmed_around(before: Seq<char>, s: Seq<char>, after: Seq<char>)
    requires
        blank(before),
        blank(after),
    ensures
        trimmed(before + s + after) == trimmed(s),
{
    let whole = before + s + after;
    assert forall|i: int| 0 <= i < before.len() implies white_space(#[trigger] whole[i]) by {
        assert(whole[i] == before[i]);
    }
    lemma_trimmed_start_skip(whole, before.len() as int);
    assert(whole.skip(before.len() as int) =~= s + after);
    lemma_trimmed_start_append(s, after);
    if trimmed_start(s).len() > 0 {
        lemma_trimmed_end_blank(trimmed_start(s), after);
    } else {
        lemma_trimmed_blank(after);
    }
}

/// `s` without the leading run of `c`.
pub open spec fn without_leading(s: Seq<char>, c: char) -> Seq<char>
    decreases s.len(),
{
    if s.len() > 0 && s[0] == c {
        without_leading(s.drop_first(), c)
    } else {
        s
    }
}

/// The number of characters before the first white space, all of them if there
/// is none.
pub open spec fn word_len(s: Seq<char>) -> nat
    decreases s.len(),
{
    if s.len() == 0 || white_space(s[0]) {
        0
    } else {
        1 + word_len(s.drop_first())
    }
}

/// Whether `part` occurs in `s`.
pub open spec fn has_part(s: Seq<char>, part: Seq<char>) -> bool {
    exists|i: int| 0 <= i <= s.len() - part.len() && #[trigger] s.subrange(i, i + part.len()) == part
}

/// `s` with every occurrence of `part` taken out, from left to right.
pub open spec fn without_part(s: Seq<char>, part: Seq<char>) -> Seq<char>
    decreases s.len(),
{
    if part.len() == 0 || s.len() < part.len() {
        s
    } else if part.is_prefix_of(s) {
        without_part(s.skip(part.len() as int), part)
    } else {
        seq![s[0]] + without_part(s.drop_first(), part)
    }
}

/// The parts in order, with `sep` between neighbours.
pub open spec fn joined(parts: Seq<Seq<char>>, sep: Seq<char>) -> Seq<char>
    decreases parts.len(),
{
    if parts.len() == 0 {
        Seq::empty()
    } else if parts.len() == 1 {
        parts[0]
    } else {
        joined(parts.drop_last(), sep) + sep + parts.last()
    }
}

/// The first `n` characters, or all of them.
pub open spec fn at_most(s: Seq<char>, n: nat) -> Seq<char> {
    if s.len() <= n {
        s
    } else {
        s.take(n as int)
    }
}

/// One line without its terminator: a carriage return before the line feed
/// belongs to the terminator.
pub open spec fn without_return(line: Seq<char>) -> Seq<char> {
    if line.len() > 0 && line.last() == '\r' {
        line.drop_last()
    } else {
        line
    }
}

/// The number of characters before the first line feed, all if there is none.
pub open spec fn line_len(s: Seq<char>) -> nat
    decreases s.len(),
{
    if s.len() == 0 || s[0] == '\n' {
        0
    } else {
        1 + line_len(s.drop_first())
    }
}

pub proof fn lemma_line_len(s: Seq<char>)
    ensures
        line_len(s) <= s.len(),
        line_len(s) < s.len() ==> s[line_len(s) as int] == '\n',
        forall|i: int| 0 <= i < line_len(s) ==> s[i] != '\n',
    decreases s.len(),
{
    if s.len() > 0 && s[0] != '\n' {
        lemma_line_len(s.drop_first());
        assert forall|i: int| 0 <= i < line_len(s) implies s[i] != '\n' by {
            if i > 0 {
                assert(s[i] == s.drop_first()[i - 1]);
            }
        }
    }
}

/// The lines of `s`: a line ends at a line feed, with an optional carriage
/// return before it, and the last one may lack its terminator.
pub open spec fn lines_of(s: Seq<char>) -> Seq<Seq<char>>
    decreases s.len(),
    via lines_of_decreases
{
    if s.len() == 0 {
        Seq::empty()
    } else if line_len(s) < s.len() {
        seq![without_return(s.take(line_len(s) as int))] + lines_of(s.skip(line_len(s) as int + 1))
    } else {
        seq![s]
    }
}

#[via_fn]
proof fn lines_of_decreases(s: Seq<char>) {
    lemma_line_len(s);
}

/// The lines of a text have no line feeds in them.
pub proof fn lemma_lines_whole(s: Seq<char>)
    ensures
        forall|i: int, k: int|
            #![trigger lines_of(s)[i][k]]
            0 <= i < lines_of(s).len() && 0 <= k < lines_of(s)[i].len() ==> lines_of(s)[i][k]
                != '\n',
    decreases s.len(),
{
    lemma_line_len(s);
    if s.len() > 0 && line_len(s) < s.len() {
        let rest = s.skip(line_len(s) as int + 1);
        lemma_lines_whole(rest);
        assert forall|i: int, k: int|
            #![trigger lines_of(s)[i][k]]
            0 <= i < lines_of(s).len() && 0 <= k < lines_of(s)[i].len() implies lines_of(s)[i][k]
            != '\n' by {
            if i > 0 {
                assert(lines_of(s)[i] == lines_of(rest)[i - 1]);
                assert(lines_of(rest)[i - 1][k] != '\n');
            } else {
                assert(lines_of(s)[0] == without_return(s.take(line_len(s) as int)));
                assert(lines_of(s)[0][k] == s[k]);
            }
        }
    }
}

/// The decimal digits of `n`.
pub open spec fn decimal(n: nat) -> Seq<char>
    decreases n,
{
    if n < 10 {
        seq![digit(n)]
    } else {
        decimal(n / 10).push(digit(n % 10))
    }
}

/// The decimal digit for `d`, which is below ten.
pub open spec fn digit(d: nat) -> char {
    if d == 0 {
        '0'
    } else if d == 1 {
        '1'
    } else if d == 2 {
        '2'
    } else if d == 3 {
        '3'
    } else if d == 4 {
        '4'
    } else if d == 5 {
        '5'
    } else if d == 6 {
        '6'
    } else if d == 7 {
        '7'
    } else if d == 8 {
        '8'
    } else {
        '9'
    }
}

/// The characters of `s`.
pub fn chars_of(s: &str) -> (v: Vec<char>)
    ensures
        v@ == s@,
{
    let mut v: Vec<char> = Vec::new();
    for c in it: s.chars()
        invariant
            it.seq() == s@,
            v@ == s@.take(it.index()),
    {
        v.push(c);
    }
    assert(s@.take(s@.len() as int) =~= s@);
    v
}

/// The characters `from..to` as a string.
pub fn string_of(v: &Vec<char>, from: usize, to: usize) -> (s: String)
    requires
        from <= to <= v.len(),
    ensures
        s@ == v@.subrange(from as int, to as int),
{
    let mut s = String::new();
    let mut i: usize = from;
    while i < to
        invariant
            from <= i <= to <= v.len(),
            s@ == v@.subrange(from as int, i as int),
        decreases to - i,
    {
        s.push(v[i]);
        i += 1;
        assert(v@.subrange(from as int, i as int) =~= v@.subrange(from as int, i - 1).push(v@[i - 1]));
    }
    s
}

/// Whether the two texts hold the same characters.
pub fn same(a: &str, b: &str) -> (r: bool)
    ensures
        r == (a@ == b@),
{
    let x = chars_of(a);
    let y = chars_of(b);
    if x.len() != y.len() {
        return false;
    }
    let mut i: usize = 0;
    while i < x.len()
        invariant
            i <= x.len(),
            x.len() == y.len(),
            x@ == a@,
            y@ == b@,
            forall|k: int| 0 <= k < i ==> x@[k] == y@[k],
        decreases x.len() - i,
    {
        if x[i] != y[i] {
            return false;
        }
        i += 1;
    }
    assert(a@ =~= b@);
    true
}

proof fn lemma_trimmed_start_skip(s: Seq<char>, n: int)
    requires
        0 <= n <= s.len(),
        forall|i: int| 0 <= i < n ==> white_space(#[trigger] s[i]),
    ensures
        trimmed_start(s) == trimmed_start(s.skip(n)),
    decreases n,
{
    if n == 0 {
        assert(s.skip(0) =~= s);
    } else {
        assert(white_space(s[0]));
        assert forall|i: int| 0 <= i < n - 1 implies white_space(#[trigger] s.drop_first()[i]) by {
            assert(white_space(s[i + 1]));
        }
        lemma_trimmed_start_skip(s.drop_first(), n - 1);
        assert(s.drop_first().skip(n - 1) =~= s.skip(n));
    }
}

pub proof fn lemma_trimmed_end_take(s: Seq<char>, n: int)
    requires
        0 <= n <= s.len(),
        forall|i: int| n <= i < s.len() ==> white_space(#[trigger] s[i]),
    ensures
        trimmed_end(s) == trimmed_end(s.take(n)),
    decreases s.len() - n,
{
    if n == s.len() {
        assert(s.take(n) =~= s);
    } else {
        assert(white_space(s[s.len() - 1]));
        lemma_trimmed_end_take(s.drop_last(), n);
        assert(s.drop_last().take(n) =~= s.take(n));
    }
}

/// `s` without the white space it ends with.
pub fn trim_end(s: &str) -> (r: String)
    ensures
        r@ == trimmed_end(s@),
{
    let v = chars_of(s);
    let mut end: usize = v.len();
    while end > 0 && v[end - 1].is_whitespace()
        invariant
            end <= v.len(),
            v@ == s@,
            forall|i: int| end <= i < v.len() ==> white_space(#[trigger] v@[i]),
        decreases end,
    {
        end -= 1;
    }
    proof {
        lemma_trimmed_end_take(s@, end as int);
        assert(v@.subrange(0, end as int) =~= s@.take(end as int));
    }
    string_of(&v, 0, end)
}

/// `s` without white space at either end.
pub fn trim(s: &str) -> (r: String)
    ensures
        r@ == trimmed(s@),
{
    let v = chars_of(s);
    let mut start: usize = 0;
    while start < v.len() && v[start].is_whitespace()
        invariant
            start <= v.len(),
            v@ == s@,
            forall|i: int| 0 <= i < start ==> white_space(#[trigger] v@[i]),
        decreases v.len() - start,
    {
        start += 1;
    }
    proof {
        lemma_trimmed_start_skip(s@, start as int);
        assert(trimmed_start(s@) == s@.skip(start as int));
    }
    let mut end: usize = v.len();
    while end > start && v[end - 1].is_whitespace()
        invariant
            start <= end <= v.len(),
            v@ == s@,
            forall|i: int| end <= i < v.len() ==> white_space(#[trigger] v@[i]),
        decreases end,
    {
        end -= 1;
    }
    proof {
        let rest = s@.skip(start as int);
        assert forall|i: int| end - start <= i < rest.len() implies white_space(#[trigger] rest[i]) by {
            assert(white_space(v@[i + start]));
        }
        lemma_trimmed_end_take(rest, end - start);
        assert(v@.subrange(start as int, end as int) =~= rest.take(end - start));
    }
    string_of(&v, start, end)
}

/// `s` without the leading run of `c`.
pub fn strip_leading(s: &str, c: char) -> (r: String)
    ensures
        r@ == without_leading(s@, c),
{
    let v = chars_of(s);
    let mut i: usize = 0;
    proof {
        assert(s@.skip(0) =~= s@);
    }
    while i < v.len() && v[i] == c
        invariant
            i <= v.len(),
            v@ == s@,
            without_leading(s@, c) == without_leading(s@.skip(i as int), c),
        decreases v.len() - i,
    {
        proof {
            assert(s@.skip(i as int).drop_first() =~= s@.skip(i + 1));
        }
        i += 1;
    }
    proof {
        assert(v@.subrange(i as int, v.len() as int) =~= s@.skip(i as int));
    }
    string_of(&v, i, v.len())
}

pub proof fn lemma_word_len(s: Seq<char>, n: int)
    requires
        0 <= n <= s.len(),
        forall|i: int| 0 <= i < n ==> !white_space(#[trigger] s[i]),
        n == s.len() || white_space(s[n]),
    ensures
        word_len(s) == n,
    decreases n,
{
    if n > 0 {
        assert(!white_space(s[0]));
        assert forall|i: int| 0 <= i < n - 1 implies !white_space(#[trigger] s.drop_first()[i]) by {
            assert(!white_space(s[i + 1]));
        }
        lemma_word_len(s.drop_first(), n - 1);
    }
}

/// Splits `s` at its first white space into what is before and what is after.
pub fn split_word(s: &str) -> (r: (String, Option<String>))
    ensures
        r.0@ == s@.take(word_len(s@) as int),
        word_len(s@) <= s@.len(),
        r.1 is Some <==> word_len(s@) < s@.len(),
        r.1 matches Some(rest) ==> rest@ == s@.skip(word_len(s@) as int + 1),
{
    let v = chars_of(s);
    let mut i: usize = 0;
    while i < v.len() && !v[i].is_whitespace()
        invariant
            i <= v.len(),
            v@ == s@,
            forall|k: int| 0 <= k < i ==> !white_space(#[trigger] v@[k]),
        decreases v.len() - i,
    {
        i += 1;
    }
    proof {
        lemma_word_len(s@, i as int);
        assert(v@.subrange(0, i as int) =~= s@.take(i as int));
    }
    let word = string_of(&v, 0, i);
    if i < v.len() {
        proof {
            assert(v@.subrange(i + 1, v.len() as int) =~= s@.skip(i + 1));
        }
        (word, Some(string_of(&v, i + 1, v.len())))
    } else {
        (word, None)
    }
}

/// Whether `s` starts with `prefix`.
pub fn starts_with(s: &str, prefix: &str) -> (r: bool)
    ensures
        r == prefix@.is_prefix_of(s@),
{
    let v = chars_of(s);
    let p = chars_of(prefix);
    matches_at(&v, 0, &p)
}

/// Whether `part` stands in `v` at position `at`.
pub fn matches_at(v: &Vec<char>, at: usize, part: &Vec<char>) -> (r: bool)
    requires
        at <= v.len(),
    ensures
        r == part@.is_prefix_of(v@.skip(at as int)),
        at == 0 ==> r == part@.is_prefix_of(v@),
{
    proof {
        assert(v@.skip(0) =~= v@);
    }
    if part.len() > v.len() - at {
        return false;
    }
    let mut i: usize = 0;
    while i < part.len()
        invariant
            i <= part.len(),
            at <= v.len(),
            part.len() <= v.len() - at,
            forall|k: int| 0 <= k < i ==> part@[k] == v@.skip(at as int)[k],
        decreases part.len() - i,
    {
        if v[at + i] != part[i] {
            proof {
                assert(v@.skip(at as int)[i as int] != part@[i as int]);
                if part@.is_prefix_of(v@.skip(at as int)) {
                    assert(v@.skip(at as int).take(part@.len() as int)[i as int] == part@[i as int]);
                }
            }
            return false;
        }
        i += 1;
    }
    proof {
        assert(v@.skip(at as int).take(part@.len() as int) =~= part@);
    }
    true
}

/// The text after `prefix`, if `s` starts with it.
pub fn strip_prefix(s: &str, prefix: &str) -> (r: Option<String>)
    ensures
        r is Some <==> prefix@.is_prefix_of(s@),
        r matches Some(rest) ==> rest@ == s@.skip(prefix@.len() as int),
{
    let v = chars_of(s);
    let p = chars_of(prefix);
    if matches_at(&v, 0, &p) {
        proof {
            assert(v@.subrange(p.len() as int, v.len() as int) =~= s@.skip(prefix@.len() as int));
        }
        Some(string_of(&v, p.len(), v.len()))
    } else {
        None
    }
}

/// Whether `part` occurs in `s`.
pub fn contains(s: &str, part: &str) -> (r: bool)
    ensures
        r == has_part(s@, part@),
{
    let v = chars_of(s);
    let p = chars_of(part);
    if p.len() > v.len() {
        return false;
    }
    let mut i: usize = 0;
    while i <= v.len() - p.len()
        invariant
            p.len() <= v.len(),
            i <= v.len() - p.len() + 1,
            v@ == s@,
            p@ == part@,
            forall|k: int| 0 <= k < i ==> #[trigger] s@.subrange(k, k + part@.len()) != part@,
        decreases v.len() - p.len() + 1 - i,
    {
        proof {
            assert(v@.skip(i as int).take(part@.len() as int) =~= s@.subrange(i as int, i + part@.len()));
        }
        if matches_at(&v, i, &p) {
            return true;
        }
        i += 1;
    }
    false
}

/// `s` with every occurrence of `part` taken out.
pub fn remove_part(s: &str, part: &str) -> (r: String)
    requires
        part@.len() > 0,
    ensures
        r@ == without_part(s@, part@),
{
    let v = chars_of(s);
    let p = chars_of(part);
    let mut out = String::new();
    let mut i: usize = 0;
    proof {
        assert(s@.skip(0) =~= s@);
    }
    while i < v.len()
        invariant
            i <= v.len(),
            v@ == s@,
            p@ == part@,
            p.len() > 0,
            without_part(s@, part@) == out@ + without_part(s@.skip(i as int), part@),
        decreases v.len() - i,
    {
        let ghost rest = s@.skip(i as int);
        if matches_at(&v, i, &p) {
            proof {
                assert(rest.skip(p.len() as int) =~= s@.skip(i + p.len()));
            }
            i += p.len();
        } else {
            let ghost before = out@;
            out.push(v[i]);
            proof {
                assert(rest.drop_first() =~= s@.skip(i + 1));
                if rest.len() < part@.len() {
                    assert(s@.skip(i + 1).len() < part@.len());
                    assert(rest =~= seq![rest[0]] + rest.drop_first());
                    assert(without_part(rest, part@) == rest);
                    assert(without_part(s@.skip(i + 1), part@) == s@.skip(i + 1));
                }
                assert(before + (seq![rest[0]] + without_part(s@.skip(i + 1), part@)) =~= before.push(rest[0])
                    + without_part(s@.skip(i + 1), part@));
            }
            i += 1;
        }
    }
    proof {
        assert(s@.skip(i as int) =~= Seq::<char>::empty());
        assert(without_part(s@.skip(i as int), part@) =~= Seq::<char>::empty());
        assert(out@ + Seq::<char>::empty() =~= out@);
    }
    out
}

/// `s` with every `from` replaced by `to`.
pub fn replace_char(s: &str, from: char, to: char) -> (r: String)
    ensures
        r@ == s@.map_values(|c: char| if c == from { to } else { c }),
{
    let v = chars_of(s);
    let mut out = String::new();
    let mut i: usize = 0;
    let ghost f = |c: char| if c == from { to } else { c };
    while i < v.len()
        invariant
            i <= v.len(),
            v@ == s@,
            f == (|c: char| if c == from { to } else { c }),
            out@ =~= s@.take(i as int).map_values(f),
        decreases v.len() - i,
    {
        if v[i] == from {
            out.push(to);
        } else {
            out.push(v[i]);
        }
        i += 1;
        proof {
            assert(s@.take(i as int) =~= s@.take(i - 1).push(s@[i - 1]));
        }
    }
    proof {
        assert(s@.take(i as int) =~= s@);
    }
    out
}

/// The first `n` characters of `s`, or all of them.
pub fn take_chars(s: &str, n: usize) -> (r: String)
    ensures
        r@ == at_most(s@, n as nat),
{
    let v = chars_of(s);
    if v.len() <= n {
        assert(v@.subrange(0, v.len() as int) =~= s@);
        string_of(&v, 0, v.len())
    } else {
        assert(v@.subrange(0, n as int) =~= s@.take(n as int));
        string_of(&v, 0, n)
    }
}

/// The parts in order, with `sep` between neighbours.
pub fn join(parts: &Vec<String>, sep: &str) -> (r: String)
    ensures
        r@ == joined(parts.deep_view(), sep@),
{
    let mut out = String::new();
    let mut i: usize = 0;
    let ghost all = parts.deep_view();
    while i < parts.len()
        invariant
            i <= parts.len(),
            all == parts.deep_view(),
            out@ == joined(all.take(i as int), sep@),
        decreases parts.len() - i,
    {
        if i > 0 {
            out.append(sep);
        }
        out.append(parts[i].as_str());
        i += 1;
        proof {
            assert(all.take(i as int).drop_last() =~= all.take(i - 1));
            if i == 1 {
                assert(out@ =~= all[0]);
            }
        }
    }
    proof {
        assert(all.take(i as int) =~= all);
    }
    out
}

/// The lines of `s`.
pub fn lines(s: &str) -> (r: Vec<String>)
    ensures
        r.deep_view() == lines_of(s@),
{
    let v = chars_of(s);
    let mut out: Vec<String> = Vec::new();
    let mut start: usize = 0;
    proof {
        assert(s@.skip(0) =~= s@);
        assert(out.deep_view() + lines_of(s@) =~= lines_of(s@));
    }
    while start < v.len()
        invariant
            start <= v.len(),
            v@ == s@,
            out.deep_view() + lines_of(s@.skip(start as int)) == lines_of(s@),
        decreases v.len() - start,
    {
        let ghost rest = s@.skip(start as int);
        let ghost before = out.deep_view();
        let mut end: usize = start;
        while end < v.len() && v[end] != '\n'
            invariant
                start <= end <= v.len(),
                v@ == s@,
                rest == s@.skip(start as int),
                forall|k: int| 0 <= k < end - start ==> rest[k] != '\n',
            decreases v.len() - end,
        {
            end += 1;
        }
        proof {
            lemma_line_len(rest);
            if end < v.len() {
                assert(rest[end - start] == v@[end as int]);
            }
            if line_len(rest) < end - start {
                assert(rest[line_len(rest) as int] != '\n');
            }
            assert(line_len(rest) == end - start);
        }
        if end < v.len() {
            let stop: usize = if end > start && v[end - 1] == '\r' { end - 1 } else { end };
            proof {
                assert(v@.subrange(start as int, stop as int) =~= without_return(rest.take(end - start)));
                assert(rest.skip(end - start + 1) =~= s@.skip(end + 1));
            }
            out.push(string_of(&v, start, stop));
            proof {
                assert(out.deep_view() =~= before.push(without_return(rest.take(end - start))));
                assert(out.deep_view() + lines_of(s@.skip(end + 1)) =~= before + (seq![
                    without_return(rest.take(end - start)),
                ] + lines_of(s@.skip(end + 1))));
            }
            start = end + 1;
        } else {
            proof {
                assert(v@.subrange(start as int, end as int) =~= rest);
            }
            out.push(string_of(&v, start, end));
            proof {
                assert(out.deep_view() =~= before + seq![rest]);
                assert(s@.skip(end as int) =~= Seq::<char>::empty());
                assert(out.deep_view() + lines_of(s@.skip(end as int)) =~= out.deep_view());
            }
            start = end;
        }
    }
    proof {
        assert(s@.skip(start as int) =~= Seq::<char>::empty());
        assert(out.deep_view() + lines_of(s@.skip(start as int)) =~= out.deep_view());
    }
    out
}

/// The decimal digit for `d`.
fn digit_char(d: u64) -> (c: char)
    requires
        d < 10,
    ensures
        c == digit(d as nat),
{
    if d == 0 {
        '0'
    } else if d == 1 {
        '1'
    } else if d == 2 {
        '2'
    } else if d == 3 {
        '3'
    } else if d == 4 {
        '4'
    } else if d == 5 {
        '5'
    } else if d == 6 {
        '6'
    } else if d == 7 {
        '7'
    } else if d == 8 {
        '8'
    } else {
        '9'
    }
}

/// `n` in decimal.
pub fn to_decimal(n: u64) -> (r: String)
    ensures
        r@ == decimal(n as nat),
    decreases n,
{
    let mut out = if n < 10 {
        String::new()
    } else {
        to_decimal(n / 10)
    };
    out.push(digit_char(n % 10));
    proof {
        assert(out@ =~= decimal(n as nat));
    }
    out
}

/// A copy.
pub fn owned(s: &str) -> (r: String)
    ensures
        r@ == s@,
{
    let mut r = String::new();
    r.append(s);
    assert(r@ =~= s@);
    r
}

/// Two texts, one after the other.
pub fn cat2(a: &str, b: &str) -> (r: String)
    ensures
        r@ == a@ + b@,
{
    let mut out = a.to_string();
    out.append(b);
    out
}

/// Three texts, one after the other.
pub fn cat3(a: &str, b: &str, c: &str) -> (r: String)
    ensures
        r@ == a@ + b@ + c@,
{
    let mut out = cat2(a, b);
    out.append(c);
    out
}

/// A text of `n` blanks.
pub fn blanks(n: usize) -> (r: String)
    ensures
        r@ == Seq::new(n as nat, |i: int| ' '),
{
    let mut out = String::new();
    let mut i: usize = 0;
    while i < n
        invariant
            i <= n,
            out@ =~= Seq::new(i as nat, |k: int| ' '),
        decreases n - i,
    {
        out.push(' ');
        i += 1;
    }
    out
}

/// Copies of the strings, in order.
pub fn copy_all(v: &Vec<String>) -> (r: Vec<String>)
    ensures
        r.deep_view() == v.deep_view(),
{
    let mut out: Vec<String> = Vec::new();
    let mut i: usize = 0;
    while i < v.len()
        invariant
            i <= v.len(),
            out.deep_view() =~= v.deep_view().take(i as int),
        decreases v.len() - i,
    {
        let ghost before = out.deep_view();
        out.push(v[i].clone());
        i += 1;
        proof {
            assert(out.deep_view() =~= before.push(v[i - 1]@));
        }
    }
    proof {
        assert(v.deep_view().take(i as int) =~= v.deep_view());
    }
    out
}

/// The position of the first string equal to `s`.
pub fn position(v: &Vec<String>, s: &str) -> (r: Option<usize>)
    ensures
        r is Some <==> v.deep_view().contains(s@),
        r matches Some(i) ==> i < v.len() && v.deep_view()[i as int] == s@ && forall|k: int|
            0 <= k < i ==> #[trigger] v.deep_view()[k] != s@,
{
    let mut i: usize = 0;
    while i < v.len()
        invariant
            i <= v.len(),
            forall|k: int| 0 <= k < i ==> #[trigger] v.deep_view()[k] != s@,
        decreases v.len() - i,
    {
        if same(v[i].as_str(), s) {
            assert(v.deep_view()[i as int] == s@);
            return Some(i);
        }
        i += 1;
    }
    None
}

} // verus!
