//! What holds of the text helpers.

use crate::text::{
    at_most, blank, decimal, digit, has_part, joined, lemma_line_len, lemma_trimmed_around,
    lemma_trimmed_end_rest, line_len, lines_of, trimmed, trimmed_end, trimmed_start, white_space,
    without_leading, without_part, without_return,
};
use vstd::prelude::*;

verus! {

/// Whether the text neither starts nor ends with white space.
pub open spec fn tight(s: Seq<char>) -> bool {
    s.len() > 0 ==> !white_space(s[0]) && !white_space(s.last())
}

/// Trimming takes off white space at either end, and nothing else.
pub proof fn trimming_takes_white_space_off(before: Seq<char>, core: Seq<char>, after: Seq<char>)
    requires
        blank(before),
        blank(after),
        tight(core),
    ensures
        trimmed(before + core + after) == core,
{
    lemma_trimmed_around(before, core, after);
}

/// A text is what is left of it when it is trimmed, with white space around that.
pub proof fn what_is_trimmed_is_white_space(s: Seq<char>) -> (ends: (Seq<char>, Seq<char>))
    ensures
        s == ends.0 + trimmed(s) + ends.1,
        blank(ends.0),
        blank(ends.1),
        tight(trimmed(s)),
    decreases s.len(),
{
    if s.len() > 0 && white_space(s[0]) {
        let ends = what_is_trimmed_is_white_space(s.drop_first());
        let front = seq![s[0]] + ends.0;
        assert forall|i: int| 0 <= i < front.len() implies white_space(#[trigger] front[i]) by {
            if i > 0 {
                assert(front[i] == ends.0[i - 1]);
            }
        }
        assert(s =~= seq![s[0]] + s.drop_first());
        assert(s =~= front + trimmed(s) + ends.1);
        (front, ends.1)
    } else {
        assert(trimmed_start(s) == s);
        lemma_trimmed_end_rest(s);
        let n = trimmed_end(s).len() as int;
        assert(s =~= Seq::<char>::empty() + trimmed(s) + s.skip(n));
        (Seq::empty(), s.skip(n))
    }
}

/// At the end alone, too, only white space is taken off.
pub proof fn trimming_the_end_keeps_the_start(core: Seq<char>, after: Seq<char>)
    requires
        blank(after),
        core.len() > 0 ==> !white_space(core.last()),
    ensures
        trimmed_end(core + after) == core,
    decreases after.len(),
{
    if after.len() > 0 {
        let fewer = after.drop_last();
        assert forall|i: int| 0 <= i < fewer.len() implies white_space(#[trigger] fewer[i]) by {
            assert(fewer[i] == after[i]);
        }
        trimming_the_end_keeps_the_start(core, fewer);
        assert((core + after).drop_last() =~= core + fewer);
        assert((core + after).last() == after[after.len() - 1]);
    } else {
        assert(core + after =~= core);
    }
}

/// Joining puts the separator between the parts and nowhere else.
pub proof fn joining_puts_the_separator_between(
    a: Seq<Seq<char>>,
    b: Seq<Seq<char>>,
    part: Seq<char>,
    sep: Seq<char>,
)
    ensures
        joined(Seq::empty(), sep) == Seq::<char>::empty(),
        joined(seq![part], sep) == part,
        a.len() > 0 && b.len() > 0 ==> joined(a + b, sep) == joined(a, sep) + sep + joined(b, sep),
    decreases b.len(),
{
    if a.len() > 0 && b.len() > 0 {
        let fewer = b.drop_last();
        assert((a + b).drop_last() =~= a + fewer);
        assert((a + b).last() == b.last());
        if fewer.len() > 0 {
            joining_puts_the_separator_between(a, fewer, part, sep);
            assert(joined(a, sep) + sep + joined(fewer, sep) + sep + b.last() =~= joined(a, sep)
                + sep + (joined(fewer, sep) + sep + b.last()));
        } else {
            assert(a + fewer =~= a);
        }
    }
}

/// A text that is cut short keeps its start: as much as is allowed, or all of it.
pub proof fn cutting_short_keeps_the_start(s: Seq<char>, n: nat)
    ensures
        at_most(s, n).is_prefix_of(s),
        at_most(s, n).len() <= n,
        at_most(s, n).len() == n || at_most(s, n) == s,
{
    assert(s.take(s.len() as int) =~= s);
}

/// A text without a line feed is one line; a line with its line feed comes apart from
/// the lines behind it, and a carriage return before the line feed goes with it.
pub proof fn lines_end_at_line_feeds(l: Seq<char>, rest: Seq<char>)
    requires
        !l.contains('\n'),
    ensures
        l.len() > 0 ==> lines_of(l) == seq![l],
        lines_of(Seq::empty()) == Seq::<Seq<char>>::empty(),
        l.len() == 0 || l.last() != '\r' ==> lines_of(l + seq!['\n'] + rest) == seq![l] + lines_of(
            rest,
        ),
        lines_of(l + seq!['\r', '\n'] + rest) == seq![l] + lines_of(rest),
{
    assert forall|i: int| 0 <= i < l.len() implies l[i] != '\n' by {
        assert(l.contains(l[i]));
    }
    lemma_line_len(l);
    if line_len(l) < l.len() {
        assert(l[line_len(l) as int] == '\n');
    }
    let whole = l + seq!['\n'] + rest;
    lemma_line_end(whole, l.len() as int);
    assert(whole.take(l.len() as int) =~= l);
    assert(whole.skip(l.len() as int + 1) =~= rest);
    let other = l + seq!['\r', '\n'] + rest;
    assert forall|i: int| 0 <= i < l.len() + 1 implies other[i] != '\n' by {
        if i < l.len() {
            assert(other[i] == l[i]);
        }
    }
    lemma_line_end(other, l.len() as int + 1);
    assert(other.take(l.len() as int + 1) =~= l.push('\r'));
    assert(without_return(l.push('\r')) =~= l);
    assert(other.skip(l.len() as int + 2) =~= rest);
}

/// The first line ends at the first line feed.
pub proof fn lemma_line_end(s: Seq<char>, n: int)
    requires
        0 <= n < s.len(),
        s[n] == '\n',
        forall|k: int| 0 <= k < n ==> s[k] != '\n',
    ensures
        line_len(s) == n,
    decreases n,
{
    if n > 0 {
        assert(s[0] != '\n');
        lemma_line_end(s.drop_first(), n - 1);
    }
}

/// The number that decimal digits stand for.
pub open spec fn numeral(digits: Seq<char>) -> int
    decreases digits.len(),
{
    if digits.len() == 0 {
        0
    } else {
        numeral(digits.drop_last()) * 10 + (digits.last() as int - '0' as int)
    }
}

/// A number in decimal digits reads back as the number, and has no zeros in front.
pub proof fn decimal_digits_read_back(n: nat)
    ensures
        numeral(decimal(n)) == n,
        forall|i: int| 0 <= i < decimal(n).len() ==> '0' <= #[trigger] decimal(n)[i] <= '9',
        decimal(n).len() > 0,
        n > 0 ==> decimal(n)[0] != '0',
    decreases n,
{
    let low = n % 10;
    assert(digit(low) as int - '0' as int == low);
    if n < 10 {
        assert(seq![digit(n)].drop_last() =~= Seq::<char>::empty());
        assert(numeral(Seq::<char>::empty()) == 0);
    } else {
        decimal_digits_read_back(n / 10);
        assert(decimal(n).drop_last() =~= decimal(n / 10));
    }
}

/// A part occurs in a text if and only if there is something before it and something
/// behind it that make up the text with it.
pub proof fn parts_stand_between_the_rest(before: Seq<char>, part: Seq<char>, after: Seq<char>)
    ensures
        has_part(before + part + after, part),
        forall|s: Seq<char>| #[trigger]
            has_part(s, part) ==> exists|x: Seq<char>, y: Seq<char>| s == #[trigger] (x + part + y),
{
    let whole = before + part + after;
    let at = before.len() as int;
    assert(whole.subrange(at, at + part.len()) =~= part);
    assert forall|s: Seq<char>| #[trigger] has_part(s, part) implies exists|
        x: Seq<char>,
        y: Seq<char>,
    | s == #[trigger] (x + part + y) by {
        let i = choose|i: int|
            0 <= i <= s.len() - part.len() && #[trigger] s.subrange(i, i + part.len()) == part;
        assert(s =~= s.take(i) + part + s.skip(i + part.len()));
    }
}

/// What is before the first occurrence of a part stays, the part goes, and so on behind
/// it; a text without the part stays as it is.
pub proof fn taking_out_a_part_keeps_the_rest(
    before: Seq<char>,
    part: Seq<char>,
    after: Seq<char>,
)
    requires
        part.len() > 0,
        forall|i: int|
            0 <= i < before.len() ==> !part.is_prefix_of(
                #[trigger] (before + part + after).skip(i),
            ),
    ensures
        without_part(before + part + after, part) == before + without_part(after, part),
    decreases before.len(),
{
    let whole = before + part + after;
    if before.len() == 0 {
        assert(whole.take(part.len() as int) =~= part);
        assert(part.is_prefix_of(whole));
        assert(whole.skip(part.len() as int) =~= after);
    } else {
        let fewer = before.drop_first();
        assert(whole.skip(0) =~= whole);
        assert(!part.is_prefix_of(whole));
        assert(whole.drop_first() =~= fewer + part + after);
        assert forall|i: int| 0 <= i < fewer.len() implies !part.is_prefix_of(
            #[trigger] (fewer + part + after).skip(i),
        ) by {
            assert((fewer + part + after).skip(i) =~= whole.skip(i + 1));
        }
        taking_out_a_part_keeps_the_rest(fewer, part, after);
        assert(seq![before[0]] + (fewer + without_part(after, part)) =~= before + without_part(
            after,
            part,
        ));
    }
}

/// A text in which the part does not occur stays as it is when the part is taken out.
pub proof fn nothing_else_is_taken_out(s: Seq<char>, part: Seq<char>)
    requires
        !has_part(s, part),
    ensures
        without_part(s, part) == s,
    decreases s.len(),
{
    if part.len() > 0 && s.len() >= part.len() {
        let at = 0int;
        assert(s.subrange(at, at + part.len()) =~= s.take(part.len() as int));
        assert(!part.is_prefix_of(s)) by {
            if part.is_prefix_of(s) {
                assert(s.take(part.len() as int) =~= part);
            }
        }
        let rest = s.drop_first();
        assert forall|i: int| 0 <= i <= rest.len() - part.len() implies #[trigger] rest.subrange(
            i,
            i + part.len(),
        ) != part by {
            assert(rest.subrange(i, i + part.len()) =~= s.subrange(i + 1, i + 1 + part.len()));
        }
        nothing_else_is_taken_out(rest, part);
        assert(seq![s[0]] + rest =~= s);
    }
}

/// A run of a character in front goes, however long it is, and nothing behind it.
pub proof fn leading_runs_go(n: nat, c: char, rest: Seq<char>)
    requires
        rest.len() > 0 ==> rest[0] != c,
    ensures
        without_leading(Seq::new(n, |i: int| c) + rest, c) == rest,
    decreases n,
{
    let whole = Seq::new(n, |i: int| c) + rest;
    if n > 0 {
        leading_runs_go((n - 1) as nat, c, rest);
        assert(whole.drop_first() =~= Seq::new((n - 1) as nat, |i: int| c) + rest);
    } else {
        assert(whole =~= rest);
    }
}

} // verus!
