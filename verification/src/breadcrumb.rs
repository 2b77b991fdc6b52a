//! A startup trail: one line per stage reached.

use crate::text;
use crate::text::{
    decimal, joined, lemma_line_len, lemma_lines_whole, line_len, lines_of, without_return,
};
use vstd::prelude::*;

verus! {

/// The trail is shortened when it has more lines than this.
pub const TRAIL_LIMIT: usize = 500;

/// So many lines are left of it then.
pub const TRAIL_KEPT: usize = 200;

/// The line that records reaching a stage.
pub fn mark(seconds: u64, pid: u32, stage: &str) -> (r: String)
    ensures
        r@ == decimal(seconds as nat) + " pid="@ + decimal(pid as nat) + " "@ + stage@ + "\n"@,
{
    let when = text::to_decimal(seconds);
    let who = text::to_decimal(pid as u64);
    let head = text::cat3(when.as_str(), " pid=", who.as_str());
    let line = text::cat3(head.as_str(), " ", stage);
    text::cat2(line.as_str(), "\n")
}

/// The shortened trail: the last lines of it, if it has grown too long.
pub open spec fn trimmed_trail(trail: Seq<char>) -> Option<Seq<char>> {
    let lines = lines_of(trail);
    if lines.len() > TRAIL_LIMIT {
        Some(joined(lines.skip(lines.len() - TRAIL_KEPT), "\n"@) + "\n"@)
    } else {
        None
    }
}

/// The lines, each with a line feed behind it.
pub open spec fn written(lines: Seq<Seq<char>>) -> Seq<char>
    decreases lines.len(),
{
    if lines.len() == 0 {
        Seq::empty()
    } else {
        lines[0] + "\n"@ + written(lines.drop_first())
    }
}

/// Whether these can be lines of a text: there is no line feed in them.
pub open spec fn whole_lines(lines: Seq<Seq<char>>) -> bool {
    forall|i: int, k: int|
        #![trigger lines[i][k]]
        0 <= i < lines.len() && 0 <= k < lines[i].len() ==> lines[i][k] != '\n'
}

/// Whether no line ends in a carriage return, which would count as a part of the
/// line feed behind it.
pub open spec fn without_returns(lines: Seq<Seq<char>>) -> bool {
    forall|i: int| 0 <= i < lines.len() ==> without_return(#[trigger] lines[i]) == lines[i]
}

proof fn lemma_written_more(lines: Seq<Seq<char>>, line: Seq<char>)
    ensures
        written(lines.push(line)) == written(lines) + line + "\n"@,
    decreases lines.len(),
{
    let all = lines.push(line);
    if lines.len() == 0 {
        assert(all.drop_first() =~= Seq::empty());
        assert(written(all.drop_first()) =~= Seq::empty());
        assert(written(all) =~= line + "\n"@);
        assert(written(lines) + line + "\n"@ =~= line + "\n"@);
    } else {
        lemma_written_more(lines.drop_first(), line);
        assert(all.drop_first() =~= lines.drop_first().push(line));
        assert(written(all) =~= written(lines) + line + "\n"@);
    }
}

proof fn lemma_joined_written(lines: Seq<Seq<char>>)
    requires
        lines.len() > 0,
    ensures
        joined(lines, "\n"@) + "\n"@ == written(lines),
    decreases lines.len(),
{
    let earlier = lines.drop_last();
    assert(lines =~= earlier.push(lines.last()));
    lemma_written_more(earlier, lines.last());
    if lines.len() == 1 {
        assert(earlier =~= Seq::empty());
        assert(written(earlier) + lines.last() + "\n"@ =~= lines[0] + "\n"@);
    } else {
        lemma_joined_written(earlier);
    }
}

/// What was written line by line is read line by line.
proof fn lemma_written_lines(lines: Seq<Seq<char>>)
    requires
        whole_lines(lines),
    ensures
        lines_of(written(lines)) == lines.map_values(|l: Seq<char>| without_return(l)),
    decreases lines.len(),
{
    let f = |l: Seq<char>| without_return(l);
    if lines.len() > 0 {
        reveal_strlit("\n");
        let text = written(lines);
        let rest = lines.drop_first();
        let n = lines[0].len() as int;
        assert(whole_lines(rest)) by {
            assert forall|i: int, k: int|
                #![trigger rest[i][k]]
                0 <= i < rest.len() && 0 <= k < rest[i].len() implies rest[i][k] != '\n' by {
                assert(rest[i][k] == lines[i + 1][k]);
            }
        }
        lemma_written_lines(rest);
        lemma_line_len(text);
        assert(text[n] == '\n');
        assert forall|k: int| 0 <= k < n implies text[k] != '\n' by {
            assert(text[k] == lines[0][k]);
        }
        assert(line_len(text) == n);
        assert(text.take(n) =~= lines[0]);
        assert(text.skip(n + 1) =~= written(rest));
        assert(lines.map_values(f) =~= seq![without_return(lines[0])] + rest.map_values(f));
    } else {
        assert(lines.map_values(f) =~= Seq::empty());
    }
}

/// A trail that was written line by line keeps exactly its last lines when it has
/// grown too long, in their order and each with its line feed, and is left alone
/// otherwise.
pub proof fn the_newest_lines_are_kept(lines: Seq<Seq<char>>)
    requires
        whole_lines(lines),
        lines.len() > TRAIL_LIMIT ==> without_returns(lines.skip(lines.len() - TRAIL_KEPT)),
    ensures
        trimmed_trail(written(lines)) == if lines.len() > TRAIL_LIMIT {
            Some(written(lines.skip(lines.len() - TRAIL_KEPT)))
        } else {
            None
        },
{
    let f = |l: Seq<char>| without_return(l);
    lemma_written_lines(lines);
    if lines.len() > TRAIL_LIMIT {
        let last = lines.skip(lines.len() - TRAIL_KEPT);
        assert forall|i: int| 0 <= i < last.len() implies last[i] == #[trigger] lines.map_values(f).skip(
            lines.len() - TRAIL_KEPT,
        )[i] by {
            assert(without_return(last[i]) == last[i]);
        }
        assert(lines.map_values(f).skip(lines.len() - TRAIL_KEPT) =~= last);
        lemma_joined_written(last);
    }
}

/// A trail never has more lines than the limit once it was looked after, and
/// looking after it again changes nothing.
pub proof fn the_trail_stays_short(trail: Seq<char>)
    ensures
        match trimmed_trail(trail) {
            Some(kept) => lines_of(kept).len() == TRAIL_KEPT && trimmed_trail(kept) is None,
            None => lines_of(trail).len() <= TRAIL_LIMIT,
        },
{
    let lines = lines_of(trail);
    if lines.len() > TRAIL_LIMIT {
        let last = lines.skip(lines.len() - TRAIL_KEPT);
        lemma_lines_whole(trail);
        assert forall|i: int, k: int|
            #![trigger last[i][k]]
            0 <= i < last.len() && 0 <= k < last[i].len() implies last[i][k] != '\n' by {
            assert(last[i][k] == lines[lines.len() - TRAIL_KEPT + i][k]);
        }
        lemma_joined_written(last);
        lemma_written_lines(last);
    }
}

/// Keep the trail from growing without bound: the shortened trail, if it has
/// grown too long.
pub fn trim(trail: &str) -> (r: Option<String>)
    ensures
        r.deep_view() == trimmed_trail(trail@),
{
    let lines = text::lines(trail);
    if lines.len() <= TRAIL_LIMIT {
        return None;
    }
    let mut kept: Vec<String> = Vec::new();
    let from = lines.len() - TRAIL_KEPT;
    let mut i: usize = from;
    let ghost all = lines.deep_view();
    while i < lines.len()
        invariant
            from <= i <= lines.len(),
            all == lines.deep_view(),
            kept.deep_view() =~= all.subrange(from as int, i as int),
        decreases lines.len() - i,
    {
        let ghost before = kept.deep_view();
        kept.push(lines[i].clone());
        proof {
            assert(kept.deep_view() =~= before.push(all[i as int]));
        }
        i += 1;
    }
    proof {
        assert(kept.deep_view() =~= all.skip(from as int));
    }
    Some(text::cat2(text::join(&kept, "\n").as_str(), "\n"))
}

} // verus!
