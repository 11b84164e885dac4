//! Reading ASCII art: the text is cut into lines, as `str::lines` cuts it,
//! and each line into its characters.

use vstd::prelude::*;
use crate::text::{chars_of, first_from, lemma_first_from};

verus! {

/// A line without the carriage return that may end it.
pub open spec fn without_cr(line: Seq<char>) -> Seq<char> {
    if line.len() > 0 && line.last() == '\r' {
        line.drop_last()
    } else {
        line
    }
}

/// The lines of a text: the pieces between line feeds, each without a
/// final carriage return; a final line feed does not start another line.
pub open spec fn lines_of(s: Seq<char>) -> Seq<Seq<char>>
    decreases s.len(),
{
    if s.len() == 0 {
        Seq::empty()
    } else {
        let i = first_from(s, '\n', 0);
        if i < 0 || i >= s.len() {
            seq![without_cr(s)]
        } else {
            seq![without_cr(s.subrange(0, i))] + lines_of(s.subrange(i + 1, s.len() as int))
        }
    }
}

/// The plain contents of a grid of characters.
pub open spec fn grid_view(grid: Seq<Vec<char>>) -> Seq<Seq<char>> {
    grid.map_values(|row: Vec<char>| row@)
}

/// Cuts art text into rows of characters, one row per line.
pub fn parse_art(data: &str) -> (grid: Vec<Vec<char>>)
    ensures
        grid_view(grid@) == lines_of(data@),
{
    let cs = chars_of(data);
    let n = cs.len();
    let ghost s = data@;
    let mut grid: Vec<Vec<char>> = Vec::new();
    let mut cur: Vec<char> = Vec::new();
    let mut start: usize = 0;
    let mut i: usize = 0;
    assert(s.subrange(0, n as int) =~= s);
    assert(grid_view(grid@) + lines_of(s) =~= lines_of(s));
    while i < n
        invariant
            cs@ == s,
            n == s.len(),
            start <= i <= n,
            cur@ == s.subrange(start as int, i as int),
            forall|j: int| start <= j < i ==> s[j] != '\n',
            lines_of(s) == grid_view(grid@) + lines_of(s.subrange(start as int, n as int)),
        decreases n - i,
    {
        let c = cs[i];
        if c == '\n' {
            let ghost rest = s.subrange(start as int, n as int);
            proof {
                assert forall|j: int| 0 <= j < i - start implies rest[j] != '\n' by {
                    assert(rest[j] == s[start + j]);
                }
                lemma_first_from(rest, '\n', 0, i - start);
                assert(rest.subrange(0, i - start) =~= cur@);
                assert(rest.subrange(i - start + 1, rest.len() as int) =~= s.subrange(i + 1, n as int));
            }
            let mut line = cur;
            let len = line.len();
            if len > 0 && line[len - 1] == '\r' {
                line.pop();
                assert(line@ =~= without_cr(cur@));
            }
            let ghost before = grid@;
            grid.push(line);
            assert(grid_view(grid@) =~= grid_view(before).push(without_cr(s.subrange(start as int, i as int))));
            assert(lines_of(s) =~= grid_view(grid@) + lines_of(s.subrange(i + 1, n as int)));
            cur = Vec::new();
            start = i + 1;
        } else {
            cur.push(c);
            assert(cur@ =~= s.subrange(start as int, i + 1));
        }
        i = i + 1;
    }
    if start < n {
        let ghost rest = s.subrange(start as int, n as int);
        proof {
            assert forall|j: int| 0 <= j < rest.len() implies rest[j] != '\n' by {
                assert(rest[j] == s[start + j]);
            }
            lemma_first_from(rest, '\n', 0, rest.len() as int);
            assert(rest =~= cur@);
        }
        let mut line = cur;
        let len = line.len();
        if len > 0 && line[len - 1] == '\r' {
            line.pop();
            assert(line@ =~= without_cr(rest));
        }
        let ghost before = grid@;
        grid.push(line);
        assert(grid_view(grid@) =~= grid_view(before).push(without_cr(rest)));
    } else {
        assert(s.subrange(start as int, n as int) =~= Seq::<char>::empty());
    }
    assert(lines_of(s) =~= grid_view(grid@));
    grid
}


/// Lines joined back together, a line feed between each two.
pub open spec fn joined(ls: Seq<Seq<char>>) -> Seq<char>
    decreases ls.len(),
{
    if ls.len() == 0 {
        Seq::empty()
    } else if ls.len() == 1 {
        ls[0]
    } else {
        ls[0] + seq!['\n'] + joined(ls.drop_first())
    }
}

/// Where the first line feed from `from` on is: no line feed before it,
/// and a line feed there unless it is the end.
proof fn lemma_first_newline(s: Seq<char>, from: int)
    requires
        0 <= from <= s.len(),
    ensures
        from <= first_from(s, '\n', from) <= s.len(),
        forall|j: int| from <= j < first_from(s, '\n', from) ==> s[j] != '\n',
        first_from(s, '\n', from) < s.len() ==> s[first_from(s, '\n', from)] == '\n',
    decreases s.len() - from,
{
    if from < s.len() && s[from] != '\n' {
        lemma_first_newline(s, from + 1);
    }
}

/// No line holds a line feed; and for text without carriage returns,
/// joining the lines with line feeds gives the text back, but for the
/// final line feed, which ends the last line rather than starting another.
pub proof fn lemma_lines_rejoin(s: Seq<char>)
    ensures
        forall|k: int, j: int|
            0 <= k < lines_of(s).len() && 0 <= j < lines_of(s)[k].len() ==> #[trigger] lines_of(s)[k][j]
                != '\n',
        (forall|j: int| 0 <= j < s.len() ==> s[j] != '\r') ==> {
            &&& s.len() > 0 && s.last() != '\n' ==> joined(lines_of(s)) == s
            &&& s.len() > 0 && s.last() == '\n' ==> joined(lines_of(s)) + seq!['\n'] == s
        },
    decreases s.len(),
{
    if s.len() > 0 {
        lemma_first_newline(s, 0);
        let i = first_from(s, '\n', 0);
        if i >= s.len() {
            assert(lines_of(s) == seq![without_cr(s)]);
        } else {
            let rest = s.subrange(i + 1, s.len() as int);
            lemma_lines_rejoin(rest);
            let head = s.subrange(0, i);
            assert(lines_of(s) == seq![without_cr(head)] + lines_of(rest));
            assert forall|k: int, j: int|
                0 <= k < lines_of(s).len() && 0 <= j < lines_of(s)[k].len() implies #[trigger] lines_of(
                s,
            )[k][j] != '\n' by {
                if k > 0 {
                    assert(lines_of(s)[k] == lines_of(rest)[k - 1]);
                } else {
                    assert(lines_of(s)[0] == without_cr(head));
                }
            }
            if forall|j: int| 0 <= j < s.len() ==> s[j] != '\r' {
                assert(without_cr(head) == head);
                assert(forall|j: int| 0 <= j < rest.len() ==> rest[j] == s[i + 1 + j]);
                if rest.len() == 0 {
                    assert(lines_of(rest) =~= Seq::<Seq<char>>::empty());
                    assert(lines_of(s) =~= seq![head]);
                    assert(head + seq!['\n'] =~= s);
                } else {
                    assert(lines_of(rest).len() > 0);
                    let ls = lines_of(s);
                    assert(ls.drop_first() =~= lines_of(rest));
                    if rest.last() != '\n' {
                        assert(joined(ls) == head + seq!['\n'] + joined(lines_of(rest)));
                        assert(head + seq!['\n'] + rest =~= s);
                    } else {
                        assert(joined(ls) == head + seq!['\n'] + joined(lines_of(rest)));
                        assert(head + seq!['\n'] + rest =~= s);
                        assert(joined(ls) + seq!['\n'] =~= head + seq!['\n'] + (joined(lines_of(rest)) + seq!['\n']));
                    }
                }
            }
        }
    }
}

} // verus!
