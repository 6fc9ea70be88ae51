use vstd::prelude::*;

use crate::acquire::names_of;
use crate::text::{first_index, lemma_first_index, lemma_no_index, string_of};

verus! {

/// A line without the `\r` that ends it, if any.
pub open spec fn strip_cr(l: Seq<char>) -> Seq<char> {
    if l.len() > 0 && l.last() == '\r' {
        l.drop_last()
    } else {
        l
    }
}

/// The lines of a text: split at each `\n`, each without a final `\r`; a final `\n`
/// starts no further line.
pub open spec fn lines_of(s: Seq<char>) -> Seq<Seq<char>>
    decreases s.len(),
{
    if s.len() == 0 {
        Seq::empty()
    } else {
        match first_index(s, '\n') {
            Some(i) => if 0 <= i < s.len() {
                seq![strip_cr(s.subrange(0, i))] + lines_of(s.subrange(i + 1, s.len() as int))
            } else {
                seq![strip_cr(s)]
            },
            None => seq![strip_cr(s)],
        }
    }
}

/// `s` without leading spaces.
pub open spec fn trim_start(s: Seq<char>) -> Seq<char>
    decreases s.len(),
{
    if s.len() > 0 && s[0] == ' ' {
        trim_start(s.drop_first())
    } else {
        s
    }
}

/// `s` without trailing spaces.
pub open spec fn trim_end(s: Seq<char>) -> Seq<char>
    decreases s.len(),
{
    if s.len() > 0 && s.last() == ' ' {
        trim_end(s.drop_last())
    } else {
        s
    }
}

/// Where each of the twelve columns of the station list starts.
pub open spec fn column_start(k: int) -> int {
    seq![0int, 8, 14, 55, 63, 71, 80, 90, 105, 109, 120, 129][k]
}

/// Where each of the twelve columns of the station list ends.
pub open spec fn column_end(k: int) -> int {
    seq![8int, 14, 55, 63, 71, 80, 90, 105, 109, 120, 129, 135][k]
}

pub open spec fn clip(n: int, len: int) -> int {
    if n < len {
        n
    } else {
        len
    }
}

/// Column `k` of a line: its characters within the column, without surrounding spaces.
pub open spec fn column_of(line: Seq<char>, k: int) -> Seq<char> {
    trim_end(
        trim_start(
            line.subrange(clip(column_start(k), line.len() as int), clip(column_end(k), line.len() as int)),
        ),
    )
}

/// The bureau's fixed-width table of past and present weather stations, read one row at
/// a time after its five header lines.
pub struct StationsTable {
    lines: Vec<String>,
    next_line: usize,
}

impl StationsTable {
    pub closed spec fn spec_lines(&self) -> Seq<Seq<char>> {
        names_of(self.lines@)
    }

    pub closed spec fn spec_next_line(&self) -> int {
        self.next_line as int
    }

    /// A reader of `station_list`, placed after its header.
    pub fn new(station_list: &str) -> (r: Self)
        ensures
            r.spec_lines() == lines_of(station_list@),
            r.spec_next_line() == if lines_of(station_list@).len() < 5 {
                lines_of(station_list@).len() as int
            } else {
                5
            },
    {
        let lines = split_lines(station_list);
        let next_line = if lines.len() < 5 {
            lines.len()
        } else {
            5
        };
        StationsTable { lines, next_line }
    }

    /// The twelve columns of the next row; `None` at the end of the table, which an
    /// empty line also marks.
    pub fn next_row(&mut self) -> (r: Option<Vec<String>>)
        ensures
            final(self).spec_lines() == old(self).spec_lines(),
            ({
                let lines = old(self).spec_lines();
                let i = old(self).spec_next_line();
                if 0 <= i < lines.len() {
                    &&& final(self).spec_next_line() == i + 1
                    &&& if lines[i].len() == 0 {
                        r is None
                    } else {
                        &&& r is Some
                        &&& r->0@.len() == 12
                        &&& forall|k: int| 0 <= k < 12 ==> (#[trigger] r->0@[k])@ == column_of(lines[i], k)
                    }
                } else {
                    r is None && final(self).spec_next_line() == i
                }
            }),
    {
        if self.next_line >= self.lines.len() {
            return None;
        }
        let i = self.next_line;
        self.next_line = i + 1;
        let line = self.lines[i].as_str();
        let n = line.unicode_len();
        if n == 0 {
            return None;
        }
        let starts: [usize; 12] = [0, 8, 14, 55, 63, 71, 80, 90, 105, 109, 120, 129];
        let ends: [usize; 12] = [8, 14, 55, 63, 71, 80, 90, 105, 109, 120, 129, 135];
        let mut columns: Vec<String> = Vec::new();
        let mut k: usize = 0;
        while k < 12
            invariant
                k <= 12,
                n == line@.len(),
                starts@ == seq![0usize, 8, 14, 55, 63, 71, 80, 90, 105, 109, 120, 129],
                ends@ == seq![8usize, 14, 55, 63, 71, 80, 90, 105, 109, 120, 129, 135],
                columns@.len() == k,
                forall|j: int| 0 <= j < k ==> (#[trigger] columns@[j])@ == column_of(line@, j),
            decreases 12 - k,
        {
            let from = if starts[k] < n {
                starts[k]
            } else {
                n
            };
            let to = if ends[k] < n {
                ends[k]
            } else {
                n
            };
            assert(column_start(k as int) == starts@[k as int]);
            assert(column_end(k as int) == ends@[k as int]);
            let column = trim_spaces(line, from, to);
            columns.push(column);
            k = k + 1;
        }
        Some(columns)
    }
}

/// `s[from..to]` without surrounding spaces.
fn trim_spaces(s: &str, from: usize, to: usize) -> (r: String)
    requires
        from <= to <= s@.len(),
    ensures
        r@ == trim_end(trim_start(s@.subrange(from as int, to as int))),
{
    let mut a: usize = from;
    while a < to && s.get_char(a) == ' '
        invariant
            from <= a <= to <= s@.len(),
            trim_start(s@.subrange(from as int, to as int)) == trim_start(s@.subrange(a as int, to as int)),
        decreases to - a,
    {
        assert(s@.subrange(a as int, to as int).drop_first() =~= s@.subrange(a + 1, to as int));
        a = a + 1;
    }
    assert(trim_start(s@.subrange(a as int, to as int)) == s@.subrange(a as int, to as int));
    let mut b: usize = to;
    while b > a && s.get_char(b - 1) == ' '
        invariant
            from <= a <= b <= to <= s@.len(),
            trim_end(s@.subrange(a as int, to as int)) == trim_end(s@.subrange(a as int, b as int)),
        decreases b - a,
    {
        assert(s@.subrange(a as int, b as int).drop_last() =~= s@.subrange(a as int, b - 1));
        b = b - 1;
    }
    assert(trim_end(s@.subrange(a as int, b as int)) == s@.subrange(a as int, b as int));
    string_of(s.substring_char(a, b))
}

/// The lines of a text, as `str::lines` splits them.
pub fn split_lines(s: &str) -> (r: Vec<String>)
    ensures
        names_of(r@) == lines_of(s@),
{
    let n = s.unicode_len();
    let mut out: Vec<String> = Vec::new();
    let mut pos: usize = 0;
    assert(s@.subrange(0, n as int) =~= s@);
    assert(names_of(out@) =~= Seq::<Seq<char>>::empty());
    while pos < n
        invariant
            n == s@.len(),
            pos <= n,
            lines_of(s@) == names_of(out@) + lines_of(s@.subrange(pos as int, n as int)),
        decreases n - pos,
    {
        let ghost rest = s@.subrange(pos as int, n as int);
        let mut e: usize = pos;
        while e < n && s.get_char(e) != '\n'
            invariant
                pos <= e <= n,
                n == s@.len(),
                forall|j: int| pos <= j < e ==> s@[j] != '\n',
            decreases n - e,
        {
            e = e + 1;
        }
        let line = strip_line(s, pos, e);
        let ghost before = names_of(out@);
        out.push(line);
        assert(names_of(out@) =~= before.push(strip_cr(s@.subrange(pos as int, e as int))));
        if e == n {
            proof {
                lemma_no_index(rest, '\n');
                assert(rest =~= s@.subrange(pos as int, e as int));
                assert(s@.subrange(n as int, n as int) =~= Seq::<char>::empty());
                assert(names_of(out@) + lines_of(s@.subrange(n as int, n as int)) =~= names_of(out@));
            }
            pos = n;
        } else {
            proof {
                lemma_first_index(rest, '\n', e - pos);
                assert(rest.subrange(0, e - pos) =~= s@.subrange(pos as int, e as int));
                assert(rest.subrange(e - pos + 1, rest.len() as int) =~= s@.subrange(e + 1, n as int));
                assert(before + lines_of(rest) =~= names_of(out@) + lines_of(s@.subrange(e + 1, n as int)));
            }
            pos = e + 1;
        }
    }
    assert(s@.subrange(pos as int, n as int) =~= Seq::<char>::empty());
    assert(names_of(out@) + Seq::<Seq<char>>::empty() =~= names_of(out@));
    out
}

/// `s[from..to]` without a final `\r`.
fn strip_line(s: &str, from: usize, to: usize) -> (r: String)
    requires
        from <= to <= s@.len(),
    ensures
        r@ == strip_cr(s@.subrange(from as int, to as int)),
{
    if to > from && s.get_char(to - 1) == '\r' {
        assert(s@.subrange(from as int, to as int).drop_last() =~= s@.subrange(from as int, to - 1));
        string_of(s.substring_char(from, to - 1))
    } else {
        string_of(s.substring_char(from, to))
    }
}

} // verus!
