//! Tables of text: columns that are set apart by blanks, and their tab-separated form.
use crate::shell::texts;
use vstd::prelude::*;

verus! {

/// A table: the headings, and the cells of each row.
#[derive(Debug)]
pub struct ParsedTable {
    pub headers: Vec<String>,
    pub rows: Vec<Vec<String>>,
}

/// The view of a [`ParsedTable`].
pub struct Table {
    pub headers: Seq<Seq<char>>,
    pub rows: Seq<Seq<Seq<char>>>,
}

/// The texts of the cells of several rows.
pub open spec fn row_texts(rows: Seq<Vec<String>>) -> Seq<Seq<Seq<char>>> {
    Seq::new(rows.len(), |i: int| texts(rows[i]@))
}

impl View for ParsedTable {
    type V = Table;

    open spec fn view(&self) -> Table {
        Table { headers: texts(self.headers@), rows: row_texts(self.rows@) }
    }
}

/// `s` without its leading blanks.
pub open spec fn without_leading_blanks(s: Seq<char>) -> Seq<char>
    decreases s.len(),
{
    if s.len() > 0 && s[0] == ' ' {
        without_leading_blanks(s.skip(1))
    } else {
        s
    }
}

/// A cell ends at `i`: there the line ends, or a blank stands before another blank or before the
/// end of the line.
pub open spec fn cell_ends_at(s: Seq<char>, i: int) -> bool {
    i >= s.len() || (s[i] == ' ' && (i + 1 >= s.len() || s[i + 1] == ' '))
}

/// The first place from `i` on at which a cell ends.
pub open spec fn cell_end(s: Seq<char>, i: int) -> int
    decreases s.len() - i,
{
    if cell_ends_at(s, i) {
        i
    } else {
        cell_end(s, i + 1)
    }
}

/// The cells of a line. Two blanks or more set cells apart; one blank belongs to the cell.
pub open spec fn cells(line: Seq<char>) -> Seq<Seq<char>>
    decreases line.len(),
    via cells_decreases
{
    let start = without_leading_blanks(line);
    if start.len() == 0 {
        seq![]
    } else {
        let end = cell_end(start, 0);
        seq![start.take(end)] + cells(start.skip(end))
    }
}

proof fn leading_blanks_shrink(s: Seq<char>)
    ensures
        without_leading_blanks(s).len() <= s.len(),
        without_leading_blanks(s).len() > 0 ==> without_leading_blanks(s)[0] != ' ',
        without_leading_blanks(s) == s.skip(s.len() - without_leading_blanks(s).len()),
    decreases s.len(),
{
    if s.len() > 0 && s[0] == ' ' {
        leading_blanks_shrink(s.skip(1));
        let n = without_leading_blanks(s).len();
        assert(s.skip(1).skip(s.len() - 1 - n) =~= s.skip(s.len() - n));
    } else {
        assert(s.skip(0) =~= s);
    }
}

proof fn cell_end_bounds(s: Seq<char>, i: int)
    requires
        0 <= i <= s.len(),
    ensures
        i <= cell_end(s, i) <= s.len(),
        cell_ends_at(s, cell_end(s, i)),
        forall|j: int| i <= j < cell_end(s, i) ==> !cell_ends_at(s, j),
    decreases s.len() - i,
{
    if !cell_ends_at(s, i) {
        cell_end_bounds(s, i + 1);
    }
}

#[via_fn]
proof fn cells_decreases(line: Seq<char>) {
    let start = without_leading_blanks(line);
    leading_blanks_shrink(line);
    if start.len() > 0 {
        cell_end_bounds(start, 0);
        assert(!cell_ends_at(start, 0));
    }
}

/// The place of the first newline from `i` on, or the end of the text.
pub open spec fn line_end(s: Seq<char>, i: int) -> int
    decreases s.len() - i,
{
    if 0 <= i < s.len() && s[i] != '\n' {
        line_end(s, i + 1)
    } else {
        i
    }
}

proof fn line_end_bounds(s: Seq<char>, i: int)
    requires
        0 <= i <= s.len(),
    ensures
        i <= line_end(s, i) <= s.len(),
    decreases s.len() - i,
{
    if i < s.len() && s[i] != '\n' {
        line_end_bounds(s, i + 1);
    }
}

/// The rows of a text: the cells of each line that has any.
pub open spec fn text_rows(s: Seq<char>) -> Seq<Seq<Seq<char>>>
    decreases s.len(),
    via text_rows_decreases
{
    if s.len() == 0 {
        seq![]
    } else {
        let end = line_end(s, 0);
        let row = cells(s.take(end));
        let rest = if end < s.len() {
            text_rows(s.skip(end + 1))
        } else {
            seq![]
        };
        if row.len() == 0 {
            rest
        } else {
            seq![row] + rest
        }
    }
}

#[via_fn]
proof fn text_rows_decreases(s: Seq<char>) {
    line_end_bounds(s, 0);
}

/// The table that a text stands for: its first row holds the headings. It is no table where it
/// has fewer than two rows, or fewer than two headings.
pub open spec fn parsed(output: Seq<char>) -> Option<Table> {
    let rows = text_rows(output);
    if rows.len() < 2 || rows[0].len() < 2 {
        None
    } else {
        Some(Table { headers: rows[0], rows: rows.skip(1) })
    }
}

fn to_chars(s: &str) -> (r: Vec<char>)
    ensures
        r@ == s@,
{
    let mut out: Vec<char> = Vec::new();
    for c in it: s.chars()
        invariant
            it.seq() == s@,
            out@ == s@.take(it.index() as int),
    {
        out.push(c);
        assert(out@ =~= s@.take(it.index() as int + 1));
    }
    assert(s@.take(s@.len() as int) =~= s@);
    out
}

fn text_between(chars: &Vec<char>, from: usize, to: usize) -> (r: String)
    requires
        from <= to <= chars@.len(),
    ensures
        r@ == chars@.subrange(from as int, to as int),
{
    let mut out: String = String::new();
    let mut i: usize = from;
    while i < to
        invariant
            from <= i <= to <= chars@.len(),
            out@ == chars@.subrange(from as int, i as int),
        decreases to - i,
    {
        out.push(chars[i]);
        assert(out@ =~= chars@.subrange(from as int, i + 1));
        i += 1;
    }
    out
}

fn skip_blanks(chars: &Vec<char>, from: usize, to: usize) -> (r: usize)
    requires
        from <= to <= chars@.len(),
    ensures
        from <= r <= to,
        chars@.subrange(r as int, to as int) == without_leading_blanks(
            chars@.subrange(from as int, to as int),
        ),
        r < to ==> chars@[r as int] != ' ',
{
    let mut i: usize = from;
    while i < to && chars[i] == ' '
        invariant
            from <= i <= to <= chars@.len(),
            without_leading_blanks(chars@.subrange(i as int, to as int))
                == without_leading_blanks(chars@.subrange(from as int, to as int)),
        decreases to - i,
    {
        assert(chars@.subrange(i as int, to as int).skip(1) =~= chars@.subrange(
            i + 1,
            to as int,
        ));
        i += 1;
    }
    i
}

fn find_cell_end(chars: &Vec<char>, from: usize, to: usize) -> (r: usize)
    requires
        from <= to <= chars@.len(),
    ensures
        from <= r <= to,
        r - from == cell_end(chars@.subrange(from as int, to as int), 0),
{
    let ghost cell = chars@.subrange(from as int, to as int);
    let mut i: usize = from;
    while i < to && !(chars[i] == ' ' && (i + 1 >= to || chars[i + 1] == ' '))
        invariant
            from <= i <= to <= chars@.len(),
            cell == chars@.subrange(from as int, to as int),
            cell_end(cell, 0) == cell_end(cell, i - from),
        decreases to - i,
    {
        i += 1;
    }
    i
}

fn split_cells(chars: &Vec<char>, from: usize, to: usize) -> (r: Vec<String>)
    requires
        from <= to <= chars@.len(),
    ensures
        texts(r@) == cells(chars@.subrange(from as int, to as int)),
{
    let ghost line = chars@.subrange(from as int, to as int);
    let mut out: Vec<String> = Vec::new();
    let mut i: usize = skip_blanks(chars, from, to);
    proof {
        cells_ignore_leading_blanks(line);
        assert(texts(out@) + cells(chars@.subrange(i as int, to as int)) =~= cells(line));
    }
    while i < to
        invariant
            from <= i <= to <= chars@.len(),
            line == chars@.subrange(from as int, to as int),
            texts(out@) + cells(chars@.subrange(i as int, to as int)) == cells(line),
            i < to ==> chars@[i as int] != ' ',
        decreases to - i,
    {
        let end: usize = find_cell_end(chars, i, to);
        let ghost rest = chars@.subrange(i as int, to as int);
        let ghost before = texts(out@);
        proof {
            cell_end_bounds(rest, 0);
            assert(!cell_ends_at(rest, 0));
        }
        out.push(text_between(chars, i, end));
        let next: usize = skip_blanks(chars, end, to);
        proof {
            let tail = chars@.subrange(end as int, to as int);
            assert(without_leading_blanks(rest) == rest);
            assert(rest.take(end - i) =~= chars@.subrange(i as int, end as int));
            assert(rest.skip(end - i) =~= tail);
            cells_ignore_leading_blanks(tail);
            assert(texts(out@) =~= before.push(chars@.subrange(i as int, end as int)));
            assert(texts(out@) + cells(chars@.subrange(next as int, to as int)) =~= before + (seq![
                rest.take(end - i),
            ] + cells(tail)));
        }
        i = next;
    }
    assert(texts(out@) =~= texts(out@) + cells(chars@.subrange(i as int, to as int)));
    out
}

proof fn cells_ignore_leading_blanks(line: Seq<char>)
    ensures
        cells(without_leading_blanks(line)) == cells(line),
{
    leading_blanks_shrink(line);
    let start = without_leading_blanks(line);
    assert(without_leading_blanks(start) == start);
}

/// Reads a table whose columns are set apart by blanks.
pub fn parse_columnar_output(output: &str) -> (r: Option<ParsedTable>)
    ensures
        match r {
            Some(table) => parsed(output@) == Some(table@),
            None => parsed(output@) is None,
        },
{
    let chars: Vec<char> = to_chars(output);
    let n: usize = chars.len();
    let mut rows: Vec<Vec<String>> = Vec::new();
    let mut i: usize = 0;
    assert(chars@.skip(0) =~= chars@);
    assert(row_texts(rows@) + text_rows(chars@.skip(0)) =~= text_rows(chars@));
    while i < n
        invariant
            n == chars@.len(),
            i <= n,
            row_texts(rows@) + text_rows(chars@.skip(i as int)) == text_rows(chars@),
        decreases n - i,
    {
        let ghost rest = chars@.skip(i as int);
        let ghost before = row_texts(rows@);
        let mut end: usize = i;
        while end < n && chars[end] != '\n'
            invariant
                n == chars@.len(),
                i <= end <= n,
                rest == chars@.skip(i as int),
                line_end(rest, 0) == line_end(rest, end - i),
            decreases n - end,
        {
            end += 1;
        }
        let row: Vec<String> = split_cells(&chars, i, end);
        let ghost row_cells = texts(row@);
        assert(rest.take(end - i) =~= chars@.subrange(i as int, end as int));
        let empty: bool = row.is_empty();
        if !empty {
            rows.push(row);
            assert(row_texts(rows@) =~= before.push(row_cells));
        }
        let ghost after = row_texts(rows@);
        if end < n {
            proof {
                assert(rest.skip(end - i + 1) =~= chars@.skip(end + 1));
                if empty {
                    assert(row_cells.len() == 0);
                } else {
                    assert(row_cells.len() > 0);
                    assert(after + text_rows(chars@.skip(end + 1)) =~= before + (seq![row_cells]
                        + text_rows(chars@.skip(end + 1))));
                }
            }
            i = end + 1;
        } else {
            proof {
                assert(chars@.skip(n as int) =~= Seq::<char>::empty());
                assert(after + text_rows(chars@.skip(n as int)) =~= before + text_rows(rest));
            }
            i = n;
        }
    }
    assert(chars@.skip(n as int) =~= Seq::<char>::empty());
    assert(row_texts(rows@) =~= text_rows(output@));
    if rows.len() < 2 || rows[0].len() < 2 {
        assert(rows@.len() >= 2 ==> text_rows(output@)[0] == texts(rows@[0]@));
        return None;
    }
    let ghost all = rows@;
    let headers: Vec<String> = rows.remove(0);
    assert(text_rows(output@)[0] == texts(all[0]@));
    assert(row_texts(rows@) =~= text_rows(output@).skip(1));
    Some(ParsedTable { headers, rows })
}

/// The cells of a row with tabs between them.
pub open spec fn tabbed(row: Seq<Seq<char>>) -> Seq<char>
    decreases row.len(),
{
    if row.len() == 0 {
        seq![]
    } else if row.len() == 1 {
        row[0]
    } else {
        tabbed(row.drop_last()).push('\t') + row.last()
    }
}

/// The tab-separated form of a table: the headings and below them the rows, one line each.
pub open spec fn tsv(table: Table) -> Seq<char> {
    tsv_lines(tabbed(table.headers), table.rows)
}

/// `first` and below it the rows, one line each.
pub open spec fn tsv_lines(first: Seq<char>, rows: Seq<Seq<Seq<char>>>) -> Seq<char>
    decreases rows.len(),
{
    if rows.len() == 0 {
        first
    } else {
        tsv_lines(first, rows.drop_last()).push('\n') + tabbed(rows.last())
    }
}

fn tab_row(row: &Vec<String>) -> (r: String)
    ensures
        r@ == tabbed(texts(row@)),
{
    let ghost all = texts(row@);
    let mut out: String = String::new();
    let mut i: usize = 0;
    assert(out@ =~= tabbed(all.take(0)));
    while i < row.len()
        invariant
            i <= row@.len(),
            all == texts(row@),
            out@ == tabbed(all.take(i as int)),
        decreases row@.len() - i,
    {
        if i > 0 {
            out.push('\t');
        }
        out.append(row[i].as_str());
        proof {
            let next = all.take(i + 1);
            assert(next.drop_last() =~= all.take(i as int));
            assert(next.last() == row@[i as int]@);
            if i == 0 {
                assert(next[0] == row@[0]@);
                assert(out@ =~= tabbed(next));
            }
        }
        i += 1;
    }
    assert(all.take(row@.len() as int) =~= all);
    out
}

impl ParsedTable {
    /// Writes the tab-separated form of the table.
    pub fn to_tsv(&self) -> (r: String)
        ensures
            r@ == tsv(self@),
    {
        let mut out: String = tab_row(&self.headers);
        let ghost first = out@;
        let ghost all = row_texts(self.rows@);
        let mut i: usize = 0;
        assert(out@ =~= tsv_lines(first, all.take(0)));
        while i < self.rows.len()
            invariant
                i <= self.rows@.len(),
                all == row_texts(self.rows@),
                first == tabbed(texts(self.headers@)),
                out@ == tsv_lines(first, all.take(i as int)),
            decreases self.rows@.len() - i,
        {
            out.push('\n');
            out.append(tab_row(&self.rows[i]).as_str());
            proof {
                let next = all.take(i + 1);
                assert(next.drop_last() =~= all.take(i as int));
                assert(next.last() == texts(self.rows@[i as int]@));
            }
            i += 1;
        }
        assert(all.take(self.rows@.len() as int) =~= all);
        out
    }
}

/// A cell as it comes out of a line: not empty, no blank at either end, and no two blanks in a row
/// in it.
pub open spec fn tidy(cell: Seq<char>) -> bool {
    &&& cell.len() > 0
    &&& cell[0] != ' '
    &&& cell.last() != ' '
    &&& forall|i: int|
        0 <= i < cell.len() - 1 ==> !(#[trigger] cell[i] == ' ' && cell[i + 1] == ' ')
}

/// Every cell of a line is tidy, whatever the line holds.
pub proof fn cells_are_tidy(line: Seq<char>)
    ensures
        forall|i: int| 0 <= i < cells(line).len() ==> tidy(#[trigger] cells(line)[i]),
    decreases line.len(),
{
    let start = without_leading_blanks(line);
    leading_blanks_shrink(line);
    if start.len() > 0 {
        let end = cell_end(start, 0);
        cell_end_bounds(start, 0);
        assert(!cell_ends_at(start, 0));
        let first = start.take(end);
        let rest = start.skip(end);
        cells_are_tidy(rest);
        assert forall|i: int| 0 <= i < first.len() - 1 implies !(#[trigger] first[i] == ' '
            && first[i + 1] == ' ') by {
            assert(!cell_ends_at(start, i));
        }
        assert(!cell_ends_at(start, end - 1));
        assert(first.last() == start[end - 1]);
        assert forall|i: int| 0 <= i < cells(line).len() implies tidy(
            #[trigger] cells(line)[i],
        ) by {
            if i > 0 {
                assert(cells(line)[i] == cells(rest)[i - 1]);
            } else {
                assert(cells(line)[0] == first);
            }
        }
    }
}

/// `n` blanks.
pub open spec fn blanks(n: nat) -> Seq<char>
    decreases n,
{
    if n == 0 {
        seq![]
    } else {
        seq![' '] + blanks((n - 1) as nat)
    }
}

/// A line in which the cell `i` is followed by two blanks and as many more as `padding` says.
pub open spec fn padded(row: Seq<Seq<char>>, padding: Seq<nat>) -> Seq<char>
    decreases row.len(),
{
    if row.len() == 0 {
        seq![]
    } else {
        row[0] + blanks(padding[0] + 2) + padded(row.skip(1), padding.skip(1))
    }
}

proof fn blanks_are_skipped(n: nat, rest: Seq<char>)
    ensures
        without_leading_blanks(blanks(n) + rest) == without_leading_blanks(rest),
        blanks(n).len() == n,
        forall|i: int| 0 <= i < n ==> #[trigger] blanks(n)[i] == ' ',
    decreases n,
{
    if n == 0 {
        assert(blanks(n) + rest =~= rest);
    } else {
        let fewer = (n - 1) as nat;
        blanks_are_skipped(fewer, rest);
        assert((blanks(n) + rest).skip(1) =~= blanks(fewer) + rest);
        assert forall|i: int| 0 <= i < n implies #[trigger] blanks(n)[i] == ' ' by {
            if i > 0 {
                assert(blanks(n)[i] == blanks(fewer)[i - 1]);
            }
        }
    }
}

proof fn tidy_cell_ends(cell: Seq<char>, rest: Seq<char>, i: int)
    requires
        tidy(cell),
        rest.len() >= 2,
        rest[0] == ' ',
        rest[1] == ' ',
        0 <= i <= cell.len(),
    ensures
        cell_end(cell + rest, i) == cell.len(),
    decreases cell.len() - i,
{
    let all = cell + rest;
    if i < cell.len() {
        if i + 1 < cell.len() {
            assert(all[i + 1] == cell[i + 1]);
            assert(!(cell[i] == ' ' && cell[i + 1] == ' '));
        } else {
            assert(all[i] == cell.last());
        }
        assert(!cell_ends_at(all, i));
        tidy_cell_ends(cell, rest, i + 1);
    } else {
        assert(all[i] == rest[0]);
        assert(all[i + 1] == rest[1]);
    }
}

/// A row whose cells are padded with blanks is read back cell by cell, however wide the padding
/// is.
pub proof fn padded_rows_read_back(row: Seq<Seq<char>>, padding: Seq<nat>)
    requires
        padding.len() == row.len(),
        forall|i: int| 0 <= i < row.len() ==> tidy(#[trigger] row[i]),
    ensures
        cells(padded(row, padding)) == row,
    decreases row.len(),
{
    let line = padded(row, padding);
    if row.len() == 0 {
        assert(cells(line) =~= row);
    } else {
        let first = row[0];
        let gap = blanks(padding[0] + 2);
        let rest = padded(row.skip(1), padding.skip(1));
        assert forall|i: int| 0 <= i < row.skip(1).len() implies tidy(
            #[trigger] row.skip(1)[i],
        ) by {
            assert(row.skip(1)[i] == row[i + 1]);
        }
        padded_rows_read_back(row.skip(1), padding.skip(1));
        blanks_are_skipped(padding[0] + 2, rest);
        assert(tidy(first));
        assert(line =~= first + (gap + rest));
        assert(line[0] == first[0]);
        assert(without_leading_blanks(line) == line);
        tidy_cell_ends(first, gap + rest, 0);
        assert(line.take(first.len() as int) =~= first);
        assert(line.skip(first.len() as int) =~= gap + rest);
        cells_ignore_leading_blanks(gap + rest);
        cells_ignore_leading_blanks(rest);
        assert(cells(line) =~= seq![first] + row.skip(1));
        assert(seq![first] + row.skip(1) =~= row);
    }
}

proof fn lone_cell_ends(cell: Seq<char>, i: int)
    requires
        tidy(cell),
        0 <= i <= cell.len(),
    ensures
        cell_end(cell, i) == cell.len(),
    decreases cell.len() - i,
{
    if i < cell.len() {
        if i + 1 >= cell.len() {
            assert(cell[i] == cell.last());
        } else {
            assert(!(cell[i] == ' ' && cell[i + 1] == ' '));
        }
        assert(!cell_ends_at(cell, i));
        lone_cell_ends(cell, i + 1);
    }
}

proof fn padded_cells_come_first(row: Seq<Seq<char>>, padding: Seq<nat>, rest: Seq<char>)
    requires
        padding.len() == row.len(),
        forall|i: int| 0 <= i < row.len() ==> tidy(#[trigger] row[i]),
    ensures
        cells(padded(row, padding) + rest) == row + cells(rest),
    decreases row.len(),
{
    let line = padded(row, padding) + rest;
    if row.len() == 0 {
        assert(line =~= rest);
        assert(row + cells(rest) =~= cells(rest));
    } else {
        let first = row[0];
        let gap = blanks(padding[0] + 2);
        let tail = padded(row.skip(1), padding.skip(1)) + rest;
        assert forall|i: int| 0 <= i < row.skip(1).len() implies tidy(
            #[trigger] row.skip(1)[i],
        ) by {
            assert(row.skip(1)[i] == row[i + 1]);
        }
        padded_cells_come_first(row.skip(1), padding.skip(1), rest);
        blanks_are_skipped(padding[0] + 2, tail);
        assert(tidy(first));
        assert(line =~= first + (gap + tail));
        assert(line[0] == first[0]);
        assert(without_leading_blanks(line) == line);
        tidy_cell_ends(first, gap + tail, 0);
        assert(line.take(first.len() as int) =~= first);
        assert(line.skip(first.len() as int) =~= gap + tail);
        cells_ignore_leading_blanks(gap + tail);
        cells_ignore_leading_blanks(tail);
        assert(cells(line) =~= seq![first] + (row.skip(1) + cells(rest)));
        assert(seq![first] + (row.skip(1) + cells(rest)) =~= row + cells(rest));
    }
}

/// A line is read back cell by cell however far it is indented, and whether or not blanks follow
/// its last cell.
pub proof fn indented_rows_read_back(
    indent: nat,
    row: Seq<Seq<char>>,
    padding: Seq<nat>,
    last: Seq<char>,
)
    requires
        padding.len() == row.len(),
        forall|i: int| 0 <= i < row.len() ==> tidy(#[trigger] row[i]),
        tidy(last),
    ensures
        cells(blanks(indent) + (padded(row, padding) + last)) == row.push(last),
{
    let line = padded(row, padding) + last;
    blanks_are_skipped(indent, line);
    cells_ignore_leading_blanks(blanks(indent) + line);
    cells_ignore_leading_blanks(line);
    padded_cells_come_first(row, padding, last);
    lone_cell_ends(last, 0);
    assert(without_leading_blanks(last) == last);
    assert(last.take(last.len() as int) =~= last);
    assert(cells(last.skip(last.len() as int)) =~= seq![]);
    assert(cells(last) =~= seq![last]);
    assert(row + seq![last] =~= row.push(last));
}

proof fn line_ends_alike(s: Seq<char>, i: int)
    requires
        0 <= i <= s.len(),
    ensures
        line_end(s.push('\n'), i) == line_end(s, i),
    decreases s.len() - i,
{
    if i < s.len() {
        assert(s.push('\n')[i] == s[i]);
        line_ends_alike(s, i + 1);
    } else {
        assert(s.push('\n')[i] == '\n');
    }
}

/// Empty lines add no rows: neither one in front of a text nor the end of its last line changes
/// what the text holds.
pub proof fn empty_lines_add_no_rows(s: Seq<char>)
    ensures
        text_rows(seq!['\n'] + s) == text_rows(s),
        text_rows(s.push('\n')) == text_rows(s),
    decreases s.len(),
{
    let early = seq!['\n'] + s;
    assert(line_end(early, 0) == 0);
    assert(early.take(0) =~= Seq::<char>::empty());
    assert(cells(early.take(0)) =~= seq![]);
    assert(early.skip(1) =~= s);
    let late = s.push('\n');
    let nothing = Seq::<char>::empty();
    assert(cells(nothing) =~= seq![]);
    assert(text_rows(nothing) =~= seq![]);
    if s.len() == 0 {
        assert(s =~= nothing);
        assert(line_end(late, 0) == 0);
        assert(late.take(0) =~= Seq::<char>::empty());
        assert(late.skip(1) =~= s);
    } else {
        let end = line_end(s, 0);
        line_end_bounds(s, 0);
        line_ends_alike(s, 0);
        assert(late.take(end) =~= s.take(end));
        if end < s.len() {
            assert(late.skip(end + 1) =~= s.skip(end + 1).push('\n'));
            empty_lines_add_no_rows(s.skip(end + 1));
        } else {
            assert(late.skip(end + 1) =~= nothing);
            assert(text_rows(late.skip(end + 1)) =~= seq![]);
        }
    }
    assert(text_rows(late) =~= text_rows(s));
}

} // verus!
