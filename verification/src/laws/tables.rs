//! What becomes of a table: how it is read, shown and written.
use crate::json::{contents, no_fields, Json};
use crate::laws::words::{arg, group_words, text_ends, words};
use crate::result::{joined_texts, ToolCallResult, ToolContent};
use crate::error::Refusal;
use crate::shell::group_plain;
use crate::table::{
    blanks, cells, line_end, padded, padded_rows_read_back, parsed, tabbed, text_rows, tidy, tsv,
    tsv_lines, Table,
};
use crate::text::upper_case;
use crate::tool::{ArgCheck, StandardTool};
use crate::tools::ssh_env_diff::{summarized, EnvDiffTool, SshEnvDiffArgs};
use crate::tools::ssh_esxi_network_list::{
    all_contents, answers_with, row_fields, shown_rows, EsxiNetworkListTool, SshEsxiNetworkListArgs,
};
use vstd::prelude::*;

verus! {

/// The column `i` is the last one of its heading.
pub open spec fn is_last_of_its_name(headers: Seq<Seq<char>>, i: int) -> bool {
    forall|j: int| i < j < headers.len() ==> headers[j] != headers[i]
}

/// The text of a row in a column, which is empty where the row has no such cell.
pub open spec fn text_in(row: Seq<Seq<char>>, column: int) -> Json {
    Json::Text(
        if column < row.len() {
            row[column]
        } else {
            seq![]
        },
    )
}

/// The object of a row maps each heading to the text of its cell, to an empty text where the row
/// has no such cell, and has no other fields. Where a heading occurs twice the last of its columns
/// counts.
pub proof fn row_maps_headings_to_cells(headers: Seq<Seq<char>>, row: Seq<Seq<char>>)
    ensures
        forall|i: int|
            0 <= i < headers.len() && #[trigger] is_last_of_its_name(headers, i) ==> row_fields(
                headers,
                row,
            ).contains_key(headers[i]) && row_fields(headers, row)[headers[i]] == text_in(row, i),
        forall|name: Seq<char>|
            row_fields(headers, row).contains_key(name) ==> headers.contains(name),
    decreases headers.len(),
{
    if headers.len() > 0 {
        let front = headers.drop_last();
        let n = headers.len() - 1;
        row_maps_headings_to_cells(front, row);
        assert forall|i: int|
            0 <= i < headers.len() && #[trigger] is_last_of_its_name(
                headers,
                i,
            ) implies row_fields(headers, row).contains_key(headers[i]) && row_fields(
            headers,
            row,
        )[headers[i]] == text_in(row, i) by {
            if i < n {
                assert(headers[n] != headers[i]);
                assert(front[i] == headers[i]);
                assert(is_last_of_its_name(front, i)) by {
                    assert forall|j: int| i < j < front.len() implies front[j] != front[i] by {
                        assert(front[j] == headers[j]);
                    }
                }
            } else {
                assert(headers[i] == headers.last());
            }
        }
        assert forall|name: Seq<char>|
            row_fields(headers, row).contains_key(name) implies headers.contains(name) by {
            if name == headers.last() {
                assert(headers[n] == name);
            } else {
                assert(front.contains(name));
                let k = choose|k: int| 0 <= k < front.len() && front[k] == name;
                assert(headers[k] == name);
            }
        }
    }
}

/// In a table whose headings differ, the object of a row maps every heading to the text of its own
/// cell, to an empty text where the row has no such cell, and has no other fields.
pub proof fn row_with_distinct_headings_is_whole(headers: Seq<Seq<char>>, row: Seq<Seq<char>>)
    requires
        forall|i: int, j: int|
            0 <= i < j < headers.len() ==> #[trigger] headers[i] != #[trigger] headers[j],
    ensures
        row_fields(headers, row).dom() == headers.to_set(),
        forall|i: int|
            0 <= i < headers.len() ==> #[trigger] row_fields(headers, row)[headers[i]] == text_in(
                row,
                i,
            ),
{
    row_maps_headings_to_cells(headers, row);
    assert forall|i: int| 0 <= i < headers.len() implies #[trigger] is_last_of_its_name(
        headers,
        i,
    ) by {}
    assert forall|i: int| 0 <= i < headers.len() implies #[trigger] row_fields(
        headers,
        row,
    ).contains_key(headers[i]) by {
        assert(is_last_of_its_name(headers, i));
    }
    assert forall|i: int| 0 <= i < headers.len() implies #[trigger] row_fields(
        headers,
        row,
    )[headers[i]] == text_in(row, i) by {
        assert(is_last_of_its_name(headers, i));
    }
    assert(row_fields(headers, row).dom() =~= headers.to_set());
}

/// The rows whose first cell holds something, in their order.
pub open spec fn with_first_cell(rows: Seq<Seq<Seq<char>>>) -> Seq<Seq<Seq<char>>> {
    rows.filter(|row: Seq<Seq<char>>| row.len() > 0 && row[0].len() > 0)
}

/// The objects of rows, in their order.
pub open spec fn row_objects(headers: Seq<Seq<char>>, rows: Seq<Seq<Seq<char>>>) -> Seq<Json> {
    Seq::new(rows.len(), |i: int| Json::Object(row_fields(headers, rows[i])))
}

/// The rows that are shown are those whose first cell holds something, in their order, and no
/// others.
pub proof fn rows_with_a_first_cell_are_shown(
    headers: Seq<Seq<char>>,
    rows: Seq<Seq<Seq<char>>>,
)
    ensures
        shown_rows(headers, rows) == row_objects(headers, with_first_cell(rows)),
    decreases rows.len(),
{
    reveal(Seq::filter);
    if rows.len() > 0 {
        rows_with_a_first_cell_are_shown(headers, rows.drop_last());
    }
    assert(shown_rows(headers, rows) =~= row_objects(headers, with_first_cell(rows)));
}

/// An answer that shows a table has the table's tab-separated form as its only text, one column
/// for each heading, headed by its upper-case form, the rows that have a first cell, and an action
/// that lists the same host again.
pub proof fn answer_shows_the_table(r: ToolCallResult, table: Table, host: Seq<char>)
    requires
        answers_with(r, table, host),
    ensures
        r.content@.len() == 1,
        r.content@[0] matches ToolContent::Text { text } && text@ == tsv(table),
        r.is_error is None,
        r.app matches Some(app) && {
            &&& app.columns@.len() == table.headers.len()
            &&& forall|i: int|
                0 <= i < table.headers.len() ==> #[trigger] app.columns@[i].key@
                    == table.headers[i] && app.columns@[i].label@ == upper_case(table.headers[i])
            &&& Seq::new(app.rows@.len(), |i: int| contents(app.rows@[i])) == row_objects(
                table.headers,
                with_first_cell(table.rows),
            )
            &&& app.actions@.len() == 1
            &&& app.actions@[0].tool@ == "ssh_esxi_network_list"@
            &&& contents(app.actions@[0].arguments) == Json::Object(
                no_fields().insert("host"@, Json::Text(host)),
            )
        },
{
    rows_with_a_first_cell_are_shown(table.headers, table.rows);
    let app = r.app->0;
    assert(Seq::new(app.rows@.len(), |i: int| contents(app.rows@[i])) =~= all_contents(app.rows@));
    assert forall|i: int| 0 <= i < table.headers.len() implies #[trigger] app.columns@[i].key@
        == table.headers[i] && app.columns@[i].label@ == upper_case(table.headers[i]) by {
        assert(crate::tools::ssh_esxi_network_list::column_shows(
            app.columns@[i],
            table.headers[i],
        ));
    }
}

/// The parts of a text that are set apart by `c`.
pub open spec fn split(s: Seq<char>, c: char) -> Seq<Seq<char>>
    decreases s.len(),
{
    if s.len() == 0 {
        seq![seq![]]
    } else {
        let front = split(s.drop_last(), c);
        if s.last() == c {
            front.push(seq![])
        } else {
            front.drop_last().push(front.last().push(s.last()))
        }
    }
}

/// `s` does not hold `c`.
pub open spec fn without(s: Seq<char>, c: char) -> bool {
    forall|i: int| 0 <= i < s.len() ==> #[trigger] s[i] != c
}

proof fn whole_is_one_part(s: Seq<char>, c: char)
    requires
        without(s, c),
    ensures
        split(s, c) == seq![s],
    decreases s.len(),
{
    if s.len() == 0 {
        assert(s =~= seq![]);
    } else {
        assert forall|i: int| 0 <= i < s.drop_last().len() implies #[trigger] s.drop_last()[i]
            != c by {
            assert(s.drop_last()[i] == s[i]);
        }
        whole_is_one_part(s.drop_last(), c);
        assert(s.drop_last().push(s.last()) =~= s);
        assert(split(s, c) =~= seq![s]);
    }
}

proof fn last_part_is_split_off(front: Seq<char>, part: Seq<char>, c: char)
    requires
        without(part, c),
    ensures
        split(front.push(c) + part, c) == split(front, c).push(part),
    decreases part.len(),
{
    let all = front.push(c) + part;
    if part.len() == 0 {
        assert(all =~= front.push(c));
        assert(all.drop_last() =~= front);
        assert(part =~= seq![]);
    } else {
        let shorter = part.drop_last();
        assert forall|i: int| 0 <= i < shorter.len() implies #[trigger] shorter[i] != c by {
            assert(shorter[i] == part[i]);
        }
        last_part_is_split_off(front, shorter, c);
        assert(all.drop_last() =~= front.push(c) + shorter);
        assert(all.last() == part.last());
        assert(part.last() == part[part.len() - 1]);
        assert(shorter.push(part.last()) =~= part);
        assert(split(all, c) =~= split(front, c).push(part));
    }
}

/// A cell that can stand in a tab-separated table: it holds neither tabs nor newlines.
pub open spec fn fits(cell: Seq<char>) -> bool {
    without(cell, '\t') && without(cell, '\n')
}

/// A row that can stand in a tab-separated table: it has cells, and each of them fits.
pub open spec fn row_fits(row: Seq<Seq<char>>) -> bool {
    row.len() > 0 && forall|i: int| 0 <= i < row.len() ==> fits(#[trigger] row[i])
}

proof fn tabbed_row_splits(row: Seq<Seq<char>>)
    requires
        row_fits(row),
    ensures
        split(tabbed(row), '\t') == row,
        without(tabbed(row), '\n'),
    decreases row.len(),
{
    assert(fits(row[row.len() - 1]));
    if row.len() == 1 {
        whole_is_one_part(row[0], '\t');
        assert(row =~= seq![row[0]]);
    } else {
        let front = row.drop_last();
        assert forall|i: int| 0 <= i < front.len() implies fits(#[trigger] front[i]) by {
            assert(front[i] == row[i]);
        }
        tabbed_row_splits(front);
        last_part_is_split_off(tabbed(front), row.last(), '\t');
        assert(front.push(row.last()) =~= row);
        let all = tabbed(row);
        assert forall|i: int| 0 <= i < all.len() implies #[trigger] all[i] != '\n' by {
            let n = tabbed(front).len();
            if i < n {
                assert(all[i] == tabbed(front)[i]);
            } else if i > n {
                assert(all[i] == row.last()[i - n - 1]);
            }
        }
    }
}

proof fn lines_split(first: Seq<char>, rows: Seq<Seq<Seq<char>>>)
    requires
        without(first, '\n'),
        forall|i: int| 0 <= i < rows.len() ==> row_fits(#[trigger] rows[i]),
    ensures
        split(tsv_lines(first, rows), '\n') == seq![first] + Seq::new(
            rows.len(),
            |i: int| tabbed(rows[i]),
        ),
    decreases rows.len(),
{
    if rows.len() == 0 {
        whole_is_one_part(first, '\n');
        assert(seq![first] + Seq::new(rows.len(), |i: int| tabbed(rows[i])) =~= seq![first]);
    } else {
        let front = rows.drop_last();
        assert forall|i: int| 0 <= i < front.len() implies row_fits(#[trigger] front[i]) by {
            assert(front[i] == rows[i]);
        }
        lines_split(first, front);
        assert(row_fits(rows[rows.len() - 1]));
        tabbed_row_splits(rows.last());
        last_part_is_split_off(tsv_lines(first, front), tabbed(rows.last()), '\n');
        assert((seq![first] + Seq::new(front.len(), |i: int| tabbed(front[i]))).push(
            tabbed(rows.last()),
        ) =~= seq![first] + Seq::new(rows.len(), |i: int| tabbed(rows[i])));
    }
}

/// The tab-separated form of a table has one line for the headings and one for each row, in their
/// order, and each line gives its cells back, in their order, where no cell holds a tab or a
/// newline.
pub proof fn written_table_reads_back(table: Table)
    requires
        row_fits(table.headers),
        forall|i: int| 0 <= i < table.rows.len() ==> row_fits(#[trigger] table.rows[i]),
    ensures
        split(tsv(table), '\n').len() == table.rows.len() + 1,
        split(split(tsv(table), '\n')[0], '\t') == table.headers,
        forall|i: int|
            0 <= i < table.rows.len() ==> split(
                #[trigger] split(tsv(table), '\n')[i + 1],
                '\t',
            ) == table.rows[i],
{
    tabbed_row_splits(table.headers);
    lines_split(tabbed(table.headers), table.rows);
    assert forall|i: int| 0 <= i < table.rows.len() implies split(
        #[trigger] split(tsv(table), '\n')[i + 1],
        '\t',
    ) == table.rows[i] by {
        assert(row_fits(table.rows[i]));
        tabbed_row_splits(table.rows[i]);
    }
}

/// Lines, one below the other, each with its newline.
pub open spec fn below_each_other(lines: Seq<Seq<char>>) -> Seq<char>
    decreases lines.len(),
{
    if lines.len() == 0 {
        seq![]
    } else {
        lines[0].push('\n') + below_each_other(lines.skip(1))
    }
}

/// A row as a listing prints it: it has cells, each of them is tidy, and they hold no newline.
pub open spec fn printable(row: Seq<Seq<char>>) -> bool {
    row.len() > 0 && forall|i: int|
        0 <= i < row.len() ==> tidy(#[trigger] row[i]) && without(row[i], '\n')
}

/// The lines of rows, padded with blanks.
pub open spec fn padded_lines(rows: Seq<Seq<Seq<char>>>, padding: Seq<Seq<nat>>) -> Seq<
    Seq<char>,
> {
    Seq::new(rows.len(), |i: int| padded(rows[i], padding[i]))
}

proof fn blanks_hold_no_newline(n: nat)
    ensures
        without(blanks(n), '\n'),
    decreases n,
{
    if n > 0 {
        blanks_hold_no_newline((n - 1) as nat);
        let rest = blanks((n - 1) as nat);
        assert forall|i: int| 0 <= i < blanks(n).len() implies #[trigger] blanks(n)[i] != '\n' by {
            if i > 0 {
                assert(blanks(n)[i] == rest[i - 1]);
            }
        }
    }
}

proof fn padded_holds_no_newline(row: Seq<Seq<char>>, padding: Seq<nat>)
    requires
        forall|i: int| 0 <= i < row.len() ==> without(#[trigger] row[i], '\n'),
    ensures
        without(padded(row, padding), '\n'),
    decreases row.len(),
{
    if row.len() > 0 {
        let rest = padded(row.skip(1), padding.skip(1));
        let gap = blanks(padding[0] + 2);
        assert forall|i: int| 0 <= i < row.skip(1).len() implies without(
            #[trigger] row.skip(1)[i],
            '\n',
        ) by {
            assert(row.skip(1)[i] == row[i + 1]);
        }
        padded_holds_no_newline(row.skip(1), padding.skip(1));
        blanks_hold_no_newline(padding[0] + 2);
        assert(without(row[0], '\n'));
        let all = padded(row, padding);
        assert forall|i: int| 0 <= i < all.len() implies #[trigger] all[i] != '\n' by {
            if i < row[0].len() {
                assert(all[i] == row[0][i]);
            } else if i < row[0].len() + gap.len() {
                assert(all[i] == gap[i - row[0].len()]);
            } else {
                assert(all[i] == rest[i - row[0].len() - gap.len()]);
            }
        }
    }
}

proof fn line_is_found(line: Seq<char>, rest: Seq<char>, i: int)
    requires
        without(line, '\n'),
        0 <= i <= line.len(),
    ensures
        line_end(line.push('\n') + rest, i) == line.len(),
    decreases line.len() - i,
{
    let all = line.push('\n') + rest;
    if i < line.len() {
        assert(all[i] == line[i]);
        line_is_found(line, rest, i + 1);
    } else {
        assert(all[i] == '\n');
    }
}

proof fn printed_rows_read_back(rows: Seq<Seq<Seq<char>>>, padding: Seq<Seq<nat>>)
    requires
        padding.len() == rows.len(),
        forall|i: int|
            0 <= i < rows.len() ==> printable(#[trigger] rows[i]) && padding[i].len()
                == rows[i].len(),
    ensures
        text_rows(below_each_other(padded_lines(rows, padding))) == rows,
    decreases rows.len(),
{
    let lines = padded_lines(rows, padding);
    let all = below_each_other(lines);
    if rows.len() == 0 {
        assert(text_rows(all) =~= rows);
    } else {
        let rest_rows = rows.skip(1);
        let rest_padding = padding.skip(1);
        assert forall|i: int| 0 <= i < rest_rows.len() implies printable(#[trigger] rest_rows[i])
            && rest_padding[i].len() == rest_rows[i].len() by {
            assert(rest_rows[i] == rows[i + 1]);
        }
        printed_rows_read_back(rest_rows, rest_padding);
        assert(lines.skip(1) =~= padded_lines(rest_rows, rest_padding));
        let rest = below_each_other(lines.skip(1));
        let line = padded(rows[0], padding[0]);
        assert(printable(rows[0]));
        assert forall|i: int| 0 <= i < rows[0].len() implies without(
            #[trigger] rows[0][i],
            '\n',
        ) by {}
        padded_holds_no_newline(rows[0], padding[0]);
        line_is_found(line, rest, 0);
        padded_rows_read_back(rows[0], padding[0]);
        assert(all == line.push('\n') + rest);
        assert(all.take(line.len() as int) =~= line);
        assert(all.skip(line.len() as int + 1) =~= rest);
        assert(cells(line) == rows[0]);
        if rest.len() == 0 {
            assert(text_rows(rest) =~= rest_rows);
        }
        assert(text_rows(all) =~= seq![rows[0]] + rest_rows);
        assert(seq![rows[0]] + rest_rows =~= rows);
    }
}

/// A listing is read back as it was printed, however its columns are padded: the first row gives
/// the headings and the others the rows. It is no table exactly where it has fewer than two rows
/// or fewer than two headings.
pub proof fn printed_table_reads_back(rows: Seq<Seq<Seq<char>>>, padding: Seq<Seq<nat>>)
    requires
        padding.len() == rows.len(),
        forall|i: int|
            0 <= i < rows.len() ==> printable(#[trigger] rows[i]) && padding[i].len()
                == rows[i].len(),
    ensures
        parsed(below_each_other(padded_lines(rows, padding))) == (if rows.len() >= 2
            && rows[0].len() >= 2 {
            Some(Table { headers: rows[0], rows: rows.skip(1) })
        } else {
            None
        }),
{
    printed_rows_read_back(rows, padding);
}

/// The part of the network that is asked for is listed, and all of it where none is named.
pub proof fn asked_part_of_the_network_is_listed(args: SshEsxiNetworkListArgs)
    ensures
        EsxiNetworkListTool::refusal(args) is None <==> (args.component matches Some(c) ==> (c@
            == "interface"@ || c@ == "vswitch"@ || c@ == "nic"@ || c@ == "all"@)),
        EsxiNetworkListTool::refusal(args) is None ==> EsxiNetworkListTool::command(args) == Ok::<
            Seq<char>,
            Refusal,
        >(
            match args.component {
                Some(c) => if c@ == "interface"@ {
                    "esxcli network ip interface list"@
                } else if c@ == "vswitch"@ {
                    "esxcli network vswitch standard list"@
                } else if c@ == "nic"@ {
                    "esxcli network nic list"@
                } else {
                    "esxcli network ip interface list; esxcli network vswitch standard list; esxcli network nic list"@
                },
                None => "esxcli network ip interface list; esxcli network vswitch standard list; esxcli network nic list"@,
            },
        ),
{
}

/// The instructions for a comparison are printed word for word, as one word to the shell.
pub proof fn diff_instruction_is_echoed(args: SshEnvDiffArgs)
    ensures
        EnvDiffTool::command(args) matches Ok(text) && words(text) == words("echo "@).push(
            arg(
                "To compare two hosts: run ssh_env_snapshot on each host, save outputs to local files with save_output, and compare the files with a local diff."@,
            ),
        ),
{
    broadcast use {group_words, group_plain};

    reveal_strlit("echo ");
    text_ends("echo ");
}

/// The texts of two parts of an answer are joined in their order.
pub proof fn texts_are_joined_in_order(a: Seq<ToolContent>, b: Seq<ToolContent>)
    ensures
        joined_texts(a + b) == joined_texts(a) + joined_texts(b),
    decreases b.len(),
{
    if b.len() == 0 {
        assert(a + b =~= a);
        assert(joined_texts(a) + joined_texts(b) =~= joined_texts(a));
    } else {
        texts_are_joined_in_order(a, b.drop_last());
        assert((a + b).drop_last() =~= a + b.drop_last());
        assert((a + b).last() == b.last());
        assert(joined_texts(a + b) =~= joined_texts(a) + joined_texts(b));
    }
}

/// What is no text adds nothing to the text of an answer.
pub proof fn images_add_no_text(content: Seq<ToolContent>, data: String, mime_type: String)
    ensures
        joined_texts(content.push(ToolContent::Image { data, mime_type })) == joined_texts(content),
{
    let all = content.push(ToolContent::Image { data, mime_type });
    assert(all.drop_last() =~= content);
    assert(joined_texts(all) =~= joined_texts(content));
}

/// A summary is added below the whole text of an answer, which stays as it is, under a heading
/// that starts on a line of its own.
pub proof fn summary_stands_below_the_text(text: String, summary: Seq<char>)
    ensures
        summarized(seq![ToolContent::Text { text }], summary) == text@ + (if text@.len() > 0
            && text@[text@.len() - 1] == '\n' {
            seq![]
        } else {
            seq!['\n']
        }) + "\n=== LLM SUMMARY ===\n"@ + summary,
{
    let content = seq![ToolContent::Text { text }];
    reveal_with_fuel(joined_texts, 2);
    assert(content.drop_last() =~= seq![]);
    assert(joined_texts(content) =~= text@);
    assert(summarized(content, summary) =~= text@ + (if text@.len() > 0 && text@[text@.len() - 1]
        == '\n' {
        seq![]
    } else {
        seq!['\n']
    }) + "\n=== LLM SUMMARY ===\n"@ + summary);
}

} // verus!
