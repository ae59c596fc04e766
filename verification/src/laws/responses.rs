//! How the output of an AWX call is read.
use crate::awx::response;
use crate::builders::awx::{checked_response, is_success, one_line, without_trailing_newlines};
use crate::error::Refusal;
use crate::text::{after_last, decimal, decimal_reads_back, decimal_value};
use vstd::prelude::*;

verus! {

proof fn last_line_is_whole(s: Seq<char>)
    ensures
        0 <= after_last(s, '\n') <= s.len(),
        one_line(s.skip(after_last(s, '\n'))),
        after_last(s, '\n') > 0 ==> s[after_last(s, '\n') - 1] == '\n',
    decreases s.len(),
{
    if s.len() > 0 && s.last() != '\n' {
        let front = s.drop_last();
        last_line_is_whole(front);
        let n = after_last(s, '\n');
        assert forall|i: int| 0 <= i < s.skip(n).len() implies #[trigger] s.skip(n)[i] != '\n' by {
            if i + n < front.len() {
                assert(front.skip(n)[i] == s[i + n]);
            }
        }
        if n > 0 {
            assert(front[n - 1] == s[n - 1]);
        }
    }
}

/// A call that is not checked gives its output as it is; of a checked call the status decides.
pub proof fn only_a_checked_call_asks_for_the_status(raw: Seq<char>)
    ensures
        response(raw, false) == Ok::<Seq<char>, Refusal>(raw),
        response(raw, true) == checked_response(raw),
{
}

/// Newlines behind the output of a checked call change nothing.
pub proof fn final_newlines_change_nothing(raw: Seq<char>)
    ensures
        checked_response(raw.push('\n')) == checked_response(raw),
{
    assert(raw.push('\n').drop_last() =~= raw);
    assert(without_trailing_newlines(raw.push('\n')) == without_trailing_newlines(raw));
}

/// The output of a checked call on a single line holds no status, and is refused for that.
pub proof fn one_line_has_no_status(raw: Seq<char>)
    requires
        one_line(raw),
    ensures
        checked_response(raw) == Err::<Seq<char>, Refusal>(
            Refusal::InvalidRequest("AWX API call returned no HTTP status"@),
        ),
{
    if raw.len() > 0 {
        assert(raw[raw.len() - 1] != '\n');
    }
    assert(without_trailing_newlines(raw) == raw);
    last_line_is_whole(raw);
    let n = after_last(raw, '\n');
    if n > 0 {
        assert(raw[n - 1] == '\n');
    }
}

/// The output of a checked call whose last line does not start with the mark of the status is
/// refused for want of a status, whatever else it holds.
pub proof fn other_last_line_has_no_status(body: Seq<char>, line: Seq<char>)
    requires
        one_line(line),
        line.len() > 0,
        line.len() < "HTTP_STATUS:"@.len() || line.take("HTTP_STATUS:"@.len() as int)
            != "HTTP_STATUS:"@,
    ensures
        checked_response(body.push('\n') + line) == Err::<Seq<char>, Refusal>(
            Refusal::InvalidRequest("AWX API call returned no HTTP status"@),
        ),
{
    let raw = body.push('\n') + line;
    assert(raw.last() == line[line.len() - 1]);
    assert(without_trailing_newlines(raw) == raw);
    last_line_is_whole(raw);
    let n = after_last(raw, '\n');
    let m = body.len() + 1;
    if n < m {
        assert(raw.skip(n)[m - 1 - n] == '\n');
    } else if n > m {
        assert(raw[n - 1] == line[n - 1 - m]);
    }
    assert(raw.skip(n) =~= line);
}

/// The statuses of a success are the numbers from 200 to 299.
pub proof fn successes_are_the_two_hundreds(status: nat)
    ensures
        is_success(decimal(status)) <==> 200 <= status <= 299,
{
    decimal_reads_back(status);
    reveal_with_fuel(decimal, 4);
    reveal_with_fuel(decimal_value, 4);
}

} // verus!
