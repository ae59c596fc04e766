//! AWX API calls, made by `curl` on a configured host.
use crate::error::{checked, denied_because, invalid_request, unless, BridgeError, Refusal};
use crate::shell::{flag, lit, named, render, CommandLine, Piece};
use crate::text::{after_last, decimal, has_prefix, is_digit, start_after_last, starts_with};
use vstd::prelude::*;
use vstd::utf8::encode_utf8;

verus! {

/// The HTTP methods that the API calls use.
#[derive(Debug, Clone, Copy, PartialEq, Eq, Structural)]
pub enum HttpMethod {
    Get,
    Post,
    Patch,
}

impl HttpMethod {
    pub open spec fn text(self) -> &'static str {
        match self {
            HttpMethod::Get => "GET",
            HttpMethod::Post => "POST",
            HttpMethod::Patch => "PATCH",
        }
    }

    /// The method's name on the wire.
    pub fn as_str(self) -> (r: &'static str)
        ensures
            r@ == self.text()@,
    {
        match self {
            HttpMethod::Get => "GET",
            HttpMethod::Post => "POST",
            HttpMethod::Patch => "PATCH",
        }
    }
}

/// A byte that stands for itself in a URL query: a letter, a digit, `-`, `_`, `.` or `~`.
pub open spec fn is_unreserved(b: u8) -> bool {
    (0x30 <= b <= 0x39) || (0x41 <= b <= 0x5a) || (0x61 <= b <= 0x7a) || b == 0x2d || b == 0x2e
        || b == 0x5f || b == 0x7e
}

/// The hexadecimal digit `n`, for `n` below sixteen.
pub open spec fn hex_digit(n: int) -> char {
    if n < 10 {
        (0x30 + n) as char
    } else {
        (0x41 + (n - 10)) as char
    }
}

/// One byte in a URL query.
pub open spec fn encoded_byte(b: u8) -> Seq<char> {
    if is_unreserved(b) {
        seq![b as char]
    } else {
        seq!['%', hex_digit(b as int / 16), hex_digit(b as int % 16)]
    }
}

/// A row of bytes in a URL query.
pub open spec fn encoded_bytes(bytes: Seq<u8>) -> Seq<char>
    decreases bytes.len(),
{
    if bytes.len() == 0 {
        seq![]
    } else {
        encoded_byte(bytes[0]) + encoded_bytes(bytes.skip(1))
    }
}

/// A text in a URL query: percent-encoding of its UTF-8 form.
pub open spec fn percent_encoded(s: Seq<char>) -> Seq<char> {
    encoded_bytes(encode_utf8(s))
}

/// The value of a hexadecimal digit.
pub open spec fn hex_value(c: char) -> int {
    if is_digit(c) {
        c as int - 0x30
    } else {
        c as int - 0x41 + 10
    }
}

/// The bytes that a percent-encoded text stands for.
pub open spec fn decoded_bytes(s: Seq<char>) -> Seq<u8>
    decreases s.len(),
{
    if s.len() == 0 {
        seq![]
    } else if s[0] == '%' && s.len() >= 3 {
        seq![(16 * hex_value(s[1]) + hex_value(s[2])) as u8] + decoded_bytes(s.skip(3))
    } else {
        seq![s[0] as u8] + decoded_bytes(s.skip(1))
    }
}

fn hex_char(n: u8) -> (r: char)
    requires
        n < 16,
    ensures
        r == hex_digit(n as int),
{
    if n < 10 {
        (0x30u8 + n) as char
    } else {
        (0x41u8 + (n - 10)) as char
    }
}

/// Percent-encodes a text for a URL query.
pub fn percent_encode(s: &str) -> (r: String)
    ensures
        r@ == percent_encoded(s@),
{
    let bytes: &[u8] = s.as_bytes();
    let mut out: String = String::new();
    let mut i: usize = 0;
    assert(bytes@.skip(0) =~= bytes@);
    assert(out@ + encoded_bytes(bytes@.skip(0)) =~= encoded_bytes(bytes@));
    while i < bytes.len()
        invariant
            i <= bytes@.len(),
            out@ + encoded_bytes(bytes@.skip(i as int)) == encoded_bytes(bytes@),
        decreases bytes@.len() - i,
    {
        let b: u8 = bytes[i];
        let ghost before = out@;
        let letter: bool = (0x41 <= b && b <= 0x5a) || (0x61 <= b && b <= 0x7a);
        let mark: bool = b == 0x2d || b == 0x2e || b == 0x5f || b == 0x7e;
        if letter || mark || (0x30 <= b && b <= 0x39) {
            out.push(b as char);
        } else {
            out.push('%');
            out.push(hex_char(b / 16));
            out.push(hex_char(b % 16));
        }
        proof {
            assert(out@ =~= before + encoded_byte(b));
            assert(bytes@.skip(i as int).skip(1) =~= bytes@.skip(i + 1));
            assert(out@ + encoded_bytes(bytes@.skip(i + 1)) =~= before + (encoded_byte(b)
                + encoded_bytes(bytes@.skip(i + 1))));
        }
        i += 1;
    }
    assert(out@ =~= out@ + encoded_bytes(bytes@.skip(bytes@.len() as int)));
    out
}

proof fn encoded_bytes_read_back(bytes: Seq<u8>)
    ensures
        decoded_bytes(encoded_bytes(bytes)) == bytes,
    decreases bytes.len(),
{
    if bytes.len() > 0 {
        let b = bytes[0];
        let rest = encoded_bytes(bytes.skip(1));
        let all = encoded_bytes(bytes);
        encoded_bytes_read_back(bytes.skip(1));
        if is_unreserved(b) {
            assert(all[0] == b as char);
            assert(b as char != '%');
            assert(all.skip(1) =~= rest);
            assert(decoded_bytes(all) =~= seq![b] + bytes.skip(1));
        } else {
            assert(all[0] == '%');
            assert(all[1] == hex_digit(b as int / 16));
            assert(all[2] == hex_digit(b as int % 16));
            assert(hex_value(all[1]) == b as int / 16);
            assert(hex_value(all[2]) == b as int % 16);
            assert(all.skip(3) =~= rest);
            assert(decoded_bytes(all) =~= seq![b] + bytes.skip(1));
        }
        assert(seq![b] + bytes.skip(1) =~= bytes);
    } else {
        assert(decoded_bytes(encoded_bytes(bytes)) =~= bytes);
    }
}

/// A server that decodes a percent-encoded text gets the text back, byte for byte.
pub proof fn percent_encoding_reads_back(s: Seq<char>)
    ensures
        decoded_bytes(percent_encoded(s)) == encode_utf8(s),
{
    encoded_bytes_read_back(encode_utf8(s));
}

/// A character that a percent-encoded text can hold.
pub open spec fn is_query_char(c: char) -> bool {
    c == '%' || (c as int <= 0x7e && is_unreserved(c as u8))
}

proof fn encoded_bytes_stay_in_alphabet(bytes: Seq<u8>)
    ensures
        forall|i: int|
            0 <= i < encoded_bytes(bytes).len() ==> is_query_char(
                #[trigger] encoded_bytes(bytes)[i],
            ),
    decreases bytes.len(),
{
    if bytes.len() > 0 {
        encoded_bytes_stay_in_alphabet(bytes.skip(1));
        let head = encoded_byte(bytes[0]);
        let rest = encoded_bytes(bytes.skip(1));
        assert forall|i: int| 0 <= i < encoded_bytes(bytes).len() implies is_query_char(
            #[trigger] encoded_bytes(bytes)[i],
        ) by {
            if i < head.len() {
                assert(encoded_bytes(bytes)[i] == head[i]);
            } else {
                assert(encoded_bytes(bytes)[i] == rest[i - head.len()]);
            }
        }
    }
}

/// A percent-encoded text holds only `%`, letters, digits, `-`, `_`, `.` and `~`: no value can
/// end its parameter or start another one.
pub proof fn percent_encoding_stays_in_alphabet(s: Seq<char>)
    ensures
        forall|i: int|
            0 <= i < percent_encoded(s).len() ==> is_query_char(#[trigger] percent_encoded(s)[i]),
{
    encoded_bytes_stay_in_alphabet(encode_utf8(s));
}

/// The texts of a list of query parameters.
pub open spec fn param_texts(params: Seq<(&str, &str)>) -> Seq<(Seq<char>, Seq<char>)> {
    Seq::new(params.len(), |i: int| (params[i].0@, params[i].1@))
}

/// The query of a URL: empty without parameters, else `?`, and `&` between the parameters.
pub open spec fn query_text(params: Seq<(Seq<char>, Seq<char>)>) -> Seq<char>
    decreases params.len(),
{
    if params.len() == 0 {
        seq![]
    } else {
        query_text(params.drop_last()) + (if params.len() == 1 {
            "?"@
        } else {
            "&"@
        }) + percent_encoded(params.last().0) + "="@ + percent_encoded(params.last().1)
    }
}

fn build_query(params: &[(&str, &str)]) -> (r: String)
    ensures
        r@ == query_text(param_texts(params@)),
{
    let mut out: String = String::new();
    let mut i: usize = 0;
    assert(out@ =~= query_text(param_texts(params@).take(0)));
    while i < params.len()
        invariant
            i <= params@.len(),
            out@ == query_text(param_texts(params@).take(i as int)),
        decreases params@.len() - i,
    {
        let (name, value) = params[i];
        out.append(if i == 0 { "?" } else { "&" });
        out.append(percent_encode(name).as_str());
        out.append("=");
        out.append(percent_encode(value).as_str());
        proof {
            let next = param_texts(params@).take(i + 1);
            assert(next.drop_last() =~= param_texts(params@).take(i as int));
            assert(next.last() == (name@, value@));
        }
        i += 1;
    }
    assert(param_texts(params@).take(params@.len() as int) =~= param_texts(params@));
    out
}

/// What `curl` writes behind the body of a checked call, before it fills in the status.
pub const STATUS_FORMAT: &'static str = "\\nHTTP_STATUS:%{http_code}";

/// What stands before the status on the last line of a checked call's output.
pub const STATUS_MARK: &'static str = "HTTP_STATUS:";

/// One API call.
pub open spec fn api_call(
    url: Seq<char>,
    token: Seq<char>,
    endpoint: Seq<char>,
    method: HttpMethod,
    body: Option<Seq<char>>,
    verify_ssl: bool,
    params: Seq<(Seq<char>, Seq<char>)>,
    timeout: u64,
    with_status: bool,
) -> Seq<Piece> {
    lit("curl -sS --max-time ") + seq![Piece::Lit(decimal(timeout as nat))] + flag(
        !verify_ssl,
        " -k",
    ) + lit(" -X ") + lit(method.text()) + named(" -H ", "Authorization: Bearer "@ + token)
        + named(" -H ", "Content-Type: application/json"@) + (match body {
        Some(b) => named(" -d ", b),
        None => seq![],
    }) + (if with_status {
        named(" -w ", STATUS_FORMAT@)
    } else {
        seq![]
    }) + named(" ", url + endpoint + query_text(params))
}

/// The text of a string slice that may be absent.
pub open spec fn opt_str(s: Option<&str>) -> Option<Seq<char>> {
    match s {
        Some(t) => Some(t@),
        None => None,
    }
}

/// A status of three digits, the first of which is 2.
pub open spec fn is_success(status: Seq<char>) -> bool {
    status.len() == 3 && status[0] == '2' && is_digit(status[1]) && is_digit(status[2])
}

/// `s` without its trailing newlines.
pub open spec fn without_trailing_newlines(s: Seq<char>) -> Seq<char>
    decreases s.len(),
{
    if s.len() > 0 && s.last() == '\n' {
        without_trailing_newlines(s.drop_last())
    } else {
        s
    }
}

pub open spec fn no_status() -> Refusal {
    Refusal::InvalidRequest("AWX API call returned no HTTP status"@)
}

/// What a checked call's output says: its last line holds the HTTP status, what stands before
/// that line is the body. The body is handed on only where the status is a success.
pub open spec fn checked_response(raw: Seq<char>) -> Result<Seq<char>, Refusal> {
    let output = without_trailing_newlines(raw);
    let start = after_last(output, '\n');
    let line = output.skip(start);
    let mark = STATUS_MARK@;
    if start == 0 || !has_prefix(line, mark) {
        Err(no_status())
    } else {
        let status = line.skip(mark.len() as int);
        let body = output.take(start - 1);
        if is_success(status) {
            Ok(body)
        } else {
            Err(Refusal::InvalidRequest("AWX API returned HTTP "@ + status + ": "@ + body))
        }
    }
}

fn trimmed_len(s: &str) -> (r: usize)
    ensures
        r <= s@.len(),
        s@.take(r as int) == without_trailing_newlines(s@),
{
    let mut n: usize = s.unicode_len();
    assert(s@.take(n as int) =~= s@);
    while n > 0
        invariant
            n <= s@.len(),
            without_trailing_newlines(s@.take(n as int)) == without_trailing_newlines(s@),
        decreases n,
    {
        assert(s@.take(n as int).drop_last() =~= s@.take(n - 1));
        if s.get_char(n - 1) != '\n' {
            return n;
        }
        n -= 1;
    }
    n
}

/// Builds AWX API calls and reads their output.
pub struct AwxCommandBuilder;

impl AwxCommandBuilder {
    fn call(
        url: &str,
        token: &str,
        endpoint: &str,
        method: HttpMethod,
        body: Option<&str>,
        verify_ssl: bool,
        params: &[(&str, &str)],
        timeout: u64,
        with_status: bool,
    ) -> (r: String)
        ensures
            r@ == render(
                api_call(
                    url@,
                    token@,
                    endpoint@,
                    method,
                    opt_str(body),
                    verify_ssl,
                    param_texts(params@),
                    timeout,
                    with_status,
                ),
            ),
    {
        let mut bearer: String = "Authorization: Bearer ".to_owned();
        bearer.append(token);
        let mut target: String = url.to_owned();
        target.append(endpoint);
        target.append(build_query(params).as_str());
        let mut cmd = CommandLine::new("curl -sS --max-time ");
        cmd.number(timeout);
        cmd.flag(!verify_ssl, " -k");
        cmd.lit(" -X ");
        cmd.lit(method.as_str());
        cmd.named(" -H ", bearer.as_str());
        cmd.named(" -H ", "Content-Type: application/json");
        if let Some(b) = body {
            cmd.named(" -d ", b);
        }
        if with_status {
            cmd.named(" -w ", STATUS_FORMAT);
        }
        cmd.named(" ", target.as_str());
        assert(cmd@ =~= api_call(
            url@,
            token@,
            endpoint@,
            method,
            opt_str(body),
            verify_ssl,
            param_texts(params@),
            timeout,
            with_status,
        ));
        cmd.into_text()
    }

    /// A call whose output is the response body.
    pub fn build_api_call(
        url: &str,
        token: &str,
        endpoint: &str,
        method: HttpMethod,
        body: Option<&str>,
        verify_ssl: bool,
        params: &[(&str, &str)],
        timeout: u64,
    ) -> (r: String)
        ensures
            r@ == render(
                api_call(
                    url@,
                    token@,
                    endpoint@,
                    method,
                    opt_str(body),
                    verify_ssl,
                    param_texts(params@),
                    timeout,
                    false,
                ),
            ),
    {
        Self::call(url, token, endpoint, method, body, verify_ssl, params, timeout, false)
    }

    /// A call whose output is the response body and, on a line of its own, the HTTP status.
    pub fn build_api_call_checked(
        url: &str,
        token: &str,
        endpoint: &str,
        method: HttpMethod,
        body: Option<&str>,
        verify_ssl: bool,
        params: &[(&str, &str)],
        timeout: u64,
    ) -> (r: String)
        ensures
            r@ == render(
                api_call(
                    url@,
                    token@,
                    endpoint@,
                    method,
                    opt_str(body),
                    verify_ssl,
                    param_texts(params@),
                    timeout,
                    true,
                ),
            ),
    {
        Self::call(url, token, endpoint, method, body, verify_ssl, params, timeout, true)
    }

    /// Refuses the ID 0, which no AWX object has.
    pub fn validate_id(id: u64) -> (r: Result<(), BridgeError>)
        ensures
            checked(r, unless(id > 0, id_complaint())),
    {
        if id > 0 {
            Ok(())
        } else {
            Err(denied_because("AWX resource ID must be a positive integer"))
        }
    }

    /// Takes the output of a checked call apart.
    pub fn parse_checked_response(raw: &str) -> (r: Result<String, BridgeError>)
        ensures
            crate::error::agrees(r, checked_response(raw@)),
    {
        let n: usize = trimmed_len(raw);
        let output: &str = raw.substring_char(0, n);
        assert(output@ =~= without_trailing_newlines(raw@));
        let start: usize = start_after_last(output, '\n');
        let end: usize = output.unicode_len();
        let line: &str = output.substring_char(start, end);
        assert(line@ =~= output@.skip(start as int));
        if start == 0 || !starts_with(line, STATUS_MARK) {
            return Err(invalid_request("AWX API call returned no HTTP status"));
        }
        let mark: usize = STATUS_MARK.unicode_len();
        let line_len: usize = line.unicode_len();
        let status: &str = line.substring_char(mark, line_len);
        let body: &str = output.substring_char(0, start - 1);
        assert(status@ =~= line@.skip(STATUS_MARK@.len() as int));
        assert(body@ =~= output@.take(start - 1));
        if status.unicode_len() == 3 && status.get_char(0) == '2' {
            let a: char = status.get_char(1);
            let b: char = status.get_char(2);
            if '0' <= a && a <= '9' && '0' <= b && b <= '9' {
                return Ok(body.to_owned());
            }
        }
        let mut message: String = "AWX API returned HTTP ".to_owned();
        message.append(status);
        message.append(": ");
        message.append(body);
        Err(BridgeError::McpInvalidRequest(message))
    }
}

/// `s` holds no newline.
pub open spec fn one_line(s: Seq<char>) -> bool {
    forall|i: int| 0 <= i < s.len() ==> #[trigger] s[i] != '\n'
}

proof fn last_line_found(body: Seq<char>, line: Seq<char>)
    requires
        one_line(line),
    ensures
        after_last(body.push('\n') + line, '\n') == body.len() + 1,
    decreases line.len(),
{
    let all = body.push('\n') + line;
    if line.len() == 0 {
        assert(all =~= body.push('\n'));
    } else {
        assert(all.last() == line[line.len() - 1]);
        assert(all.drop_last() =~= body.push('\n') + line.drop_last());
        assert forall|i: int| 0 <= i < line.drop_last().len() implies #[trigger] line.drop_last()[i]
            != '\n' by {
            assert(line.drop_last()[i] == line[i]);
        }
        last_line_found(body, line.drop_last());
    }
}

/// The output of a checked call is taken apart as `curl` put it together, whatever the body
/// holds: a success gives back the body unchanged, any other status gives an error that shows
/// the status and the body.
pub proof fn checked_output_reads_back(body: Seq<char>, status: Seq<char>)
    requires
        status.len() > 0,
        one_line(status),
    ensures
        checked_response(body.push('\n') + STATUS_MARK@ + status) == (if is_success(status) {
            Ok::<Seq<char>, Refusal>(body)
        } else {
            Err(Refusal::InvalidRequest("AWX API returned HTTP "@ + status + ": "@ + body))
        }),
{
    reveal_strlit("HTTP_STATUS:");
    let line = STATUS_MARK@ + status;
    let raw = body.push('\n') + STATUS_MARK@ + status;
    assert(raw =~= body.push('\n') + line);
    assert forall|i: int| 0 <= i < line.len() implies #[trigger] line[i] != '\n' by {
        if i >= STATUS_MARK@.len() {
            assert(line[i] == status[i - STATUS_MARK@.len()]);
        }
    }
    last_line_found(body, line);
    assert(raw.last() == status[status.len() - 1]);
    assert(without_trailing_newlines(raw) == raw);
    assert(raw.skip(body.len() as int + 1) =~= line);
    assert(line.take(STATUS_MARK@.len() as int) =~= STATUS_MARK@);
    assert(line.skip(STATUS_MARK@.len() as int) =~= status);
    assert(raw.take(body.len() as int) =~= body);
}

pub open spec fn id_complaint() -> Seq<char> {
    "AWX resource ID must be a positive integer"@
}

} // verus!
