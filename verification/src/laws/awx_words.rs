//! What the AWX tools tell `curl`: the words that a shell reads in their commands.
use crate::awx::{request_command, timeout_or, ApiRequest};
use crate::builders::awx::{query_text, HttpMethod};
use crate::config::AwxConfig;
use crate::laws::words::{
    arg, blank_reads, clean, clean_is_one_word, digits_are_one_word, group_words, name_reads,
    outside, reads, said, switch, text_ends, word, words,
};
use crate::shell::{all_active, group_plain, lit, named, plain, render, Piece};
use crate::text::decimal;
use vstd::prelude::*;

verus! {

/// The name of a method on the wire.
pub open spec fn method_name(method: HttpMethod) -> &'static str {
    match method {
        HttpMethod::Get => "GET",
        HttpMethod::Post => "POST",
        HttpMethod::Patch => "PATCH",
    }
}

proof fn curl_reads()
    ensures
        plain("curl -sS --max-time "@),
        outside("curl -sS --max-time "@),
        clean("GET"@),
        clean("POST"@),
        clean("PATCH"@),
        reads(" -k", seq![word("-k")], false),
        reads(" -X ", seq![word("-X")], true),
        reads(" -H ", seq![word("-H")], true),
        reads(" -d ", seq![word("-d")], true),
        reads(" -w ", seq![word("-w")], true),
        reads(" ", seq![], true),
{
    reveal_strlit("curl -sS --max-time ");
    reveal_strlit("GET");
    reveal_strlit("POST");
    reveal_strlit("PATCH");
    text_ends("curl -sS --max-time ");
    reveal_strlit(" -k");
    reveal_strlit("-k");
    reveal_strlit(" -X ");
    reveal_strlit("-X");
    reveal_strlit(" -H ");
    reveal_strlit("-H");
    reveal_strlit(" -d ");
    reveal_strlit("-d");
    reveal_strlit(" -w ");
    reveal_strlit("-w");
    reveal_strlit(" ");
    name_reads(" -k", "-k", false);
    name_reads(" -X ", "-X", true);
    name_reads(" -H ", "-H", true);
    name_reads(" -d ", "-d", true);
    name_reads(" -w ", "-w", true);
    blank_reads(" ");
}

/// A call is told to `curl` as it is meant: its limit, whether the certificate is checked, its
/// method, the token and the kind of body in its headers, the body and the form of the status
/// where there are any, and the URL with the endpoint and the query.
pub proof fn call_is_told(awx: AwxConfig, request: ApiRequest, with_status: bool)
    ensures
        words(request_command(awx, request, with_status)) == words(
            "curl -sS --max-time "@,
        ).push(
            all_active(
                decimal(
                    match request.timeout {
                        Some(t) => t,
                        None => awx.api_timeout,
                    } as nat,
                ),
            ),
        ) + switch(!awx.verify_ssl, "-k") + seq![word("-X")] + seq![
            word(method_name(request.method)),
        ] + said("-H", "Authorization: Bearer "@ + awx.token@) + said(
            "-H",
            "Content-Type: application/json"@,
        ) + (match request.body {
            Some(b) => said("-d", b),
            None => seq![],
        }) + (if with_status {
            said("-w", "\\nHTTP_STATUS:%{http_code}"@)
        } else {
            seq![]
        }) + seq![arg(awx.url@ + request.endpoint + query_text(request.params))],
{
    broadcast use {group_words, group_plain};

    let limit = timeout_or(request.timeout, awx);
    let d = seq![Piece::Lit(decimal(limit as nat))];
    let start = lit("curl -sS --max-time ");
    curl_reads();
    digits_are_one_word(limit as nat);
    clean_is_one_word(request.method.text()@);
    assert(words(render(start + d)) =~= words("curl -sS --max-time "@).push(
        all_active(decimal(limit as nat)),
    ));
    assert(words(render(named(" ", awx.url@ + request.endpoint + query_text(request.params))))
        =~= seq![arg(awx.url@ + request.endpoint + query_text(request.params))]);
}

} // verus!
