//! What is shown of arguments that hold secrets.
use crate::secret::{shown_items, shown_list, shown_text, REDACTED};
use crate::shell::texts;
use crate::text::decimal;
use crate::tools::ssh_k8s_create_secret::{
    shown_args, shown_entries, shown_texts, SshK8sCreateSecretArgs,
};
use vstd::prelude::*;

verus! {

/// Somewhere in a text a value stands behind its label.
pub open spec fn shows(text: Seq<char>, label: &str, value: Seq<char>) -> bool {
    exists|front: Seq<char>, rest: Seq<char>| text == #[trigger] (front + label@ + value + rest)
}

broadcast proof fn more_text_shows_as_much(
    text: Seq<char>,
    more: Seq<char>,
    label: &str,
    value: Seq<char>,
)
    requires
        shows(text, label, value),
    ensures
        #[trigger] shows(text + more, label, value),
{
    let (front, rest) = choose|front: Seq<char>, rest: Seq<char>|
        text == #[trigger] (front + label@ + value + rest);
    assert(text + more =~= front + label@ + value + (rest + more));
}

broadcast proof fn last_value_is_shown(front: Seq<char>, label: &str, value: Seq<char>)
    ensures
        #[trigger] shows(front + label@ + value, label, value),
{
    assert(front + label@ + value =~= front + label@ + value + Seq::<char>::empty());
}

/// A text that may be absent, as it is shown.
pub open spec fn text_or_none(value: Option<String>) -> Seq<char> {
    match value {
        Some(v) => "Some("@ + shown_text(v@) + ")"@,
        None => "None"@,
    }
}

/// A number that may be absent, as it is shown.
pub open spec fn number_or_none(value: Option<u64>) -> Seq<char> {
    match value {
        Some(n) => "Some("@ + decimal(n as nat) + ")"@,
        None => "None"@,
    }
}

/// What is shown of a request for a secret names every field with its value. Of a secret value it
/// says only that it is there.
pub proof fn shown_request_names_every_field(args: SshK8sCreateSecretArgs)
    ensures
        shows(
            shown_args(args),
            "SshK8sCreateSecretArgs { host: ",
            shown_text(args.host@),
        ),
        shows(
            shown_args(args),
            ", name: ",
            shown_text(args.name@),
        ),
        shows(
            shown_args(args),
            ", secret_type: ",
            text_or_none(args.secret_type),
        ),
        shows(
            shown_args(args),
            ", from_literal: ",
            shown_list(
                Seq::new(
                    args.from_literal@.len(),
                    |i: int|
                        "SecretLiteralEntry { key: "@ + shown_text(args.from_literal@[i].key@)
                            + ", value: "@ + "[REDACTED]"@ + " }"@,
                ),
            ),
        ),
        shows(
            shown_args(args),
            ", from_file: ",
            shown_list(
                Seq::new(args.from_file@.len(), |i: int| shown_text(args.from_file@[i]@)),
            ),
        ),
        shows(
            shown_args(args),
            ", from_env_file: ",
            text_or_none(args.from_env_file),
        ),
        shows(
            shown_args(args),
            ", tls_cert: ",
            text_or_none(args.tls_cert),
        ),
        shows(
            shown_args(args),
            ", tls_key: ",
            text_or_none(args.tls_key),
        ),
        shows(
            shown_args(args),
            ", docker_server: ",
            text_or_none(args.docker_server),
        ),
        shows(
            shown_args(args),
            ", docker_username: ",
            text_or_none(args.docker_username),
        ),
        shows(
            shown_args(args),
            ", docker_password: ",
            if args.docker_password is Some {
                "Some("@ + "[REDACTED]"@ + ")"@
            } else {
                "None"@
            },
        ),
        shows(
            shown_args(args),
            ", docker_email: ",
            text_or_none(args.docker_email),
        ),
        shows(
            shown_args(args),
            ", namespace: ",
            text_or_none(args.namespace),
        ),
        shows(
            shown_args(args),
            ", dry_run: ",
            text_or_none(args.dry_run),
        ),
        shows(
            shown_args(args),
            ", context: ",
            text_or_none(args.context),
        ),
        shows(
            shown_args(args),
            ", kubectl_bin: ",
            text_or_none(args.kubectl_bin),
        ),
        shows(
            shown_args(args),
            ", timeout_seconds: ",
            number_or_none(args.timeout_seconds),
        ),
        shows(
            shown_args(args),
            ", max_output: ",
            number_or_none(args.max_output),
        ),
        shows(
            shown_args(args),
            ", save_output: ",
            text_or_none(args.save_output),
        ),
{
    broadcast use {more_text_shows_as_much, last_value_is_shown};

    let start = "SshK8sCreateSecretArgs { host: "@;
    assert(start =~= Seq::<char>::empty() + start);
    assert(shown_entries(args.from_literal@) =~= Seq::new(
        args.from_literal@.len(),
        |i: int|
            "SecretLiteralEntry { key: "@ + shown_text(args.from_literal@[i].key@) + ", value: "@
                + "[REDACTED]"@ + " }"@,
    ));
    assert(shown_texts(texts(args.from_file@)) =~= Seq::new(
        args.from_file@.len(),
        |i: int| shown_text(args.from_file@[i]@),
    ));
}

/// The items of a list are shown between brackets, in their order, with commas between them.
pub proof fn list_is_shown_in_order(items: Seq<Seq<char>>, more: Seq<char>)
    ensures
        shown_list(seq![]) == "["@ + "]"@,
        shown_list(seq![more]) == "["@ + more + "]"@,
        items.len() > 0 ==> shown_list(items.push(more)) == "["@ + shown_items(items) + ", "@ + more
            + "]"@,
        shown_list(items) == "["@ + shown_items(items) + "]"@,
{
    assert(items.push(more).drop_last() =~= items);
    assert("["@ + shown_items(seq![]) + "]"@ =~= "["@ + "]"@);
    assert("["@ + (shown_items(items) + ", "@ + more) + "]"@ =~= "["@ + shown_items(items) + ", "@
        + more + "]"@);
}

} // verus!
