//! What is known of values that the rules accept.
use crate::builders::crictl::{rmi_command, valid_container_id, ID_EXTRA};
use crate::builders::helm::{valid_repo_name, REPO_NAME_EXTRA};
use crate::builders::k3s::{
    digits_end, upgrade_command, valid_channel, valid_server_ip, valid_snapshot_name, valid_version,
    INSTALLER,
};
use crate::shell::{inert, is_special, lit, opt_text, option, render, render_joins, Piece};
use crate::text::{base_name, begins_with, has_prefix, is_digit, is_word_char};
use crate::tool::StandardTool;
use crate::tools::ssh_helm_diff::{HelmDiffTool, SshHelmDiffArgs};
use crate::tools::ssh_k3s_killall::{K3sKillallTool, SshK3sKillallArgs};
use crate::tools::ssh_k3s_uninstall::{K3sUninstallTool, SshK3sUninstallArgs};
use crate::tools::ssh_k8s_create_token::{K8sCreateTokenTool, SshK8sCreateTokenArgs};
use vstd::prelude::*;

verus! {

/// A container ID that is accepted is not taken for an option and has no meaning to the shell.
pub proof fn container_id_is_inert(id: Seq<char>)
    requires
        valid_container_id(id),
    ensures
        inert(id),
        !begins_with(id, '-'),
{
    reveal_strlit("-_.:/@");
    assert forall|i: int| 0 <= i < id.len() implies !is_special(#[trigger] id[i]) by {
        assert(is_word_char(id[i], ID_EXTRA@));
    }
}

/// A repository name that is accepted is not taken for an option and has no meaning to the shell.
pub proof fn repo_name_is_inert(name: Seq<char>)
    requires
        valid_repo_name(name),
    ensures
        inert(name),
        !begins_with(name, '-'),
{
    reveal_strlit("-_.");
    assert forall|i: int| 0 <= i < name.len() implies !is_special(#[trigger] name[i]) by {
        assert(is_word_char(name[i], REPO_NAME_EXTRA@));
    }
}

/// A snapshot name that is accepted is not taken for an option and has no meaning to the shell.
pub proof fn snapshot_name_is_inert(name: Seq<char>)
    requires
        valid_snapshot_name(name),
    ensures
        inert(name),
        !begins_with(name, '-'),
{
    reveal_strlit("._-");
    assert forall|i: int| 0 <= i < name.len() implies !is_special(#[trigger] name[i]) by {
        assert(is_word_char(name[i], "._-"@));
    }
}

/// A server address that is accepted stays one piece of the rule by which it replaces another
/// address: it holds no character with a meaning to `sed` on that side of a rule.
pub proof fn server_ip_is_inert(ip: Seq<char>)
    requires
        valid_server_ip(ip),
    ensures
        inert(ip),
        forall|i: int|
            0 <= i < ip.len() ==> #[trigger] ip[i] != '/' && ip[i] != '&' && ip[i] != '\\',
{
    reveal_strlit(".-");
    assert forall|i: int| 0 <= i < ip.len() implies !is_special(#[trigger] ip[i]) && ip[i] != '/'
        by {
        assert(is_word_char(ip[i], ".-"@));
    }
    assert forall|i: int| 0 <= i < ip.len() implies #[trigger] ip[i] != '/' && ip[i] != '&' && ip[i]
        != '\\' by {
        assert(!is_special(ip[i]));
    }
}

proof fn digits_up_to_end(s: Seq<char>, from: int)
    requires
        0 <= from <= s.len(),
    ensures
        from <= digits_end(s, from) <= s.len(),
        forall|i: int| from <= i < digits_end(s, from) ==> is_digit(#[trigger] s[i]),
    decreases s.len() - from,
{
    if from < s.len() && is_digit(s[from]) {
        digits_up_to_end(s, from + 1);
    }
}

/// A version that is accepted has no meaning to the shell.
pub proof fn version_is_inert(version: Seq<char>)
    requires
        valid_version(version),
    ensures
        inert(version),
{
    reveal_strlit(".+-");
    let minor = digits_end(version, 1) + 1;
    let patch = digits_end(version, minor) + 1;
    let end = digits_end(version, patch);
    digits_up_to_end(version, 1);
    digits_up_to_end(version, minor);
    digits_up_to_end(version, patch);
    assert forall|i: int| 0 <= i < version.len() implies !is_special(#[trigger] version[i]) by {
        if i > end {
            let suffix = version.skip(end + 1);
            assert(suffix[i - end - 1] == version[i]);
            assert(is_word_char(suffix[i - end - 1], ".+-"@));
        } else if i == end {
            assert(version[end] == '+' || version[end] == '-');
        } else if i >= patch {
            assert(is_digit(version[i]));
        } else if i == patch - 1 {
            assert(version[i] == '.');
        } else if i >= minor {
            assert(is_digit(version[i]));
        } else if i == minor - 1 {
            assert(version[i] == '.');
        } else if i >= 1 {
            assert(is_digit(version[i]));
        }
    }
}

/// The name of a release channel is never accepted as a version: an upgrade is always pinned.
pub proof fn channels_are_no_versions(channel: Seq<char>)
    requires
        valid_channel(channel),
    ensures
        !valid_version(channel),
{
    reveal_strlit("stable");
    reveal_strlit("latest");
    reveal_strlit("testing");
}

/// Every upgrade runs the installer of the one fixed address: the command starts with it
/// whatever the version and the channel are.
pub proof fn upgrade_uses_the_fixed_installer(version: Seq<char>, channel: Option<String>)
    ensures
        has_prefix(render(upgrade_command(version, channel)), INSTALLER@),
{
    let head = lit(INSTALLER);
    let rest = seq![Piece::Arg(version)] + option(" INSTALL_K3S_CHANNEL=", opt_text(channel)) + lit(
        " sh -",
    );
    assert(upgrade_command(version, channel) =~= head + rest);
    render_joins(head, rest);
    assert(head.drop_last() =~= Seq::<Piece>::empty());
    assert(render(head.drop_last()) =~= Seq::<char>::empty());
    assert(render(head) =~= INSTALLER@);
    assert((INSTALLER@ + render(rest)).take(INSTALLER@.len() as int) =~= INSTALLER@);
}

/// The killall tool runs no script but the killall script: one that the caller names has an
/// absolute path and goes by that script's name.
pub proof fn killall_runs_only_its_script(args: SshK3sKillallArgs)
    requires
        K3sKillallTool::command(args) is Ok,
    ensures
        args.script_path matches Some(p) ==> begins_with(p@, '/') && base_name(p@)
            == "k3s-killall.sh"@,
{
}

/// The uninstall tool runs no script but an uninstaller: one that the caller names has an
/// absolute path and goes by the name of an uninstaller.
pub proof fn uninstall_runs_only_an_uninstaller(args: SshK3sUninstallArgs)
    requires
        K3sUninstallTool::command(args) is Ok,
    ensures
        args.script_path matches Some(p) ==> begins_with(p@, '/') && (base_name(p@)
            == "k3s-uninstall.sh"@ || base_name(p@) == "k3s-agent-uninstall.sh"@),
{
}

/// A token that is issued for an object names it in full: a kind comes with a name, and a name
/// with a kind.
pub proof fn bound_object_is_named_in_full(args: SshK8sCreateTokenArgs)
    requires
        K8sCreateTokenTool::command(args) is Ok,
    ensures
        args.bound_object_kind is Some <==> args.bound_object_name is Some,
{
}

/// A preview of an upgrade is made only for a chart.
pub proof fn upgrade_preview_has_a_chart(args: SshHelmDiffArgs)
    requires
        HelmDiffTool::command(args) is Ok,
        args.subcommand@ == "upgrade"@,
    ensures
        args.chart is Some,
{
}

/// Images are removed one by one or pruned, never both, and pruning is never asked for by the
/// name of an image: a name that is accepted is not taken for an option.
pub proof fn images_are_pruned_only_on_request(
    bin: Option<String>,
    image: Option<String>,
    prune: bool,
)
    requires
        rmi_command(bin, image, prune) is Ok,
    ensures
        image is Some <==> !prune,
        image matches Some(i) ==> i@.len() > 0 && !begins_with(i@, '-'),
{
}

} // verus!
