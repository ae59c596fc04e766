//! What the `helm` tools tell `helm`: the words that a shell reads in their commands.
use crate::builders::helm::HELM_DETECT;
use crate::laws::words::{
    arg, assignments, assignments_read, blank_reads, group_words, list, list_of, list_reads,
    name_reads, number, number_reads, outside, pair, pairs, pairs_read, program, reads, said,
    starts, switch, text_ends, text_starts, word, words,
};
use crate::shell::{group_plain, plain, plain_bin};
use crate::tool::StandardTool;
use crate::tools::ssh_helm_dependency::{HelmDependencyTool, SshHelmDependencyArgs};
use crate::tools::ssh_helm_diff::{HelmDiffTool, SshHelmDiffArgs};
use crate::tools::ssh_helm_get::{HelmGetTool, SshHelmGetArgs};
use crate::tools::ssh_helm_lint::{HelmLintTool, SshHelmLintArgs};
use crate::tools::ssh_helm_pull::{HelmPullTool, SshHelmPullArgs};
use crate::tools::ssh_helm_repo_list::{HelmRepoListTool, SshHelmRepoListArgs};
use crate::tools::ssh_helm_repo_update::{HelmRepoUpdateTool, SshHelmRepoUpdateArgs};
use crate::tools::ssh_helm_template::{HelmTemplateTool, SshHelmTemplateArgs};
use crate::tools::ssh_helm_test::{HelmTestTool, SshHelmTestArgs};
use vstd::prelude::*;

verus! {

proof fn helm_reads()
    ensures
        reads(" dependency ", seq![word("dependency")], true),
        reads(" ", seq![], true),
        reads(" --skip-refresh", seq![word("--skip-refresh")], false),
        reads(" --verify", seq![word("--verify")], false),
        reads(" -f ", seq![word("-f")], true),
        reads(" --set ", seq![word("--set")], true),
        reads(" lint ", seq![word("lint")], true),
        reads(" --strict", seq![word("--strict")], false),
        reads(" --quiet", seq![word("--quiet")], false),
        reads(" get ", seq![word("get")], true),
        reads(" -n ", seq![word("-n")], true),
        reads(" --revision ", seq![word("--revision")], true),
        reads(" -o ", seq![word("-o")], true),
        reads(" --kubeconfig ", seq![word("--kubeconfig")], true),
        reads(" pull ", seq![word("pull")], true),
        reads(" --version ", seq![word("--version")], true),
        reads(" --repo ", seq![word("--repo")], true),
        reads(" --untar", seq![word("--untar")], false),
        reads(" --destination ", seq![word("--destination")], true),
        reads(" --devel", seq![word("--devel")], false),
        reads(" template ", seq![word("template")], true),
        reads(" --show-only ", seq![word("--show-only")], true),
        reads(" test ", seq![word("test")], true),
        reads(" --logs", seq![word("--logs")], false),
        reads(" --timeout ", seq![word("--timeout")], true),
        reads(" --filter ", seq![word("--filter")], true),
        reads(" diff ", seq![word("diff")], true),
        reads(" --detailed-exitcode", seq![word("--detailed-exitcode")], false),
        starts(" repo list", false),
        starts(" repo update", false),
        starts(" plugin list 2>/dev/null | grep -q ^diff; then ", true),
        starts("; else echo helm-diff plugin not installed >&2; exit 4; fi", false),
        plain(HELM_DETECT@),
{
    reveal_strlit(" dependency ");
    reveal_strlit("dependency");
    reveal_strlit(" ");
    reveal_strlit(" --skip-refresh");
    reveal_strlit("--skip-refresh");
    reveal_strlit(" --verify");
    reveal_strlit("--verify");
    reveal_strlit(" -f ");
    reveal_strlit("-f");
    reveal_strlit(" --set ");
    reveal_strlit("--set");
    reveal_strlit(" lint ");
    reveal_strlit("lint");
    reveal_strlit(" --strict");
    reveal_strlit("--strict");
    reveal_strlit(" --quiet");
    reveal_strlit("--quiet");
    reveal_strlit(" get ");
    reveal_strlit("get");
    reveal_strlit(" -n ");
    reveal_strlit("-n");
    reveal_strlit(" --revision ");
    reveal_strlit("--revision");
    reveal_strlit(" -o ");
    reveal_strlit("-o");
    reveal_strlit(" --kubeconfig ");
    reveal_strlit("--kubeconfig");
    reveal_strlit(" pull ");
    reveal_strlit("pull");
    reveal_strlit(" --version ");
    reveal_strlit("--version");
    reveal_strlit(" --repo ");
    reveal_strlit("--repo");
    reveal_strlit(" --untar");
    reveal_strlit("--untar");
    reveal_strlit(" --destination ");
    reveal_strlit("--destination");
    reveal_strlit(" --devel");
    reveal_strlit("--devel");
    reveal_strlit(" template ");
    reveal_strlit("template");
    reveal_strlit(" --show-only ");
    reveal_strlit("--show-only");
    reveal_strlit(" test ");
    reveal_strlit("test");
    reveal_strlit(" --logs");
    reveal_strlit("--logs");
    reveal_strlit(" --timeout ");
    reveal_strlit("--timeout");
    reveal_strlit(" --filter ");
    reveal_strlit("--filter");
    reveal_strlit(" diff ");
    reveal_strlit("diff");
    reveal_strlit(" --detailed-exitcode");
    reveal_strlit("--detailed-exitcode");
    reveal_strlit(" repo list");
    reveal_strlit(" repo update");
    reveal_strlit(" plugin list 2>/dev/null | grep -q ^diff; then ");
    reveal_strlit("; else echo helm-diff plugin not installed >&2; exit 4; fi");
    reveal_strlit(
        "$(if command -v helm >/dev/null 2>&1; then echo helm; else echo microk8s helm3; fi)");
    name_reads(" dependency ", "dependency", true);
    blank_reads(" ");
    name_reads(" --skip-refresh", "--skip-refresh", false);
    name_reads(" --verify", "--verify", false);
    name_reads(" -f ", "-f", true);
    name_reads(" --set ", "--set", true);
    name_reads(" lint ", "lint", true);
    name_reads(" --strict", "--strict", false);
    name_reads(" --quiet", "--quiet", false);
    name_reads(" get ", "get", true);
    name_reads(" -n ", "-n", true);
    name_reads(" --revision ", "--revision", true);
    name_reads(" -o ", "-o", true);
    name_reads(" --kubeconfig ", "--kubeconfig", true);
    name_reads(" pull ", "pull", true);
    name_reads(" --version ", "--version", true);
    name_reads(" --repo ", "--repo", true);
    name_reads(" --untar", "--untar", false);
    name_reads(" --destination ", "--destination", true);
    name_reads(" --devel", "--devel", false);
    name_reads(" template ", "template", true);
    name_reads(" --show-only ", "--show-only", true);
    name_reads(" test ", "test", true);
    name_reads(" --logs", "--logs", false);
    name_reads(" --timeout ", "--timeout", true);
    name_reads(" --filter ", "--filter", true);
    name_reads(" diff ", "diff", true);
    name_reads(" --detailed-exitcode", "--detailed-exitcode", false);
    text_starts(" repo list");
    text_starts(" repo update");
    text_starts(" plugin list 2>/dev/null | grep -q ^diff; then ");
    text_starts("; else echo helm-diff plugin not installed >&2; exit 4; fi");
}

proof fn if_reads()
    ensures
        plain("if "@),
        outside("if "@),
{
    reveal_strlit("if ");
    text_ends("if ");
}

/// The dependencies of the chart that is asked for are built, updated or listed as asked. A refresh
/// is skipped where that is asked for, but for a list, which is read from the chart alone.
pub proof fn dependency_is_told(args: SshHelmDependencyArgs)
    requires
        plain_bin(args.helm_bin),
        HelmDependencyTool::command(args) is Ok,
    ensures
        HelmDependencyTool::command(args) matches Ok(text)
            && words(text) == program(args.helm_bin, HELM_DETECT)
            + said("dependency", args.subcommand@)
            + seq![arg(args.chart_path@)] + switch(
            args.skip_refresh == Some(true) && args.subcommand@ != "list"@,
            "--skip-refresh",
        ) + switch(args.verify == Some(true), "--verify"),
{
    broadcast use {group_words, group_plain};

    helm_reads();
}

/// A preview is made where the plugin for it is installed, of the release and the chart that are
/// asked for, in the namespace that is asked for and with the overrides that are asked for.
pub proof fn diff_is_told(args: SshHelmDiffArgs)
    requires
        plain_bin(args.helm_bin),
        HelmDiffTool::command(args) is Ok,
    ensures
        HelmDiffTool::command(args) matches Ok(text)
            && words(text) == words("if "@) + program(args.helm_bin, HELM_DETECT) + words(
            " plugin list 2>/dev/null | grep -q ^diff; then "@,
        ) + program(args.helm_bin, HELM_DETECT) + said("diff", args.subcommand@)
            + seq![arg(args.release@)]
            + list_of(args.chart) + pair("-n", args.namespace) + (pairs("-f", args.values_files)
            + assignments("--set", args.set_values)) + pair(
            "--version",
            args.version,
        ) + switch(args.detailed_exitcode == Some(true), "--detailed-exitcode") + words(
            "; else echo helm-diff plugin not installed >&2; exit 4; fi"@,
        ),
{
    broadcast use {group_words, group_plain};

    helm_reads();
    pairs_read(" -f ", "-f", args.values_files);
    assignments_read(" --set ", "--set", args.set_values);
    if_reads();
}

/// Of the release that is asked for, what is asked for is fetched, at the revision, from the
/// namespace and in the form that are asked for.
pub proof fn get_is_told(args: SshHelmGetArgs)
    requires
        plain_bin(args.helm_bin),
        HelmGetTool::command(args) is Ok,
    ensures
        HelmGetTool::command(args) matches Ok(text)
            && words(text) == program(args.helm_bin, HELM_DETECT) + said("get", args.subcommand@)
            + seq![arg(args.release@)] + pair("-n", args.namespace) + number(
            "--revision",
            args.revision,
        ) + pair("-o", args.output) + pair("--kubeconfig", args.kubeconfig),
{
    broadcast use {group_words, group_plain};

    helm_reads();
    if let Some(n) = args.revision {
        number_reads(" --revision ", "--revision", n);
    }
}

/// The chart that is asked for is checked, with the overrides that are asked for: every values file
/// stands behind a `-f`, every setting is one word `key=value` behind a `--set`.
pub proof fn lint_is_told(args: SshHelmLintArgs)
    requires
        plain_bin(args.helm_bin),
    ensures
        HelmLintTool::command(args) matches Ok(text)
            && words(text) == program(args.helm_bin, HELM_DETECT) + said("lint", args.chart_path@)
            + switch(args.strict == Some(true), "--strict")
            + (pairs("-f", args.values_files)
            + assignments("--set", args.set_values)) + switch(args.quiet == Some(true), "--quiet"),
{
    broadcast use {group_words, group_plain};

    helm_reads();
    pairs_read(" -f ", "-f", args.values_files);
    assignments_read(" --set ", "--set", args.set_values);
}

/// The chart that is asked for is pulled, at the version, from the repository and to the place that
/// are asked for.
pub proof fn pull_is_told(args: SshHelmPullArgs)
    requires
        plain_bin(args.helm_bin),
        HelmPullTool::command(args) is Ok,
    ensures
        HelmPullTool::command(args) matches Ok(text)
            && words(text) == program(args.helm_bin, HELM_DETECT) + said("pull", args.chart@)
            + pair(
            "--version",
            args.version,
        ) + pair("--repo", args.repo) + switch(args.untar == Some(true), "--untar") + pair(
            "--destination",
            args.destination,
        ) + switch(args.devel == Some(true), "--devel")
            + switch(args.verify == Some(true), "--verify"),
{
    broadcast use {group_words, group_plain};

    helm_reads();
}

/// The repositories are listed in the form that is asked for.
pub proof fn repo_list_is_told(args: SshHelmRepoListArgs)
    requires
        plain_bin(args.helm_bin),
        HelmRepoListTool::command(args) is Ok,
    ensures
        HelmRepoListTool::command(args) matches Ok(text)
            && words(text) == program(args.helm_bin, HELM_DETECT) + words(" repo list"@)
            + pair("-o", args.output),
{
    broadcast use {group_words, group_plain};

    helm_reads();
}

/// The repositories that are asked for are updated, all of them where none is named.
pub proof fn repo_update_is_told(args: SshHelmRepoUpdateArgs)
    requires
        plain_bin(args.helm_bin),
        HelmRepoUpdateTool::command(args) is Ok,
    ensures
        HelmRepoUpdateTool::command(args) matches Ok(text)
            && words(text) == program(args.helm_bin, HELM_DETECT) + words(" repo update"@)
            + list(args.repos),
{
    broadcast use {group_words, group_plain};

    helm_reads();
    list_reads(" ", args.repos);
}

/// The chart that is asked for is rendered under the release's name, for the namespace and with the
/// overrides that are asked for, the templates that are asked for or all of them.
pub proof fn template_is_told(args: SshHelmTemplateArgs)
    requires
        plain_bin(args.helm_bin),
        HelmTemplateTool::command(args) is Ok,
    ensures
        HelmTemplateTool::command(args) matches Ok(text)
            && words(text) == program(args.helm_bin, HELM_DETECT) + said("template", args.release@)
            + seq![arg(args.chart@)] + pair("-n", args.namespace) + (pairs("-f", args.values_files)
            + assignments("--set", args.set_values)) + pair(
            "--version",
            args.version,
        ) + pairs("--show-only", args.show_only) + pair("--kubeconfig", args.kubeconfig),
{
    broadcast use {group_words, group_plain};

    helm_reads();
    pairs_read(" -f ", "-f", args.values_files);
    assignments_read(" --set ", "--set", args.set_values);
    pairs_read(" --show-only ", "--show-only", args.show_only);
}

/// The tests of the release that is asked for are run, those that the filter names or all of them.
pub proof fn test_is_told(args: SshHelmTestArgs)
    requires
        plain_bin(args.helm_bin),
        HelmTestTool::command(args) is Ok,
    ensures
        HelmTestTool::command(args) matches Ok(text)
            && words(text) == program(args.helm_bin, HELM_DETECT) + said("test", args.release@)
            + pair(
            "-n",
            args.namespace,
        ) + switch(args.logs == Some(true), "--logs") + pair("--timeout", args.timeout) + pair(
            "--filter",
            args.filter,
        ) + pair("--kubeconfig", args.kubeconfig),
{
    broadcast use {group_words, group_plain};

    helm_reads();
}

} // verus!
