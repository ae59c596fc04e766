//! How a shell reads the `helm` commands.
use crate::builders::helm::{
    dependency_command, get_command, helm_diff_command, lint_command, pull_command,
    repo_list_command, repo_update_command, template_command, test_command, HELM_DETECT,
};
use crate::shell::{command_reads_as_meant, group_plain, plain, plain_bin, reads_as_meant};
use crate::string_map::StringMap;
use vstd::prelude::*;

verus! {

proof fn helm_literals()
    ensures
        plain(HELM_DETECT@),
        plain(" dependency "@),
        plain(" "@),
        plain(" --skip-refresh"@),
        plain(" --verify"@),
        plain(" -f "@),
        plain(" --set "@),
        plain("if "@),
        plain(" plugin list 2>/dev/null | grep -q ^diff; then "@),
        plain(" diff "@),
        plain(" -n "@),
        plain(" --version "@),
        plain(" --detailed-exitcode"@),
        plain("; else echo helm-diff plugin not installed >&2; exit 4; fi"@),
        plain(" get "@),
        plain(" --revision "@),
        plain(" -o "@),
        plain(" --kubeconfig "@),
        plain(" lint "@),
        plain(" --strict"@),
        plain(" --quiet"@),
        plain(" pull "@),
        plain(" --repo "@),
        plain(" --untar"@),
        plain(" --destination "@),
        plain(" --devel"@),
        plain(" repo list"@),
        plain(" repo update"@),
        plain(" template "@),
        plain(" --show-only "@),
        plain(" test "@),
        plain(" --logs"@),
        plain(" --timeout "@),
        plain(" --filter "@),
{
    reveal_strlit("$(if command -v helm >/dev/null 2>&1; then echo helm; else echo microk8s helm3; fi)");
    reveal_strlit(" dependency ");
    reveal_strlit(" ");
    reveal_strlit(" --skip-refresh");
    reveal_strlit(" --verify");
    reveal_strlit(" -f ");
    reveal_strlit(" --set ");
    reveal_strlit("if ");
    reveal_strlit(" plugin list 2>/dev/null | grep -q ^diff; then ");
    reveal_strlit(" diff ");
    reveal_strlit(" -n ");
    reveal_strlit(" --version ");
    reveal_strlit(" --detailed-exitcode");
    reveal_strlit("; else echo helm-diff plugin not installed >&2; exit 4; fi");
    reveal_strlit(" get ");
    reveal_strlit(" --revision ");
    reveal_strlit(" -o ");
    reveal_strlit(" --kubeconfig ");
    reveal_strlit(" lint ");
    reveal_strlit(" --strict");
    reveal_strlit(" --quiet");
    reveal_strlit(" pull ");
    reveal_strlit(" --repo ");
    reveal_strlit(" --untar");
    reveal_strlit(" --destination ");
    reveal_strlit(" --devel");
    reveal_strlit(" repo list");
    reveal_strlit(" repo update");
    reveal_strlit(" template ");
    reveal_strlit(" --show-only ");
    reveal_strlit(" test ");
    reveal_strlit(" --logs");
    reveal_strlit(" --timeout ");
    reveal_strlit(" --filter ");
}

/// A shell reads the `helm dependency` command as it is meant: no argument adds shell text.
pub proof fn dependency_reads_as_meant(
    bin: Option<String>,
    subcommand: Seq<char>,
    chart_path: Seq<char>,
    skip_refresh: bool,
    verify: bool,
)
    requires
        plain_bin(bin),
    ensures
        reads_as_meant(dependency_command(bin, subcommand, chart_path, skip_refresh, verify)),
{
    broadcast use group_plain;

    helm_literals();
    command_reads_as_meant(dependency_command(bin, subcommand, chart_path, skip_refresh, verify));
}

/// A shell reads the `helm diff` command as it is meant: no argument adds shell text.
pub proof fn helm_diff_reads_as_meant(
    bin: Option<String>,
    subcommand: Seq<char>,
    release: Seq<char>,
    chart: Option<String>,
    namespace: Option<String>,
    values_files: Option<Vec<String>>,
    set_values: Option<StringMap>,
    version: Option<String>,
    detailed_exitcode: bool,
)
    requires
        plain_bin(bin),
    ensures
        reads_as_meant(
            helm_diff_command(
                bin,
                subcommand,
                release,
                chart,
                namespace,
                values_files,
                set_values,
                version,
                detailed_exitcode,
            ),
        ),
{
    broadcast use group_plain;

    helm_literals();
    command_reads_as_meant(
        helm_diff_command(
            bin,
            subcommand,
            release,
            chart,
            namespace,
            values_files,
            set_values,
            version,
            detailed_exitcode,
        ),
    );
}

/// A shell reads the `helm get` command as it is meant: no argument adds shell text.
pub proof fn get_reads_as_meant(
    bin: Option<String>,
    kubeconfig: Option<String>,
    subcommand: Seq<char>,
    release: Seq<char>,
    namespace: Option<String>,
    revision: Option<u64>,
    output: Option<String>,
)
    requires
        plain_bin(bin),
    ensures
        reads_as_meant(
            get_command(
                bin,
                kubeconfig,
                subcommand,
                release,
                namespace,
                revision,
                output,
            ),
        ),
{
    broadcast use group_plain;

    helm_literals();
    command_reads_as_meant(
        get_command(
            bin,
            kubeconfig,
            subcommand,
            release,
            namespace,
            revision,
            output,
        ),
    );
}

/// A shell reads the `helm lint` command as it is meant: no argument adds shell text.
pub proof fn lint_reads_as_meant(
    bin: Option<String>,
    chart_path: Seq<char>,
    strict: bool,
    values_files: Option<Vec<String>>,
    set_values: Option<StringMap>,
    quiet: bool,
)
    requires
        plain_bin(bin),
    ensures
        reads_as_meant(lint_command(bin, chart_path, strict, values_files, set_values, quiet)),
{
    broadcast use group_plain;

    helm_literals();
    command_reads_as_meant(lint_command(bin, chart_path, strict, values_files, set_values, quiet));
}

/// A shell reads the `helm pull` command as it is meant: no argument adds shell text.
pub proof fn pull_reads_as_meant(
    bin: Option<String>,
    chart: Seq<char>,
    version: Option<String>,
    repo: Option<String>,
    untar: bool,
    destination: Option<String>,
    devel: bool,
    verify: bool,
)
    requires
        plain_bin(bin),
    ensures
        reads_as_meant(
            pull_command(
                bin,
                chart,
                version,
                repo,
                untar,
                destination,
                devel,
                verify,
            ),
        ),
{
    broadcast use group_plain;

    helm_literals();
    command_reads_as_meant(
        pull_command(bin, chart, version, repo, untar, destination, devel, verify),
    );
}

/// A shell reads the `helm repo list` command as it is meant: no argument adds shell text.
pub proof fn repo_list_reads_as_meant(
    bin: Option<String>,
    output: Option<String>,
)
    requires
        plain_bin(bin),
    ensures
        reads_as_meant(repo_list_command(bin, output)),
{
    broadcast use group_plain;

    helm_literals();
    command_reads_as_meant(repo_list_command(bin, output));
}

/// A shell reads the `helm repo update` command as it is meant: no argument adds shell text.
pub proof fn repo_update_reads_as_meant(
    bin: Option<String>,
    repos: Option<Vec<String>>,
)
    requires
        plain_bin(bin),
    ensures
        reads_as_meant(repo_update_command(bin, repos)),
{
    broadcast use group_plain;

    helm_literals();
    command_reads_as_meant(repo_update_command(bin, repos));
}

/// A shell reads the `helm template` command as it is meant: no argument adds shell text.
pub proof fn template_reads_as_meant(
    bin: Option<String>,
    kubeconfig: Option<String>,
    release: Seq<char>,
    chart: Seq<char>,
    namespace: Option<String>,
    set_values: Option<StringMap>,
    values_files: Option<Vec<String>>,
    version: Option<String>,
    show_only: Option<Vec<String>>,
)
    requires
        plain_bin(bin),
    ensures
        reads_as_meant(
            template_command(
                bin,
                kubeconfig,
                release,
                chart,
                namespace,
                set_values,
                values_files,
                version,
                show_only,
            ),
        ),
{
    broadcast use group_plain;

    helm_literals();
    command_reads_as_meant(
        template_command(
            bin,
            kubeconfig,
            release,
            chart,
            namespace,
            set_values,
            values_files,
            version,
            show_only,
        ),
    );
}

/// A shell reads the `helm test` command as it is meant: no argument adds shell text.
pub proof fn test_reads_as_meant(
    bin: Option<String>,
    kubeconfig: Option<String>,
    release: Seq<char>,
    namespace: Option<String>,
    logs: bool,
    timeout: Option<String>,
    filter: Option<String>,
)
    requires
        plain_bin(bin),
    ensures
        reads_as_meant(
            test_command(
                bin,
                kubeconfig,
                release,
                namespace,
                logs,
                timeout,
                filter,
            ),
        ),
{
    broadcast use group_plain;

    helm_literals();
    command_reads_as_meant(
        test_command(bin, kubeconfig, release, namespace, logs, timeout, filter),
    );
}

} // verus!
