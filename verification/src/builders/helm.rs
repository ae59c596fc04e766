//! `helm` commands.
use crate::error::{checked, complaint, denied, first_of, unless, BridgeError, Refusal};
use crate::shell::{
    flag, lit, named, opt_entries, opt_text, opt_texts, option, render, repeated, settings,
    CommandLine, Piece,
};
use crate::string_map::StringMap;
use crate::text::{
    begins, begins_with, decimal, has_prefix, same_text, starts_with, word_chars, word_chars_only,
};
use vstd::prelude::*;

verus! {

/// Finds `helm`, which MicroK8s ships as a subcommand of its own.
pub const HELM_DETECT: &'static str =
    "$(if command -v helm >/dev/null 2>&1; then echo helm; else echo microk8s helm3; fi)";

/// The characters besides letters and digits that a repository URL may hold.
pub const URL_EXTRA: &'static str = "-._~:/@%+=?";

/// The characters besides letters and digits that a repository name may hold.
pub const REPO_NAME_EXTRA: &'static str = "-_.";

/// The start of a command: the program that the caller names, or the one that is found.
pub open spec fn helm_prefix(bin: Option<String>) -> Seq<Piece> {
    match bin {
        Some(b) => seq![Piece::Lit(b@)],
        None => lit(HELM_DETECT),
    }
}

fn helm(bin: &Option<String>) -> (r: CommandLine)
    ensures
        r.wf(),
        r@ == helm_prefix(*bin),
{
    match bin {
        Some(b) => CommandLine::new(b.as_str()),
        None => CommandLine::new(HELM_DETECT),
    }
}

fn add_helm(cmd: &mut CommandLine, bin: &Option<String>)
    requires
        old(cmd).wf(),
    ensures
        final(cmd).wf(),
        final(cmd)@ == old(cmd)@ + helm_prefix(*bin),
{
    match bin {
        Some(b) => cmd.lit(b.as_str()),
        None => cmd.lit(HELM_DETECT),
    }
}

/// What can be done with the dependencies of a chart.
pub open spec fn valid_dependency_subcommand(subcommand: Seq<char>) -> bool {
    subcommand == "build"@ || subcommand == "update"@ || subcommand == "list"@
}

pub open spec fn dependency_refusal(subcommand: Seq<char>) -> Option<Refusal> {
    unless(
        valid_dependency_subcommand(subcommand),
        complaint("Invalid dependency subcommand ", subcommand, ". Allowed: build, update, list"),
    )
}

/// What can be compared.
pub open spec fn valid_diff_subcommand(subcommand: Seq<char>) -> bool {
    subcommand == "upgrade"@ || subcommand == "rollback"@ || subcommand == "release"@ || subcommand
        == "revision"@
}

pub open spec fn diff_refusal(subcommand: Seq<char>) -> Option<Refusal> {
    unless(
        valid_diff_subcommand(subcommand),
        complaint(
            "Invalid diff subcommand ",
            subcommand,
            ". Allowed: upgrade, rollback, release, revision",
        ),
    )
}

/// The output formats of `helm`.
pub open spec fn valid_helm_output(output: Seq<char>) -> bool {
    output == "table"@ || output == "json"@ || output == "yaml"@
}

pub open spec fn helm_output_refusal(output: Seq<char>) -> Option<Refusal> {
    unless(
        valid_helm_output(output),
        complaint("Invalid output format ", output, ". Allowed: table, json, yaml"),
    )
}

/// A repository URL: a known scheme, and no character with a meaning to the shell.
pub open spec fn valid_repo_url(url: Seq<char>) -> bool {
    (has_prefix(url, "https://"@) || has_prefix(url, "http://"@) || has_prefix(url, "oci://"@))
        && word_chars(url, URL_EXTRA@)
}

pub open spec fn repo_url_refusal(url: Seq<char>) -> Option<Refusal> {
    unless(valid_repo_url(url), complaint("Invalid repository URL ", url, ""))
}

/// A repository name.
pub open spec fn valid_repo_name(name: Seq<char>) -> bool {
    name.len() > 0 && word_chars(name, REPO_NAME_EXTRA@) && !begins_with(name, '-')
}

pub open spec fn repo_name_refusal(name: Seq<char>) -> Option<Refusal> {
    unless(valid_repo_name(name), complaint("Invalid repository name ", name, ""))
}

/// Why a list of repository names is refused, if it is: the first bad name decides.
pub open spec fn repo_names_refusal(names: Seq<Seq<char>>) -> Option<Refusal>
    decreases names.len(),
{
    if names.len() == 0 {
        None
    } else {
        first_of(repo_name_refusal(names[0]), repo_names_refusal(names.skip(1)))
    }
}

/// A list is read from the chart alone, so there is nothing to refresh.
pub open spec fn dependency_command(
    bin: Option<String>,
    subcommand: Seq<char>,
    chart_path: Seq<char>,
    skip_refresh: bool,
    verify: bool,
) -> Seq<Piece> {
    helm_prefix(bin) + named(" dependency ", subcommand) + named(" ", chart_path) + flag(
        skip_refresh && subcommand != "list"@,
        " --skip-refresh",
    ) + flag(verify, " --verify")
}

/// The options by which values are overridden.
pub open spec fn overrides(
    values_files: Option<Vec<String>>,
    set_values: Option<StringMap>,
) -> Seq<Piece> {
    repeated(" -f ", opt_texts(values_files)) + settings(" --set ", opt_entries(set_values))
}

fn add_overrides(
    cmd: &mut CommandLine,
    values_files: &Option<Vec<String>>,
    set_values: &Option<StringMap>,
)
    requires
        old(cmd).wf(),
    ensures
        final(cmd).wf(),
        final(cmd)@ == old(cmd)@ + overrides(*values_files, *set_values),
{
    cmd.all(" -f ", values_files);
    cmd.settings(" --set ", set_values);
    assert(cmd@ =~= old(cmd)@ + overrides(*values_files, *set_values));
}

/// Compares where the plugin for it is installed; else says that it is not and ends with 4.
pub open spec fn helm_diff_command(
    bin: Option<String>,
    subcommand: Seq<char>,
    release: Seq<char>,
    chart: Option<String>,
    namespace: Option<String>,
    values_files: Option<Vec<String>>,
    set_values: Option<StringMap>,
    version: Option<String>,
    detailed_exitcode: bool,
) -> Seq<Piece> {
    lit("if ") + helm_prefix(bin) + lit(" plugin list 2>/dev/null | grep -q ^diff; then ")
        + helm_prefix(bin) + named(" diff ", subcommand) + named(" ", release) + option(
        " ",
        opt_text(chart),
    ) + option(" -n ", opt_text(namespace)) + overrides(values_files, set_values) + option(
        " --version ",
        opt_text(version),
    ) + flag(detailed_exitcode, " --detailed-exitcode") + lit(
        "; else echo helm-diff plugin not installed >&2; exit 4; fi",
    )
}

pub open spec fn get_command(
    bin: Option<String>,
    kubeconfig: Option<String>,
    subcommand: Seq<char>,
    release: Seq<char>,
    namespace: Option<String>,
    revision: Option<u64>,
    output: Option<String>,
) -> Seq<Piece> {
    helm_prefix(bin) + named(" get ", subcommand) + named(" ", release) + option(
        " -n ",
        opt_text(namespace),
    ) + match revision {
        Some(n) => lit(" --revision ") + seq![Piece::Lit(decimal(n as nat))],
        None => seq![],
    } + option(" -o ", opt_text(output)) + option(" --kubeconfig ", opt_text(kubeconfig))
}

pub open spec fn lint_command(
    bin: Option<String>,
    chart_path: Seq<char>,
    strict: bool,
    values_files: Option<Vec<String>>,
    set_values: Option<StringMap>,
    quiet: bool,
) -> Seq<Piece> {
    helm_prefix(bin) + named(" lint ", chart_path) + flag(strict, " --strict") + overrides(
        values_files,
        set_values,
    ) + flag(quiet, " --quiet")
}

pub open spec fn pull_command(
    bin: Option<String>,
    chart: Seq<char>,
    version: Option<String>,
    repo: Option<String>,
    untar: bool,
    destination: Option<String>,
    devel: bool,
    verify: bool,
) -> Seq<Piece> {
    helm_prefix(bin) + named(" pull ", chart) + option(" --version ", opt_text(version)) + option(
        " --repo ",
        opt_text(repo),
    ) + flag(untar, " --untar") + option(" --destination ", opt_text(destination)) + flag(
        devel,
        " --devel",
    ) + flag(verify, " --verify")
}

pub open spec fn repo_list_command(bin: Option<String>, output: Option<String>) -> Seq<Piece> {
    helm_prefix(bin) + lit(" repo list") + option(" -o ", opt_text(output))
}

pub open spec fn repo_update_command(bin: Option<String>, repos: Option<Vec<String>>) -> Seq<
    Piece,
> {
    helm_prefix(bin) + lit(" repo update") + repeated(" ", opt_texts(repos))
}

pub open spec fn template_command(
    bin: Option<String>,
    kubeconfig: Option<String>,
    release: Seq<char>,
    chart: Seq<char>,
    namespace: Option<String>,
    set_values: Option<StringMap>,
    values_files: Option<Vec<String>>,
    version: Option<String>,
    show_only: Option<Vec<String>>,
) -> Seq<Piece> {
    helm_prefix(bin) + named(" template ", release) + named(" ", chart) + option(
        " -n ",
        opt_text(namespace),
    ) + overrides(values_files, set_values) + option(" --version ", opt_text(version)) + repeated(
        " --show-only ",
        opt_texts(show_only),
    ) + option(" --kubeconfig ", opt_text(kubeconfig))
}

pub open spec fn test_command(
    bin: Option<String>,
    kubeconfig: Option<String>,
    release: Seq<char>,
    namespace: Option<String>,
    logs: bool,
    timeout: Option<String>,
    filter: Option<String>,
) -> Seq<Piece> {
    helm_prefix(bin) + named(" test ", release) + option(" -n ", opt_text(namespace)) + flag(
        logs,
        " --logs",
    ) + option(" --timeout ", opt_text(timeout)) + option(" --filter ", opt_text(filter)) + option(
        " --kubeconfig ",
        opt_text(kubeconfig),
    )
}

/// Builds `helm` commands.
pub struct HelmCommandBuilder;

impl HelmCommandBuilder {
    pub fn validate_dependency_subcommand(subcommand: &str) -> (r: Result<(), BridgeError>)
        ensures
            checked(r, dependency_refusal(subcommand@)),
    {
        if same_text(subcommand, "build") || same_text(subcommand, "update") || same_text(
            subcommand,
            "list",
        ) {
            Ok(())
        } else {
            Err(
                denied(
                    "Invalid dependency subcommand ",
                    subcommand,
                    ". Allowed: build, update, list",
                ),
            )
        }
    }

    pub fn validate_diff_subcommand(subcommand: &str) -> (r: Result<(), BridgeError>)
        ensures
            checked(r, diff_refusal(subcommand@)),
    {
        if same_text(subcommand, "upgrade") || same_text(subcommand, "rollback") || same_text(
            subcommand,
            "release",
        ) || same_text(subcommand, "revision") {
            Ok(())
        } else {
            Err(
                denied(
                    "Invalid diff subcommand ",
                    subcommand,
                    ". Allowed: upgrade, rollback, release, revision",
                ),
            )
        }
    }

    pub fn validate_helm_output(output: &str) -> (r: Result<(), BridgeError>)
        ensures
            checked(r, helm_output_refusal(output@)),
    {
        if same_text(output, "table") || same_text(output, "json") || same_text(output, "yaml") {
            Ok(())
        } else {
            Err(denied("Invalid output format ", output, ". Allowed: table, json, yaml"))
        }
    }

    pub fn validate_repo_url(url: &str) -> (r: Result<(), BridgeError>)
        ensures
            checked(r, repo_url_refusal(url@)),
    {
        let scheme: bool = starts_with(url, "https://") || starts_with(url, "http://")
            || starts_with(url, "oci://");
        if scheme && word_chars_only(url, URL_EXTRA) {
            Ok(())
        } else {
            Err(denied("Invalid repository URL ", url, ""))
        }
    }

    pub fn validate_repo_name(name: &str) -> (r: Result<(), BridgeError>)
        ensures
            checked(r, repo_name_refusal(name@)),
    {
        if !name.is_empty() && word_chars_only(name, REPO_NAME_EXTRA) && !begins(name, '-') {
            Ok(())
        } else {
            Err(denied("Invalid repository name ", name, ""))
        }
    }

    pub fn build_dependency_command(
        bin: &Option<String>,
        subcommand: &str,
        chart_path: &str,
        skip_refresh: bool,
        verify: bool,
    ) -> (r: String)
        ensures
            r@ == render(
                dependency_command(*bin, subcommand@, chart_path@, skip_refresh, verify),
            ),
    {
        let mut cmd = helm(bin);
        cmd.named(" dependency ", subcommand);
        cmd.named(" ", chart_path);
        cmd.flag(skip_refresh && !same_text(subcommand, "list"), " --skip-refresh");
        cmd.flag(verify, " --verify");
        cmd.into_text()
    }

    pub fn build_diff_command(
        bin: &Option<String>,
        subcommand: &str,
        release: &str,
        chart: &Option<String>,
        namespace: &Option<String>,
        values_files: &Option<Vec<String>>,
        set_values: &Option<StringMap>,
        version: &Option<String>,
        detailed_exitcode: bool,
    ) -> (r: String)
        ensures
            r@ == render(
                helm_diff_command(
                    *bin,
                    subcommand@,
                    release@,
                    *chart,
                    *namespace,
                    *values_files,
                    *set_values,
                    *version,
                    detailed_exitcode,
                ),
            ),
    {
        let mut cmd = CommandLine::new("if ");
        add_helm(&mut cmd, bin);
        cmd.lit(" plugin list 2>/dev/null | grep -q ^diff; then ");
        add_helm(&mut cmd, bin);
        cmd.named(" diff ", subcommand);
        cmd.named(" ", release);
        cmd.option(" ", chart);
        cmd.option(" -n ", namespace);
        add_overrides(&mut cmd, values_files, set_values);
        cmd.option(" --version ", version);
        cmd.flag(detailed_exitcode, " --detailed-exitcode");
        cmd.lit("; else echo helm-diff plugin not installed >&2; exit 4; fi");
        cmd.into_text()
    }

    pub fn build_get_command(
        bin: &Option<String>,
        kubeconfig: &Option<String>,
        subcommand: &str,
        release: &str,
        namespace: &Option<String>,
        revision: Option<u64>,
        output: &Option<String>,
    ) -> (r: String)
        ensures
            r@ == render(
                get_command(
                    *bin,
                    *kubeconfig,
                    subcommand@,
                    release@,
                    *namespace,
                    revision,
                    *output,
                ),
            ),
    {
        let mut cmd = helm(bin);
        cmd.named(" get ", subcommand);
        cmd.named(" ", release);
        cmd.option(" -n ", namespace);
        if let Some(n) = revision {
            cmd.lit(" --revision ");
            cmd.number(n);
        }
        cmd.option(" -o ", output);
        cmd.option(" --kubeconfig ", kubeconfig);
        assert(cmd@ =~= get_command(
            *bin,
            *kubeconfig,
            subcommand@,
            release@,
            *namespace,
            revision,
            *output,
        ));
        cmd.into_text()
    }

    pub fn build_lint_command(
        bin: &Option<String>,
        chart_path: &str,
        strict: bool,
        values_files: &Option<Vec<String>>,
        set_values: &Option<StringMap>,
        quiet: bool,
    ) -> (r: String)
        ensures
            r@ == render(
                lint_command(*bin, chart_path@, strict, *values_files, *set_values, quiet),
            ),
    {
        let mut cmd = helm(bin);
        cmd.named(" lint ", chart_path);
        cmd.flag(strict, " --strict");
        add_overrides(&mut cmd, values_files, set_values);
        cmd.flag(quiet, " --quiet");
        cmd.into_text()
    }

    pub fn build_pull_command(
        bin: &Option<String>,
        chart: &str,
        version: &Option<String>,
        repo: &Option<String>,
        untar: bool,
        destination: &Option<String>,
        devel: bool,
        verify: bool,
    ) -> (r: String)
        ensures
            r@ == render(
                pull_command(*bin, chart@, *version, *repo, untar, *destination, devel, verify),
            ),
    {
        let mut cmd = helm(bin);
        cmd.named(" pull ", chart);
        cmd.option(" --version ", version);
        cmd.option(" --repo ", repo);
        cmd.flag(untar, " --untar");
        cmd.option(" --destination ", destination);
        cmd.flag(devel, " --devel");
        cmd.flag(verify, " --verify");
        cmd.into_text()
    }

    pub fn build_repo_list_command(bin: &Option<String>, output: &Option<String>) -> (r: String)
        ensures
            r@ == render(repo_list_command(*bin, *output)),
    {
        let mut cmd = helm(bin);
        cmd.lit(" repo list");
        cmd.option(" -o ", output);
        cmd.into_text()
    }

    pub fn build_repo_update_command(bin: &Option<String>, repos: &Option<Vec<String>>) -> (r:
        String)
        ensures
            r@ == render(repo_update_command(*bin, *repos)),
    {
        let mut cmd = helm(bin);
        cmd.lit(" repo update");
        cmd.all(" ", repos);
        cmd.into_text()
    }

    pub fn build_template_command(
        bin: &Option<String>,
        kubeconfig: &Option<String>,
        release: &str,
        chart: &str,
        namespace: &Option<String>,
        set_values: &Option<StringMap>,
        values_files: &Option<Vec<String>>,
        version: &Option<String>,
        show_only: &Option<Vec<String>>,
    ) -> (r: String)
        ensures
            r@ == render(
                template_command(
                    *bin,
                    *kubeconfig,
                    release@,
                    chart@,
                    *namespace,
                    *set_values,
                    *values_files,
                    *version,
                    *show_only,
                ),
            ),
    {
        let mut cmd = helm(bin);
        cmd.named(" template ", release);
        cmd.named(" ", chart);
        cmd.option(" -n ", namespace);
        add_overrides(&mut cmd, values_files, set_values);
        cmd.option(" --version ", version);
        cmd.all(" --show-only ", show_only);
        cmd.option(" --kubeconfig ", kubeconfig);
        cmd.into_text()
    }

    pub fn build_test_command(
        bin: &Option<String>,
        kubeconfig: &Option<String>,
        release: &str,
        namespace: &Option<String>,
        logs: bool,
        timeout: &Option<String>,
        filter: &Option<String>,
    ) -> (r: String)
        ensures
            r@ == render(
                test_command(*bin, *kubeconfig, release@, *namespace, logs, *timeout, *filter),
            ),
    {
        let mut cmd = helm(bin);
        cmd.named(" test ", release);
        cmd.option(" -n ", namespace);
        cmd.flag(logs, " --logs");
        cmd.option(" --timeout ", timeout);
        cmd.option(" --filter ", filter);
        cmd.option(" --kubeconfig ", kubeconfig);
        cmd.into_text()
    }
}

} // verus!
