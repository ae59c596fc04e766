//! `kubectl` commands.
use crate::builders::k3s::{path_refusal, validate_path};
use crate::builders::names::{
    context_refusal, dns_name_refusal, dry_run_refusal, helm_get_refusal, in_dns_form,
    namespace_refusal, object_name_refusal, target_host_refusal, validate_context,
    validate_dns_name, validate_dry_run, validate_object_name, validate_target_host,
};
use crate::error::{
    agrees, checked, complaint, denied, denied_because, first_of, if_some, unless, BridgeError,
    Refusal,
};
use crate::shell::{
    command_unless, flag, lit, named, opt_text, opt_texts, option, render, repeated, texts,
    CommandLine, Piece,
};
use crate::text::{
    begins, begins_with, decimal, has_prefix, same_text, starts_with, word_chars, word_chars_only,
};
use vstd::prelude::*;

verus! {

/// Finds `kubectl`, which K3s and MicroK8s ship as a subcommand of their own.
pub const KUBECTL_DETECT: &'static str =
    "$(if command -v kubectl >/dev/null 2>&1; then echo kubectl; elif command -v k3s >/dev/null 2>&1; then echo k3s kubectl; else echo microk8s kubectl; fi)";

/// The image of the pods that probe the cluster.
pub const PROBE_IMAGE: &'static str = "busybox:1.36";

/// The start of a command: the program that the caller names, or the one that is found.
pub open spec fn kubectl_prefix(bin: Option<String>) -> Seq<Piece> {
    match bin {
        Some(b) => seq![Piece::Lit(b@)],
        None => lit(KUBECTL_DETECT),
    }
}

/// The start of a script: `K` stands for the program that the caller names, or the one that is
/// found.
pub open spec fn script_prefix(bin: Option<String>) -> Seq<Piece> {
    lit("K=") + match bin {
        Some(b) => seq![Piece::Arg(b@)],
        None => lit(KUBECTL_DETECT),
    } + lit("; ")
}

/// The context, where there is one.
pub open spec fn context_flag(context: Option<String>) -> Seq<Piece> {
    match context {
        Some(c) => lit(" --context=") + seq![Piece::Lit(c@)],
        None => seq![],
    }
}

/// One step of a script: a call of the program in the given context.
pub open spec fn script_call(context: Option<String>, rest: &str) -> Seq<Piece> {
    lit("$K") + context_flag(context) + lit(rest)
}

pub fn kubectl(bin: &Option<String>) -> (r: CommandLine)
    ensures
        r.wf(),
        r@ == kubectl_prefix(*bin),
{
    match bin {
        Some(b) => CommandLine::new(b.as_str()),
        None => CommandLine::new(KUBECTL_DETECT),
    }
}

pub fn script(bin: &Option<String>) -> (r: CommandLine)
    ensures
        r.wf(),
        r@ == script_prefix(*bin),
{
    let mut cmd = CommandLine::new("K=");
    match bin {
        Some(b) => cmd.arg(b.as_str()),
        None => cmd.lit(KUBECTL_DETECT),
    }
    cmd.lit("; ");
    assert(cmd@ =~= script_prefix(*bin));
    cmd
}

pub fn add_context(cmd: &mut CommandLine, context: &Option<String>)
    requires
        old(cmd).wf(),
    ensures
        final(cmd).wf(),
        final(cmd)@ == old(cmd)@ + context_flag(*context),
{
    if let Some(c) = context {
        cmd.lit(" --context=");
        cmd.lit(c.as_str());
    }
    assert(cmd@ =~= old(cmd)@ + context_flag(*context));
}

pub fn add_call(cmd: &mut CommandLine, context: &Option<String>, rest: &str)
    requires
        old(cmd).wf(),
    ensures
        final(cmd).wf(),
        final(cmd)@ == old(cmd)@ + script_call(*context, rest),
{
    cmd.lit("$K");
    add_context(cmd, context);
    cmd.lit(rest);
    assert(cmd@ =~= old(cmd)@ + script_call(*context, rest));
}

/// A manifest that is the path of a file on the host: it starts with `/`, `./` or `~`. Any other
/// manifest is taken as it stands.
pub open spec fn is_file_path(manifest: Seq<char>) -> bool {
    has_prefix(manifest, "/"@) || has_prefix(manifest, "./"@) || has_prefix(manifest, "~"@)
}

/// Tells whether a manifest is the path of a file on the host.
pub fn names_file(manifest: &str) -> (r: bool)
    ensures
        r == is_file_path(manifest@),
{
    starts_with(manifest, "/") || starts_with(manifest, "./") || starts_with(manifest, "~")
}

/// The place of the first slash from `from` on, or the length of `path` where there is none.
pub open spec fn slash_from(path: Seq<char>, from: int) -> int
    decreases path.len() - from,
{
    if 0 <= from < path.len() && path[from] != '/' {
        slash_from(path, from + 1)
    } else {
        from
    }
}

/// How much of a path names a home directory: `~`, the name of a user where there is one, and the
/// slash behind it.
pub open spec fn home_len(path: Seq<char>) -> int {
    let slash = slash_from(path, 1);
    if begins_with(path, '~') && slash < path.len() && word_chars(path.subrange(1, slash), "-_."@) {
        slash + 1
    } else {
        0
    }
}

/// The path of a file. A home directory stands outside the quotes, where the shell finds it; what
/// follows it stands inside.
pub open spec fn path_pieces(path: Seq<char>) -> Seq<Piece> {
    let n = home_len(path);
    if n > 0 {
        seq![Piece::Lit(path.take(n)), Piece::Arg(path.skip(n))]
    } else {
        seq![Piece::Arg(path)]
    }
}

fn home_end(path: &str) -> (r: usize)
    ensures
        r == home_len(path@),
        r <= path@.len(),
{
    if !begins(path, '~') {
        return 0;
    }
    let n: usize = path.unicode_len();
    let mut i: usize = 1;
    while i < n && path.get_char(i) != '/'
        invariant
            n == path@.len(),
            1 <= i <= n,
            slash_from(path@, 1) == slash_from(path@, i as int),
        decreases n - i,
    {
        i += 1;
    }
    if i < n {
        let user: &str = path.substring_char(1, i);
        if word_chars_only(user, "-_.") {
            return i + 1;
        }
    }
    0
}

fn add_path(cmd: &mut CommandLine, path: &str)
    requires
        old(cmd).wf(),
    ensures
        final(cmd).wf(),
        final(cmd)@ == old(cmd)@ + path_pieces(path@),
{
    let n: usize = home_end(path);
    if n > 0 {
        let end: usize = path.unicode_len();
        let home: &str = path.substring_char(0, n);
        let rest: &str = path.substring_char(n, end);
        assert(home@ =~= path@.take(n as int));
        assert(rest@ =~= path@.skip(n as int));
        cmd.lit(home);
        cmd.arg(rest);
    } else {
        cmd.arg(path);
    }
    assert(cmd@ =~= old(cmd)@ + path_pieces(path@));
}

/// A command that reads a manifest, from its file or from standard input.
pub open spec fn manifest_command(
    bin: Option<String>,
    verb: &str,
    manifest: Seq<char>,
) -> Seq<Piece> {
    if is_file_path(manifest) {
        kubectl_prefix(bin) + lit(verb) + lit(" -f ") + path_pieces(manifest)
    } else {
        named("echo ", manifest) + lit(" | ") + kubectl_prefix(bin) + lit(verb) + lit(" -f -")
    }
}

fn on_manifest(bin: &Option<String>, verb: &str, manifest: &str) -> (r: CommandLine)
    ensures
        r.wf(),
        r@ == manifest_command(*bin, verb, manifest@),
{
    if names_file(manifest) {
        let mut cmd = kubectl(bin);
        cmd.lit(verb);
        cmd.lit(" -f ");
        add_path(&mut cmd, manifest);
        cmd
    } else {
        let mut cmd = CommandLine::new("echo ");
        cmd.arg(manifest);
        cmd.lit(" | ");
        match bin {
            Some(b) => cmd.lit(b.as_str()),
            None => cmd.lit(KUBECTL_DETECT),
        }
        cmd.lit(verb);
        cmd.lit(" -f -");
        assert(cmd@ =~= manifest_command(*bin, verb, manifest@));
        cmd
    }
}

pub open spec fn api_resources_command(
    bin: Option<String>,
    namespaced: Option<bool>,
    api_group: Option<String>,
    verbs: Option<String>,
    output: Option<String>,
    context: Option<String>,
) -> Seq<Piece> {
    kubectl_prefix(bin) + lit(" api-resources") + flag(
        namespaced == Some(true),
        " --namespaced=true",
    ) + flag(namespaced == Some(false), " --namespaced=false") + option(
        " --api-group=",
        opt_text(api_group),
    ) + option(" --verbs=", opt_text(verbs)) + option(" -o ", opt_text(output)) + context_flag(
        context,
    )
}

pub open spec fn auth_can_i_command(
    bin: Option<String>,
    verb: Seq<char>,
    resource: Seq<char>,
    namespace: Option<String>,
    as_user: Option<String>,
    context: Option<String>,
) -> Seq<Piece> {
    kubectl_prefix(bin) + named(" auth can-i ", verb) + named(" ", resource) + option(
        " -n ",
        opt_text(namespace),
    ) + option(" --as ", opt_text(as_user)) + context_flag(context)
}

pub open spec fn auth_reconcile_command(
    bin: Option<String>,
    manifest: Seq<char>,
    dry_run: bool,
    remove_extra_permissions: bool,
    remove_extra_subjects: bool,
    context: Option<String>,
) -> Seq<Piece> {
    manifest_command(bin, " auth reconcile", manifest) + flag(dry_run, " --dry-run=client") + flag(
        remove_extra_permissions,
        " --remove-extra-permissions",
    ) + flag(remove_extra_subjects, " --remove-extra-subjects") + context_flag(context)
}

/// The output format, YAML unless the caller names another.
pub open spec fn output_or_yaml(output: Option<String>) -> Seq<char> {
    match output {
        Some(o) => o@,
        None => "yaml"@,
    }
}

pub open spec fn auth_whoami_command(
    bin: Option<String>,
    output: Option<String>,
    context: Option<String>,
) -> Seq<Piece> {
    kubectl_prefix(bin) + lit(" auth whoami") + named(" -o ", output_or_yaml(output))
        + context_flag(context)
}

pub open spec fn diff_command(
    bin: Option<String>,
    manifest: Seq<char>,
    namespace: Option<String>,
) -> Seq<Piece> {
    manifest_command(bin, " diff", manifest) + option(" -n ", opt_text(namespace))
}

pub open spec fn create_token_command(
    bin: Option<String>,
    service_account: Seq<char>,
    namespace: Option<String>,
    duration: Option<String>,
    audiences: Option<Vec<String>>,
    bound_object_kind: Option<String>,
    bound_object_name: Option<String>,
    context: Option<String>,
) -> Seq<Piece> {
    kubectl_prefix(bin) + named(" create token ", service_account) + option(
        " -n ",
        opt_text(namespace),
    ) + option(" --duration ", opt_text(duration)) + repeated(" --audience ", opt_texts(audiences))
        + option(" --bound-object-kind ", opt_text(bound_object_kind)) + option(
        " --bound-object-name ",
        opt_text(bound_object_name),
    ) + context_flag(context)
}

// Probes of the cluster

/// The namespace of the probe pod.
pub open spec fn namespace_or_default(namespace: Option<String>) -> Seq<char> {
    match namespace {
        Some(n) => n@,
        None => "default"@,
    }
}

/// The image of the probe pod.
pub open spec fn image_or_probe(image: Option<String>) -> Seq<char> {
    match image {
        Some(i) => i@,
        None => PROBE_IMAGE@,
    }
}

/// Why a connectivity test is refused, if it is.
pub open spec fn connectivity_refusal(
    target_host: Seq<char>,
    target_port: u16,
    namespace: Option<String>,
    wait_secs: u64,
    context: Option<String>,
) -> Option<Refusal> {
    first_of(
        target_host_refusal(target_host),
        first_of(
            unless(target_port > 0, "target_port must be between 1 and 65535"@),
            first_of(
                if_some(namespace, |ns: Seq<char>| namespace_refusal(ns)),
                first_of(
                    unless(1 <= wait_secs <= 300, "wait_secs must be between 1 and 300"@),
                    if_some(context, |c: Seq<char>| context_refusal(c)),
                ),
            ),
        ),
    )
}

/// Runs a pod that connects to the target, says whether it could, and deletes the pod in any
/// case. The script ends with 0 exactly where the target could be reached.
pub open spec fn connectivity_script(
    bin: Option<String>,
    target_host: Seq<char>,
    target_port: u16,
    namespace: Option<String>,
    image: Option<String>,
    wait_secs: u64,
    context: Option<String>,
) -> Seq<Piece> {
    script_prefix(bin) + lit("P=conn-probe-$$; if ") + script_call(context, " run $P") + named(
        " -n ",
        namespace_or_default(namespace),
    ) + named(" --image=", image_or_probe(image)) + lit(
        " --restart=Never --rm -i --pod-running-timeout=",
    ) + seq![Piece::Lit(decimal(wait_secs as nat))] + lit("s --command -- nc -z -w 5") + named(
        " ",
        target_host,
    ) + lit(" ") + seq![Piece::Lit(decimal(target_port as nat))] + lit(
        "; then echo REACHABLE; R=0; else echo UNREACHABLE; R=1; fi; ",
    ) + script_call(context, " delete pod $P --ignore-not-found") + named(
        " -n ",
        namespace_or_default(namespace),
    ) + lit(" >/dev/null 2>&1; exit $R")
}

/// Why a DNS check is refused, if it is.
pub open spec fn dns_check_refusal(
    resolve_name: Option<String>,
    namespace: Option<String>,
    context: Option<String>,
) -> Option<Refusal> {
    first_of(
        if_some(resolve_name, |n: Seq<char>| dns_name_refusal(n)),
        first_of(
            if_some(namespace, |ns: Seq<char>| namespace_refusal(ns)),
            if_some(context, |c: Seq<char>| context_refusal(c)),
        ),
    )
}

/// Shows the pods, the service, the endpoints and the configuration of CoreDNS, and resolves a
/// name from inside the cluster where one is given.
pub open spec fn dns_check_script(
    bin: Option<String>,
    resolve_name: Option<String>,
    namespace: Option<String>,
    context: Option<String>,
) -> Seq<Piece> {
    script_prefix(bin) + lit("echo === CoreDNS pods ===; ") + script_call(
        context,
        " get pods -n kube-system -l k8s-app=kube-dns -o wide",
    ) + lit("; echo === kube-dns service ===; ") + script_call(
        context,
        " get service kube-dns -n kube-system -o wide",
    ) + lit("; echo === kube-dns endpoints ===; ") + script_call(
        context,
        " get endpoints kube-dns -n kube-system",
    ) + lit("; echo === Corefile ===; ") + script_call(
        context,
        " get configmap coredns -n kube-system -o yaml",
    ) + match resolve_name {
        Some(name) => lit("; echo === DNS resolution ===; ") + script_call(
            context,
            " run dns-probe-$$ --image=busybox:1.36 --restart=Never --rm -i",
        ) + option(" -n ", opt_text(namespace)) + named(" --command -- nslookup ", name@),
        None => seq![],
    }
}

/// Where K3s keeps the manifests that it deploys by itself.
pub const MANIFESTS_DIR: &'static str = "/var/lib/rancher/k3s/server/manifests";

/// Why a look at the addons is refused, if it is.
pub open spec fn addon_manifests_refusal(
    manifests_dir: Option<String>,
    context: Option<String>,
) -> Option<Refusal> {
    first_of(
        if_some(manifests_dir, |d: Seq<char>| path_refusal(d)),
        if_some(context, |c: Seq<char>| context_refusal(c)),
    )
}

/// Shows the manifests that K3s deploys by itself, the charts that it manages and the jobs that
/// install them.
pub open spec fn addon_manifests_script(
    bin: Option<String>,
    manifests_dir: Option<String>,
    context: Option<String>,
) -> Seq<Piece> {
    script_prefix(bin) + lit("echo === auto-deploy manifests ===; ls -la ") + seq![
        Piece::Arg(
            match manifests_dir {
                Some(d) => d@,
                None => MANIFESTS_DIR@,
            },
        ),
    ] + lit("; echo === HelmChart CRDs ===; ") + script_call(
        context,
        " get helmcharts.helm.cattle.io -A",
    ) + lit("; echo === HelmChart job status ===; ") + script_call(
        context,
        " get helmcharts.helm.cattle.io -A -o custom-columns=NAME:.metadata.name,JOB:.status.jobName",
    ) + lit("; echo === helm-install jobs ===; ") + script_call(
        context,
        " get jobs -n kube-system -l helmcharts.helm.cattle.io/chart",
    )
}

/// What is shown of the pods that serve a load balancer: where they run and the ports of the node
/// that they take.
pub const SVCLB_POD_COLUMNS: &'static str =
    "custom-columns=NAME:.metadata.name,NODE:.spec.nodeName,STATUS:.status.phase,HOSTPORTS:.spec.containers[*].ports[*].hostPort";

/// Why a look at the load balancer is refused, if it is.
pub open spec fn servicelb_refusal(
    namespace: Option<String>,
    context: Option<String>,
) -> Option<Refusal> {
    first_of(
        if_some(namespace, |ns: Seq<char>| namespace_refusal(ns)),
        if_some(context, |c: Seq<char>| context_refusal(c)),
    )
}

/// Shows the services of type `LoadBalancer`, in one namespace or in all of them, and the daemon
/// sets and pods by which K3s serves them, the pods with their nodes and host ports.
pub open spec fn servicelb_script(
    bin: Option<String>,
    namespace: Option<String>,
    context: Option<String>,
) -> Seq<Piece> {
    script_prefix(bin) + lit("echo === type=LoadBalancer services ===; ") + script_call(
        context,
        " get services --field-selector spec.type=LoadBalancer -o wide",
    ) + match namespace {
        Some(ns) => named(" -n ", ns@),
        None => lit(" -A"),
    } + lit("; echo === klipper svclb daemonsets ===; ") + script_call(
        context,
        " get daemonsets -n kube-system -l svccontroller.k3s.cattle.io/svcname -o wide",
    ) + lit("; echo === svclb pods ===; ") + script_call(
        context,
        " get pods -n kube-system -l svccontroller.k3s.cattle.io/svcname",
    ) + named(" -o ", SVCLB_POD_COLUMNS@)
}

// Objects

/// The options of a literal: `name` and, between quotes, the key, `=` and the value.
pub open spec fn literals(name: &str, entries: Seq<(Seq<char>, Seq<char>)>) -> Seq<Piece>
    decreases entries.len(),
{
    if entries.len() == 0 {
        seq![]
    } else {
        literals(name, entries.drop_last()) + named(
            name,
            entries.last().0 + "="@ + entries.last().1,
        )
    }
}

/// The texts of a list of pairs.
pub open spec fn pair_texts(pairs: Seq<(String, String)>) -> Seq<(Seq<char>, Seq<char>)> {
    Seq::new(pairs.len(), |i: int| (pairs[i].0@, pairs[i].1@))
}

fn add_literals(cmd: &mut CommandLine, name: &str, pairs: &Vec<(String, String)>)
    requires
        old(cmd).wf(),
    ensures
        final(cmd).wf(),
        final(cmd)@ == old(cmd)@ + literals(name, pair_texts(pairs@)),
{
    let mut i: usize = 0;
    assert(cmd@ =~= old(cmd)@ + literals(name, pair_texts(pairs@).take(0)));
    while i < pairs.len()
        invariant
            i <= pairs@.len(),
            cmd.wf(),
            cmd@ == old(cmd)@ + literals(name, pair_texts(pairs@).take(i as int)),
        decreases pairs@.len() - i,
    {
        let mut setting: String = pairs[i].0.as_str().to_owned();
        setting.append("=");
        setting.append(pairs[i].1.as_str());
        cmd.named(name, setting.as_str());
        proof {
            let next = pair_texts(pairs@).take(i + 1);
            assert(next.drop_last() =~= pair_texts(pairs@).take(i as int));
            assert(next.last() == (pairs@[i as int].0@, pairs@[i as int].1@));
            assert(cmd@ =~= old(cmd)@ + literals(name, next));
        }
        i += 1;
    }
    assert(pair_texts(pairs@).take(pairs@.len() as int) =~= pair_texts(pairs@));
}

/// What an object is filled from: literals, files and a file of variables.
pub open spec fn sources(
    pairs: Seq<(Seq<char>, Seq<char>)>,
    from_file: Seq<Seq<char>>,
    from_env_file: Option<Seq<char>>,
) -> Seq<Piece> {
    literals(" --from-literal=", pairs) + repeated(" --from-file=", from_file) + option(
        " --from-env-file=",
        from_env_file,
    )
}

fn add_sources(
    cmd: &mut CommandLine,
    pairs: &Vec<(String, String)>,
    from_file: &Vec<String>,
    from_env_file: &Option<String>,
)
    requires
        old(cmd).wf(),
    ensures
        final(cmd).wf(),
        final(cmd)@ == old(cmd)@ + sources(
            pair_texts(pairs@),
            texts(from_file@),
            opt_text(*from_env_file),
        ),
{
    add_literals(cmd, " --from-literal=", pairs);
    cmd.repeated(" --from-file=", from_file);
    cmd.option(" --from-env-file=", from_env_file);
    assert(cmd@ =~= old(cmd)@ + sources(
            pair_texts(pairs@),
            texts(from_file@),
            opt_text(*from_env_file),
        ));
}

/// Where and how an object is created.
pub open spec fn creation_flags(
    namespace: Option<String>,
    dry_run: Option<String>,
    context: Option<String>,
) -> Seq<Piece> {
    option(" -n ", opt_text(namespace)) + option(" --dry-run=", opt_text(dry_run)) + context_flag(
        context,
    )
}

fn add_creation_flags(
    cmd: &mut CommandLine,
    namespace: &Option<String>,
    dry_run: &Option<String>,
    context: &Option<String>,
)
    requires
        old(cmd).wf(),
    ensures
        final(cmd).wf(),
        final(cmd)@ == old(cmd)@ + creation_flags(*namespace, *dry_run, *context),
{
    cmd.option(" -n ", namespace);
    cmd.option(" --dry-run=", dry_run);
    add_context(cmd, context);
    assert(cmd@ =~= old(cmd)@ + creation_flags(*namespace, *dry_run, *context));
}

/// Why the creation of an object is refused, whatever it is filled from.
pub open spec fn creation_refusal(
    name: Seq<char>,
    namespace: Option<String>,
    dry_run: Option<String>,
    context: Option<String>,
) -> Option<Refusal> {
    first_of(
        object_name_refusal(name),
        first_of(
            if_some(namespace, |ns: Seq<char>| namespace_refusal(ns)),
            first_of(
                if_some(dry_run, |m: Seq<char>| dry_run_refusal(m)),
                if_some(context, |c: Seq<char>| context_refusal(c)),
            ),
        ),
    )
}

fn check_creation(
    name: &str,
    namespace: &Option<String>,
    dry_run: &Option<String>,
    context: &Option<String>,
) -> (r: Result<(), BridgeError>)
    ensures
        checked(r, creation_refusal(name@, *namespace, *dry_run, *context)),
{
    validate_object_name(name)?;
    if let Some(ns) = namespace {
        KubernetesCommandBuilder::validate_namespace(ns.as_str())?;
    }
    if let Some(m) = dry_run {
        validate_dry_run(m.as_str())?;
    }
    if let Some(c) = context {
        validate_context(c.as_str())?;
    }
    Ok(())
}

/// Why the creation of a config map is refused, if it is: beside what holds of every object, it
/// has to be filled from something.
pub open spec fn configmap_refusal(
    name: Seq<char>,
    pairs: Seq<(Seq<char>, Seq<char>)>,
    from_file: Seq<Seq<char>>,
    from_env_file: Option<String>,
    namespace: Option<String>,
    dry_run: Option<String>,
    context: Option<String>,
) -> Option<Refusal> {
    first_of(
        creation_refusal(name, namespace, dry_run, context),
        unless(
            pairs.len() > 0 || from_file.len() > 0 || from_env_file is Some,
            "at least one of from_literal, from_file or from_env_file is required"@,
        ),
    )
}

pub open spec fn configmap_command(
    bin: Option<String>,
    name: Seq<char>,
    pairs: Seq<(Seq<char>, Seq<char>)>,
    from_file: Seq<Seq<char>>,
    from_env_file: Option<String>,
    namespace: Option<String>,
    dry_run: Option<String>,
    context: Option<String>,
) -> Seq<Piece> {
    kubectl_prefix(bin) + named(" create configmap ", name) + sources(
        pairs,
        from_file,
        opt_text(from_env_file),
    ) + creation_flags(namespace, dry_run, context)
}

/// The kinds of secret.
#[derive(Debug, Clone, Copy, PartialEq, Eq, Structural)]
pub enum SecretKind {
    Generic,
    Tls,
    DockerRegistry,
}

/// The kind of secret that a type name stands for.
pub open spec fn secret_kind(secret_type: Seq<char>) -> Option<SecretKind> {
    if secret_type == "generic"@ || secret_type == "Opaque"@ {
        Some(SecretKind::Generic)
    } else if secret_type == "tls"@ {
        Some(SecretKind::Tls)
    } else if secret_type == "docker-registry"@ {
        Some(SecretKind::DockerRegistry)
    } else {
        None
    }
}

fn parse_secret_kind(secret_type: &str) -> (r: Option<SecretKind>)
    ensures
        r == secret_kind(secret_type@),
{
    if same_text(secret_type, "generic") || same_text(secret_type, "Opaque") {
        Some(SecretKind::Generic)
    } else if same_text(secret_type, "tls") {
        Some(SecretKind::Tls)
    } else if same_text(secret_type, "docker-registry") {
        Some(SecretKind::DockerRegistry)
    } else {
        None
    }
}

/// What a secret is made of.
pub struct SecretParts {
    pub from_literal: Vec<(String, String)>,
    pub from_file: Vec<String>,
    pub from_env_file: Option<String>,
    pub tls_cert: Option<String>,
    pub tls_key: Option<String>,
    pub docker_server: Option<String>,
    pub docker_username: Option<String>,
    pub docker_password: Option<String>,
    pub docker_email: Option<String>,
}

/// The view of [`SecretParts`].
pub struct Parts {
    pub from_literal: Seq<(Seq<char>, Seq<char>)>,
    pub from_file: Seq<Seq<char>>,
    pub from_env_file: Option<Seq<char>>,
    pub tls_cert: Option<Seq<char>>,
    pub tls_key: Option<Seq<char>>,
    pub docker_server: Option<Seq<char>>,
    pub docker_username: Option<Seq<char>>,
    pub docker_password: Option<Seq<char>>,
    pub docker_email: Option<Seq<char>>,
}

impl View for SecretParts {
    type V = Parts;

    open spec fn view(&self) -> Parts {
        Parts {
            from_literal: pair_texts(self.from_literal@),
            from_file: texts(self.from_file@),
            from_env_file: opt_text(self.from_env_file),
            tls_cert: opt_text(self.tls_cert),
            tls_key: opt_text(self.tls_key),
            docker_server: opt_text(self.docker_server),
            docker_username: opt_text(self.docker_username),
            docker_password: opt_text(self.docker_password),
            docker_email: opt_text(self.docker_email),
        }
    }
}

/// Why a secret of the given type cannot be made of its parts, if it cannot: the type has to be
/// known, a TLS secret needs both of its files, and a registry secret needs the server and the
/// account.
pub open spec fn parts_refusal(secret_type: Seq<char>, parts: Parts) -> Option<Refusal> {
    match secret_kind(secret_type) {
        None => Some(
            Refusal::Denied(
                complaint(
                    "Invalid secret type ",
                    secret_type,
                    ". Allowed: generic, Opaque, tls, docker-registry",
                ),
            ),
        ),
        Some(SecretKind::Generic) => None,
        Some(SecretKind::Tls) => unless(
            parts.tls_cert is Some && parts.tls_key is Some,
            "a tls secret requires tls_cert and tls_key"@,
        ),
        Some(SecretKind::DockerRegistry) => unless(
            parts.docker_server is Some && parts.docker_username is Some && parts.docker_password
                is Some,
            "a docker-registry secret requires docker_server, docker_username and docker_password"@,
        ),
    }
}

/// The part of the command that says what the secret is made of. Parts of another kind of secret
/// are left out.
pub open spec fn secret_body(kind: SecretKind, name: Seq<char>, parts: Parts) -> Seq<Piece> {
    match kind {
        SecretKind::Generic => named(" create secret generic ", name) + sources(
            parts.from_literal,
            parts.from_file,
            parts.from_env_file,
        ),
        SecretKind::Tls => named(" create secret tls ", name) + option(" --cert=", parts.tls_cert)
            + option(" --key=", parts.tls_key),
        SecretKind::DockerRegistry => named(" create secret docker-registry ", name) + option(
            " --docker-server=",
            parts.docker_server,
        ) + option(" --docker-username=", parts.docker_username) + option(
            " --docker-password=",
            parts.docker_password,
        ) + option(" --docker-email=", parts.docker_email),
    }
}

/// Why the creation of a secret is refused, if it is.
pub open spec fn secret_refusal(
    name: Seq<char>,
    secret_type: Seq<char>,
    parts: Parts,
    namespace: Option<String>,
    dry_run: Option<String>,
    context: Option<String>,
) -> Option<Refusal> {
    first_of(
        creation_refusal(name, namespace, dry_run, context),
        parts_refusal(secret_type, parts),
    )
}

pub open spec fn secret_command(
    bin: Option<String>,
    name: Seq<char>,
    secret_type: Seq<char>,
    parts: Parts,
    namespace: Option<String>,
    dry_run: Option<String>,
    context: Option<String>,
) -> Seq<Piece> {
    kubectl_prefix(bin) + secret_body(secret_kind(secret_type)->0, name, parts) + creation_flags(
        namespace,
        dry_run,
        context,
    )
}

/// Builds `kubectl` commands.
pub struct KubernetesCommandBuilder;

impl KubernetesCommandBuilder {
    pub fn validate_namespace(ns: &str) -> (r: Result<(), BridgeError>)
        ensures
            checked(r, namespace_refusal(ns@)),
    {
        if in_dns_form(ns, "-", 63) {
            Ok(())
        } else {
            Err(denied("Invalid namespace ", ns, ": must be a DNS-1123 label"))
        }
    }

    pub fn validate_helm_get_subcommand(subcommand: &str) -> (r: Result<(), BridgeError>)
        ensures
            checked(r, helm_get_refusal(subcommand@)),
    {
        if same_text(subcommand, "all") || same_text(subcommand, "values") || same_text(
            subcommand,
            "manifest",
        ) || same_text(subcommand, "hooks") || same_text(subcommand, "notes") || same_text(
            subcommand,
            "metadata",
        ) {
            Ok(())
        } else {
            Err(
                denied(
                    "Invalid helm get subcommand ",
                    subcommand,
                    ". Allowed: all, values, manifest, hooks, notes, metadata",
                ),
            )
        }
    }

    pub fn build_api_resources_command(
        bin: &Option<String>,
        namespaced: Option<bool>,
        api_group: &Option<String>,
        verbs: &Option<String>,
        output: &Option<String>,
        context: &Option<String>,
    ) -> (r: String)
        ensures
            r@ == render(
                api_resources_command(*bin, namespaced, *api_group, *verbs, *output, *context),
            ),
    {
        let mut cmd = kubectl(bin);
        cmd.lit(" api-resources");
        cmd.flag(matches!(namespaced, Some(true)), " --namespaced=true");
        cmd.flag(matches!(namespaced, Some(false)), " --namespaced=false");
        cmd.option(" --api-group=", api_group);
        cmd.option(" --verbs=", verbs);
        cmd.option(" -o ", output);
        add_context(&mut cmd, context);
        cmd.into_text()
    }

    pub fn build_auth_can_i_command(
        bin: &Option<String>,
        verb: &str,
        resource: &str,
        namespace: &Option<String>,
        as_user: &Option<String>,
        context: &Option<String>,
    ) -> (r: String)
        ensures
            r@ == render(
                auth_can_i_command(*bin, verb@, resource@, *namespace, *as_user, *context),
            ),
    {
        let mut cmd = kubectl(bin);
        cmd.named(" auth can-i ", verb);
        cmd.named(" ", resource);
        cmd.option(" -n ", namespace);
        cmd.option(" --as ", as_user);
        add_context(&mut cmd, context);
        cmd.into_text()
    }

    pub fn build_auth_reconcile_command(
        bin: &Option<String>,
        manifest: &str,
        dry_run: bool,
        remove_extra_permissions: bool,
        remove_extra_subjects: bool,
        context: &Option<String>,
    ) -> (r: String)
        ensures
            r@ == render(
                auth_reconcile_command(
                    *bin,
                    manifest@,
                    dry_run,
                    remove_extra_permissions,
                    remove_extra_subjects,
                    *context,
                ),
            ),
    {
        let mut cmd = on_manifest(bin, " auth reconcile", manifest);
        cmd.flag(dry_run, " --dry-run=client");
        cmd.flag(remove_extra_permissions, " --remove-extra-permissions");
        cmd.flag(remove_extra_subjects, " --remove-extra-subjects");
        add_context(&mut cmd, context);
        cmd.into_text()
    }

    pub fn build_auth_whoami_command(
        bin: &Option<String>,
        output: &Option<String>,
        context: &Option<String>,
    ) -> (r: String)
        ensures
            r@ == render(auth_whoami_command(*bin, *output, *context)),
    {
        let mut cmd = kubectl(bin);
        cmd.lit(" auth whoami");
        match output {
            Some(o) => cmd.named(" -o ", o.as_str()),
            None => cmd.named(" -o ", "yaml"),
        }
        add_context(&mut cmd, context);
        cmd.into_text()
    }

    pub fn build_diff_command(
        bin: &Option<String>,
        manifest: &str,
        namespace: &Option<String>,
    ) -> (r: String)
        ensures
            r@ == render(diff_command(*bin, manifest@, *namespace)),
    {
        let mut cmd = on_manifest(bin, " diff", manifest);
        cmd.option(" -n ", namespace);
        cmd.into_text()
    }

    pub fn build_create_token_command(
        bin: &Option<String>,
        service_account: &str,
        namespace: &Option<String>,
        duration: &Option<String>,
        audiences: &Option<Vec<String>>,
        bound_object_kind: &Option<String>,
        bound_object_name: &Option<String>,
        context: &Option<String>,
    ) -> (r: String)
        ensures
            r@ == render(
                create_token_command(
                    *bin,
                    service_account@,
                    *namespace,
                    *duration,
                    *audiences,
                    *bound_object_kind,
                    *bound_object_name,
                    *context,
                ),
            ),
    {
        let mut cmd = kubectl(bin);
        cmd.named(" create token ", service_account);
        cmd.option(" -n ", namespace);
        cmd.option(" --duration ", duration);
        cmd.all(" --audience ", audiences);
        cmd.option(" --bound-object-kind ", bound_object_kind);
        cmd.option(" --bound-object-name ", bound_object_name);
        add_context(&mut cmd, context);
        cmd.into_text()
    }

    pub fn build_connectivity_test_command(
        bin: &Option<String>,
        target_host: &str,
        target_port: u16,
        namespace: &Option<String>,
        image: &Option<String>,
        wait_secs: u64,
        context: &Option<String>,
    ) -> (r: Result<String, BridgeError>)
        ensures
            agrees(
                r,
                command_unless(
                    connectivity_refusal(
                        target_host@,
                        target_port,
                        *namespace,
                        wait_secs,
                        *context,
                    ),
                    connectivity_script(
                        *bin,
                        target_host@,
                        target_port,
                        *namespace,
                        *image,
                        wait_secs,
                        *context,
                    ),
                ),
            ),
    {
        validate_target_host(target_host)?;
        if target_port == 0 {
            return Err(denied_because("target_port must be between 1 and 65535"));
        }
        if let Some(ns) = namespace {
            Self::validate_namespace(ns.as_str())?;
        }
        if wait_secs < 1 || wait_secs > 300 {
            return Err(denied_because("wait_secs must be between 1 and 300"));
        }
        if let Some(c) = context {
            validate_context(c.as_str())?;
        }
        let place: &str = match namespace {
            Some(ns) => ns.as_str(),
            None => "default",
        };
        let pod_image: &str = match image {
            Some(i) => i.as_str(),
            None => PROBE_IMAGE,
        };
        let mut cmd = script(bin);
        cmd.lit("P=conn-probe-$$; if ");
        add_call(&mut cmd, context, " run $P");
        cmd.named(" -n ", place);
        cmd.named(" --image=", pod_image);
        cmd.lit(" --restart=Never --rm -i --pod-running-timeout=");
        cmd.number(wait_secs);
        cmd.lit("s --command -- nc -z -w 5");
        cmd.named(" ", target_host);
        cmd.lit(" ");
        cmd.number(target_port as u64);
        cmd.lit("; then echo REACHABLE; R=0; else echo UNREACHABLE; R=1; fi; ");
        add_call(&mut cmd, context, " delete pod $P --ignore-not-found");
        cmd.named(" -n ", place);
        cmd.lit(" >/dev/null 2>&1; exit $R");
        Ok(cmd.into_text())
    }

    pub fn build_dns_check_command(
        bin: &Option<String>,
        resolve_name: &Option<String>,
        namespace: &Option<String>,
        context: &Option<String>,
    ) -> (r: Result<String, BridgeError>)
        ensures
            agrees(
                r,
                command_unless(
                    dns_check_refusal(*resolve_name, *namespace, *context),
                    dns_check_script(*bin, *resolve_name, *namespace, *context),
                ),
            ),
    {
        if let Some(n) = resolve_name {
            validate_dns_name(n.as_str())?;
        }
        if let Some(ns) = namespace {
            Self::validate_namespace(ns.as_str())?;
        }
        if let Some(c) = context {
            validate_context(c.as_str())?;
        }
        let mut cmd = script(bin);
        cmd.lit("echo === CoreDNS pods ===; ");
        add_call(&mut cmd, context, " get pods -n kube-system -l k8s-app=kube-dns -o wide");
        cmd.lit("; echo === kube-dns service ===; ");
        add_call(&mut cmd, context, " get service kube-dns -n kube-system -o wide");
        cmd.lit("; echo === kube-dns endpoints ===; ");
        add_call(&mut cmd, context, " get endpoints kube-dns -n kube-system");
        cmd.lit("; echo === Corefile ===; ");
        add_call(&mut cmd, context, " get configmap coredns -n kube-system -o yaml");
        if let Some(n) = resolve_name {
            cmd.lit("; echo === DNS resolution ===; ");
            add_call(
                &mut cmd,
                context,
                " run dns-probe-$$ --image=busybox:1.36 --restart=Never --rm -i",
            );
            cmd.option(" -n ", namespace);
            cmd.named(" --command -- nslookup ", n.as_str());
        }
        assert(cmd@ =~= dns_check_script(*bin, *resolve_name, *namespace, *context));
        Ok(cmd.into_text())
    }

    pub fn build_addon_manifests_command(
        bin: &Option<String>,
        manifests_dir: &Option<String>,
        context: &Option<String>,
    ) -> (r: Result<String, BridgeError>)
        ensures
            agrees(
                r,
                command_unless(
                    addon_manifests_refusal(*manifests_dir, *context),
                    addon_manifests_script(*bin, *manifests_dir, *context),
                ),
            ),
    {
        if let Some(d) = manifests_dir {
            validate_path(d.as_str())?;
        }
        if let Some(c) = context {
            validate_context(c.as_str())?;
        }
        let mut cmd = script(bin);
        cmd.lit("echo === auto-deploy manifests ===; ls -la ");
        match manifests_dir {
            Some(d) => cmd.arg(d.as_str()),
            None => cmd.arg(MANIFESTS_DIR),
        }
        cmd.lit("; echo === HelmChart CRDs ===; ");
        add_call(&mut cmd, context, " get helmcharts.helm.cattle.io -A");
        cmd.lit("; echo === HelmChart job status ===; ");
        add_call(
            &mut cmd,
            context,
            " get helmcharts.helm.cattle.io -A -o custom-columns=NAME:.metadata.name,JOB:.status.jobName",
        );
        cmd.lit("; echo === helm-install jobs ===; ");
        add_call(&mut cmd, context, " get jobs -n kube-system -l helmcharts.helm.cattle.io/chart");
        Ok(cmd.into_text())
    }

    pub fn build_servicelb_status_command(
        bin: &Option<String>,
        namespace: &Option<String>,
        context: &Option<String>,
    ) -> (r: Result<String, BridgeError>)
        ensures
            agrees(
                r,
                command_unless(
                    servicelb_refusal(*namespace, *context),
                    servicelb_script(*bin, *namespace, *context),
                ),
            ),
    {
        if let Some(ns) = namespace {
            Self::validate_namespace(ns.as_str())?;
        }
        if let Some(c) = context {
            validate_context(c.as_str())?;
        }
        let mut cmd = script(bin);
        cmd.lit("echo === type=LoadBalancer services ===; ");
        add_call(
            &mut cmd,
            context,
            " get services --field-selector spec.type=LoadBalancer -o wide",
        );
        match namespace {
            Some(ns) => cmd.named(" -n ", ns.as_str()),
            None => cmd.lit(" -A"),
        }
        cmd.lit("; echo === klipper svclb daemonsets ===; ");
        add_call(
            &mut cmd,
            context,
            " get daemonsets -n kube-system -l svccontroller.k3s.cattle.io/svcname -o wide",
        );
        cmd.lit("; echo === svclb pods ===; ");
        add_call(
            &mut cmd,
            context,
            " get pods -n kube-system -l svccontroller.k3s.cattle.io/svcname",
        );
        cmd.named(" -o ", SVCLB_POD_COLUMNS);
        Ok(cmd.into_text())
    }

    pub fn build_create_configmap_command(
        bin: &Option<String>,
        name: &str,
        from_literal: &Vec<(String, String)>,
        from_file: &Vec<String>,
        from_env_file: &Option<String>,
        namespace: &Option<String>,
        dry_run: &Option<String>,
        context: &Option<String>,
    ) -> (r: Result<String, BridgeError>)
        ensures
            agrees(
                r,
                command_unless(
                    configmap_refusal(
                        name@,
                        pair_texts(from_literal@),
                        texts(from_file@),
                        *from_env_file,
                        *namespace,
                        *dry_run,
                        *context,
                    ),
                    configmap_command(
                        *bin,
                        name@,
                        pair_texts(from_literal@),
                        texts(from_file@),
                        *from_env_file,
                        *namespace,
                        *dry_run,
                        *context,
                    ),
                ),
            ),
    {
        check_creation(name, namespace, dry_run, context)?;
        if from_literal.is_empty() && from_file.is_empty() && from_env_file.is_none() {
            return Err(
                denied_because(
                    "at least one of from_literal, from_file or from_env_file is required",
                ),
            );
        }
        let mut cmd = kubectl(bin);
        cmd.named(" create configmap ", name);
        add_sources(&mut cmd, from_literal, from_file, from_env_file);
        add_creation_flags(&mut cmd, namespace, dry_run, context);
        Ok(cmd.into_text())
    }

    pub fn build_create_secret_command(
        bin: &Option<String>,
        name: &str,
        secret_type: &str,
        parts: &SecretParts,
        namespace: &Option<String>,
        dry_run: &Option<String>,
        context: &Option<String>,
    ) -> (r: Result<String, BridgeError>)
        ensures
            agrees(
                r,
                command_unless(
                    secret_refusal(name@, secret_type@, parts@, *namespace, *dry_run, *context),
                    secret_command(
                        *bin,
                        name@,
                        secret_type@,
                        parts@,
                        *namespace,
                        *dry_run,
                        *context,
                    ),
                ),
            ),
    {
        check_creation(name, namespace, dry_run, context)?;
        let kind: SecretKind = match parse_secret_kind(secret_type) {
            Some(kind) => kind,
            None => {
                return Err(
                    denied(
                        "Invalid secret type ",
                        secret_type,
                        ". Allowed: generic, Opaque, tls, docker-registry",
                    ),
                );
            },
        };
        let mut cmd = kubectl(bin);
        match kind {
            SecretKind::Generic => {
                cmd.named(" create secret generic ", name);
                add_sources(
                    &mut cmd,
                    &parts.from_literal,
                    &parts.from_file,
                    &parts.from_env_file,
                );
            },
            SecretKind::Tls => {
                if parts.tls_cert.is_none() || parts.tls_key.is_none() {
                    return Err(denied_because("a tls secret requires tls_cert and tls_key"));
                }
                cmd.named(" create secret tls ", name);
                cmd.option(" --cert=", &parts.tls_cert);
                cmd.option(" --key=", &parts.tls_key);
            },
            SecretKind::DockerRegistry => {
                if parts.docker_server.is_none() || parts.docker_username.is_none()
                    || parts.docker_password.is_none() {
                    return Err(
                        denied_because(
                            "a docker-registry secret requires docker_server, docker_username and docker_password",
                        ),
                    );
                }
                cmd.named(" create secret docker-registry ", name);
                cmd.option(" --docker-server=", &parts.docker_server);
                cmd.option(" --docker-username=", &parts.docker_username);
                cmd.option(" --docker-password=", &parts.docker_password);
                cmd.option(" --docker-email=", &parts.docker_email);
            },
        }
        add_creation_flags(&mut cmd, namespace, dry_run, context);
        assert(cmd@ =~= secret_command(
            *bin,
            name@,
            secret_type@,
            parts@,
            *namespace,
            *dry_run,
            *context,
        ));
        Ok(cmd.into_text())
    }
}

} // verus!
