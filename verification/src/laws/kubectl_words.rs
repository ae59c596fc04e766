//! What the `kubectl` tools tell `kubectl`: the words that a shell reads in their commands.
use crate::builders::kubernetes::{
    context_flag, home_len, image_or_probe, is_file_path, literals, manifest_command,
    namespace_or_default, path_pieces, script_call, script_prefix, secret_body, secret_kind,
    KUBECTL_DETECT, MANIFESTS_DIR,
};
use crate::builders::names::{context_is_inert, valid_context};
use crate::laws::kubernetes::{only_a_home_stands_unquoted, plain_literals, plain_path};
use crate::laws::words::{
    active_joins, apart, arg, blank_adds_no_word, blank_reads, clean, clean_adds_a_word,
    clean_is_one_word, digits_are_one_word, glued, glued_text, glued_to_text, group_words, joint,
    joints, joints_read, name_reads, outside, pair, pairs, pairs_read, piece_renders,
    plain_stays_bare, program, reads, said, separates, starts, switch, text_ends, text_renders,
    text_starts, word, words, words_join, words_of_argument,
};
use crate::shell::{
    all_active, group_plain, is_plain, is_special, lit, named, opt_text, option, plain, plain_bin,
    plain_pieces, render, render_joins, texts, Mark, Piece,
};
use crate::text::{decimal, has_prefix};
use crate::tool::StandardTool;
use crate::tools::ssh_k3s_addon_manifests::{K3sAddonManifests, SshK3sAddonManifestsArgs};
use crate::tools::ssh_k3s_servicelb_status::{K3sServicelbStatus, SshK3sServicelbStatusArgs};
use crate::tools::ssh_k8s_api_resources::{K8sApiResourcesTool, SshK8sApiResourcesArgs};
use crate::tools::ssh_k8s_auth_can_i::{K8sAuthCanITool, SshK8sAuthCanIArgs};
use crate::tools::ssh_k8s_auth_reconcile::{K8sAuthReconcileTool, SshK8sAuthReconcileArgs};
use crate::tools::ssh_k8s_auth_whoami::{K8sAuthWhoamiTool, SshK8sAuthWhoamiArgs};
use crate::tools::ssh_k8s_connectivity_test::{K8sConnectivityTest, SshK8sConnectivityTestArgs};
use crate::tools::ssh_k8s_create_configmap::{K8sCreateConfigmapTool, SshK8sCreateConfigmapArgs};
use crate::tools::ssh_k8s_create_secret::{
    literal_texts, K8sCreateSecretTool, SshK8sCreateSecretArgs,
};
use crate::tools::ssh_k8s_create_token::{K8sCreateTokenTool, SshK8sCreateTokenArgs};
use crate::tools::ssh_k8s_diff::{K8sDiffTool, SshK8sDiffArgs};
use crate::tools::ssh_k8s_dns_check::{K8sDnsCheck, SshK8sDnsCheckArgs};
use vstd::prelude::*;

verus! {

proof fn kubectl_reads()
    ensures
        reads(" api-resources", seq![word("api-resources")], false),
        reads(" --namespaced=true", seq![word("--namespaced=true")], false),
        reads(" --namespaced=false", seq![word("--namespaced=false")], false),
        reads(" --api-group=", seq![word("--api-group=")], false),
        reads(" --verbs=", seq![word("--verbs=")], false),
        reads(" -o ", seq![word("-o")], true),
        reads(" ", seq![], true),
        reads(" -n ", seq![word("-n")], true),
        reads(" --as ", seq![word("--as")], true),
        reads(" --dry-run=client", seq![word("--dry-run=client")], false),
        reads(" --remove-extra-permissions", seq![word("--remove-extra-permissions")], false),
        reads(" --remove-extra-subjects", seq![word("--remove-extra-subjects")], false),
        reads(" --duration ", seq![word("--duration")], true),
        reads(" --audience ", seq![word("--audience")], true),
        reads(" --bound-object-kind ", seq![word("--bound-object-kind")], true),
        reads(" --bound-object-name ", seq![word("--bound-object-name")], true),
        reads(" --from-literal=", seq![word("--from-literal=")], false),
        reads(" --from-file=", seq![word("--from-file=")], false),
        reads(" --from-env-file=", seq![word("--from-env-file=")], false),
        reads(" --dry-run=", seq![word("--dry-run=")], false),
        reads(" --cert=", seq![word("--cert=")], false),
        reads(" --key=", seq![word("--key=")], false),
        reads(" --docker-server=", seq![word("--docker-server=")], false),
        reads(" --docker-username=", seq![word("--docker-username=")], false),
        reads(" --docker-password=", seq![word("--docker-password=")], false),
        reads(" --docker-email=", seq![word("--docker-email=")], false),
        reads(" -f ", seq![word("-f")], true),
        reads(" diff", seq![word("diff")], false),
        reads(" --context=", seq![word("--context=")], false),
        reads(" --image=", seq![word("--image=")], false),
        reads(" -A", seq![word("-A")], false),
        starts(" auth can-i ", true),
        starts(" auth reconcile", false),
        starts(" auth whoami", false),
        starts(" create token ", true),
        starts(" create configmap ", true),
        starts(" create secret generic ", true),
        starts(" create secret tls ", true),
        starts(" create secret docker-registry ", true),
        starts(" | ", true),
        starts(" -f -", false),
        starts(" run $P", false),
        starts(" --restart=Never --rm -i --pod-running-timeout=", false),
        starts("; then echo REACHABLE; R=0; else echo UNREACHABLE; R=1; fi; ", true),
        starts(" delete pod $P --ignore-not-found", false),
        starts(" >/dev/null 2>&1; exit $R", false),
        starts(" get pods -n kube-system -l k8s-app=kube-dns -o wide", false),
        starts("; echo === kube-dns service ===; ", true),
        starts(" get service kube-dns -n kube-system -o wide", false),
        starts("; echo === kube-dns endpoints ===; ", true),
        starts(" get endpoints kube-dns -n kube-system", false),
        starts("; echo === Corefile ===; ", true),
        starts(" get configmap coredns -n kube-system -o yaml", false),
        starts("; echo === DNS resolution ===; ", true),
        starts(" run dns-probe-$$ --image=busybox:1.36 --restart=Never --rm -i", false),
        starts(" --command -- nslookup ", true),
        starts("; echo === HelmChart CRDs ===; ", true),
        starts(" get helmcharts.helm.cattle.io -A", false),
        starts("; echo === HelmChart job status ===; ", true),
        starts(" get helmcharts.helm.cattle.io -A -o custom-columns=NAME:.metadata.name,JOB:.status.jobName", false),
        starts("; echo === helm-install jobs ===; ", true),
        starts(" get jobs -n kube-system -l helmcharts.helm.cattle.io/chart", false),
        starts(" get services --field-selector spec.type=LoadBalancer -o wide", false),
        starts("; echo === klipper svclb daemonsets ===; ", true),
        starts(" get daemonsets -n kube-system -l svccontroller.k3s.cattle.io/svcname -o wide",
            false),
        starts("; echo === svclb pods ===; ", true),
        starts(" get pods -n kube-system -l svccontroller.k3s.cattle.io/svcname", false),
        starts("; ", true),
        plain(KUBECTL_DETECT@),
{
    reveal_strlit(" api-resources");
    reveal_strlit("api-resources");
    reveal_strlit(" --namespaced=true");
    reveal_strlit("--namespaced=true");
    reveal_strlit(" --namespaced=false");
    reveal_strlit("--namespaced=false");
    reveal_strlit(" --api-group=");
    reveal_strlit("--api-group=");
    reveal_strlit(" --verbs=");
    reveal_strlit("--verbs=");
    reveal_strlit(" -o ");
    reveal_strlit("-o");
    reveal_strlit(" ");
    reveal_strlit(" -n ");
    reveal_strlit("-n");
    reveal_strlit(" --as ");
    reveal_strlit("--as");
    reveal_strlit(" --dry-run=client");
    reveal_strlit("--dry-run=client");
    reveal_strlit(" --remove-extra-permissions");
    reveal_strlit("--remove-extra-permissions");
    reveal_strlit(" --remove-extra-subjects");
    reveal_strlit("--remove-extra-subjects");
    reveal_strlit(" --duration ");
    reveal_strlit("--duration");
    reveal_strlit(" --audience ");
    reveal_strlit("--audience");
    reveal_strlit(" --bound-object-kind ");
    reveal_strlit("--bound-object-kind");
    reveal_strlit(" --bound-object-name ");
    reveal_strlit("--bound-object-name");
    reveal_strlit(" --from-literal=");
    reveal_strlit("--from-literal=");
    reveal_strlit(" --from-file=");
    reveal_strlit("--from-file=");
    reveal_strlit(" --from-env-file=");
    reveal_strlit("--from-env-file=");
    reveal_strlit(" --dry-run=");
    reveal_strlit("--dry-run=");
    reveal_strlit(" --cert=");
    reveal_strlit("--cert=");
    reveal_strlit(" --key=");
    reveal_strlit("--key=");
    reveal_strlit(" --docker-server=");
    reveal_strlit("--docker-server=");
    reveal_strlit(" --docker-username=");
    reveal_strlit("--docker-username=");
    reveal_strlit(" --docker-password=");
    reveal_strlit("--docker-password=");
    reveal_strlit(" --docker-email=");
    reveal_strlit("--docker-email=");
    reveal_strlit(" -f ");
    reveal_strlit("-f");
    reveal_strlit(" diff");
    reveal_strlit("diff");
    reveal_strlit(" --context=");
    reveal_strlit("--context=");
    reveal_strlit(" --image=");
    reveal_strlit("--image=");
    reveal_strlit(" -A");
    reveal_strlit("-A");
    reveal_strlit(" auth can-i ");
    reveal_strlit(" auth reconcile");
    reveal_strlit(" auth whoami");
    reveal_strlit(" create token ");
    reveal_strlit(" create configmap ");
    reveal_strlit(" create secret generic ");
    reveal_strlit(" create secret tls ");
    reveal_strlit(" create secret docker-registry ");
    reveal_strlit(" | ");
    reveal_strlit(" -f -");
    reveal_strlit(" run $P");
    reveal_strlit(" --restart=Never --rm -i --pod-running-timeout=");
    reveal_strlit("; then echo REACHABLE; R=0; else echo UNREACHABLE; R=1; fi; ");
    reveal_strlit(" delete pod $P --ignore-not-found");
    reveal_strlit(" >/dev/null 2>&1; exit $R");
    reveal_strlit(" get pods -n kube-system -l k8s-app=kube-dns -o wide");
    reveal_strlit("; echo === kube-dns service ===; ");
    reveal_strlit(" get service kube-dns -n kube-system -o wide");
    reveal_strlit("; echo === kube-dns endpoints ===; ");
    reveal_strlit(" get endpoints kube-dns -n kube-system");
    reveal_strlit("; echo === Corefile ===; ");
    reveal_strlit(" get configmap coredns -n kube-system -o yaml");
    reveal_strlit("; echo === DNS resolution ===; ");
    reveal_strlit(" run dns-probe-$$ --image=busybox:1.36 --restart=Never --rm -i");
    reveal_strlit(" --command -- nslookup ");
    reveal_strlit("; echo === HelmChart CRDs ===; ");
    reveal_strlit(" get helmcharts.helm.cattle.io -A");
    reveal_strlit("; echo === HelmChart job status ===; ");
    reveal_strlit(
        " get helmcharts.helm.cattle.io -A -o custom-columns=NAME:.metadata.name,JOB:.status.jobName");
    reveal_strlit("; echo === helm-install jobs ===; ");
    reveal_strlit(" get jobs -n kube-system -l helmcharts.helm.cattle.io/chart");
    reveal_strlit(" get services --field-selector spec.type=LoadBalancer -o wide");
    reveal_strlit("; echo === klipper svclb daemonsets ===; ");
    reveal_strlit(" get daemonsets -n kube-system -l svccontroller.k3s.cattle.io/svcname -o wide");
    reveal_strlit("; echo === svclb pods ===; ");
    reveal_strlit(" get pods -n kube-system -l svccontroller.k3s.cattle.io/svcname");
    reveal_strlit("; ");
    reveal_strlit(
        "$(if command -v kubectl >/dev/null 2>&1; then echo kubectl; elif command -v k3s >/dev/null 2>&1; then echo k3s kubectl; else echo microk8s kubectl; fi)");
    name_reads(" api-resources", "api-resources", false);
    name_reads(" --namespaced=true", "--namespaced=true", false);
    name_reads(" --namespaced=false", "--namespaced=false", false);
    name_reads(" --api-group=", "--api-group=", false);
    name_reads(" --verbs=", "--verbs=", false);
    name_reads(" -o ", "-o", true);
    blank_reads(" ");
    name_reads(" -n ", "-n", true);
    name_reads(" --as ", "--as", true);
    name_reads(" --dry-run=client", "--dry-run=client", false);
    name_reads(" --remove-extra-permissions", "--remove-extra-permissions", false);
    name_reads(" --remove-extra-subjects", "--remove-extra-subjects", false);
    name_reads(" --duration ", "--duration", true);
    name_reads(" --audience ", "--audience", true);
    name_reads(" --bound-object-kind ", "--bound-object-kind", true);
    name_reads(" --bound-object-name ", "--bound-object-name", true);
    name_reads(" --from-literal=", "--from-literal=", false);
    name_reads(" --from-file=", "--from-file=", false);
    name_reads(" --from-env-file=", "--from-env-file=", false);
    name_reads(" --dry-run=", "--dry-run=", false);
    name_reads(" --cert=", "--cert=", false);
    name_reads(" --key=", "--key=", false);
    name_reads(" --docker-server=", "--docker-server=", false);
    name_reads(" --docker-username=", "--docker-username=", false);
    name_reads(" --docker-password=", "--docker-password=", false);
    name_reads(" --docker-email=", "--docker-email=", false);
    name_reads(" -f ", "-f", true);
    name_reads(" diff", "diff", false);
    name_reads(" --context=", "--context=", false);
    name_reads(" --image=", "--image=", false);
    name_reads(" -A", "-A", false);
    text_starts(" auth can-i ");
    text_starts(" auth reconcile");
    text_starts(" auth whoami");
    text_starts(" create token ");
    text_starts(" create configmap ");
    text_starts(" create secret generic ");
    text_starts(" create secret tls ");
    text_starts(" create secret docker-registry ");
    text_starts(" | ");
    text_starts(" -f -");
    text_starts(" run $P");
    text_starts(" --restart=Never --rm -i --pod-running-timeout=");
    text_starts("; then echo REACHABLE; R=0; else echo UNREACHABLE; R=1; fi; ");
    text_starts(" delete pod $P --ignore-not-found");
    text_starts(" >/dev/null 2>&1; exit $R");
    text_starts(" get pods -n kube-system -l k8s-app=kube-dns -o wide");
    text_starts("; echo === kube-dns service ===; ");
    text_starts(" get service kube-dns -n kube-system -o wide");
    text_starts("; echo === kube-dns endpoints ===; ");
    text_starts(" get endpoints kube-dns -n kube-system");
    text_starts("; echo === Corefile ===; ");
    text_starts(" get configmap coredns -n kube-system -o yaml");
    text_starts("; echo === DNS resolution ===; ");
    text_starts(" run dns-probe-$$ --image=busybox:1.36 --restart=Never --rm -i");
    text_starts(" --command -- nslookup ");
    text_starts("; echo === HelmChart CRDs ===; ");
    text_starts(" get helmcharts.helm.cattle.io -A");
    text_starts("; echo === HelmChart job status ===; ");
    text_starts(
        " get helmcharts.helm.cattle.io -A -o custom-columns=NAME:.metadata.name,JOB:.status.jobName");
    text_starts("; echo === helm-install jobs ===; ");
    text_starts(" get jobs -n kube-system -l helmcharts.helm.cattle.io/chart");
    text_starts(" get services --field-selector spec.type=LoadBalancer -o wide");
    text_starts("; echo === klipper svclb daemonsets ===; ");
    text_starts(" get daemonsets -n kube-system -l svccontroller.k3s.cattle.io/svcname -o wide");
    text_starts("; echo === svclb pods ===; ");
    text_starts(" get pods -n kube-system -l svccontroller.k3s.cattle.io/svcname");
    text_starts("; ");
}

proof fn starts_read()
    ensures
        plain("echo "@),
        outside("echo "@) == true,
        "echo "@.len() > 0,
        plain("K="@),
        outside("K="@) == false,
        "K="@.len() > 0,
        plain("P=conn-probe-$$; if "@),
        outside("P=conn-probe-$$; if "@) == true,
        "P=conn-probe-$$; if "@.len() > 0,
        plain("$K"@),
        outside("$K"@) == false,
        "$K"@.len() > 0,
        plain("echo === CoreDNS pods ===; "@),
        outside("echo === CoreDNS pods ===; "@) == true,
        "echo === CoreDNS pods ===; "@.len() > 0,
        plain("echo === auto-deploy manifests ===; ls -la "@),
        outside("echo === auto-deploy manifests ===; ls -la "@) == true,
        "echo === auto-deploy manifests ===; ls -la "@.len() > 0,
        plain("echo === type=LoadBalancer services ===; "@),
        outside("echo === type=LoadBalancer services ===; "@) == true,
        "echo === type=LoadBalancer services ===; "@.len() > 0,
{
    reveal_strlit("echo ");
    text_ends("echo ");
    reveal_strlit("K=");
    text_ends("K=");
    reveal_strlit("P=conn-probe-$$; if ");
    text_ends("P=conn-probe-$$; if ");
    reveal_strlit("$K");
    text_ends("$K");
    reveal_strlit("echo === CoreDNS pods ===; ");
    text_ends("echo === CoreDNS pods ===; ");
    reveal_strlit("echo === auto-deploy manifests ===; ls -la ");
    text_ends("echo === auto-deploy manifests ===; ls -la ");
    reveal_strlit("echo === type=LoadBalancer services ===; ");
    text_ends("echo === type=LoadBalancer services ===; ");
}

/// The words by which a context is chosen.
pub open spec fn in_context(context: Option<String>) -> Seq<Seq<(char, Mark)>> {
    match context {
        Some(c) => seq![word("--context=") + all_active(c@)],
        None => seq![],
    }
}

proof fn context_reads(context: Option<String>)
    requires
        context matches Some(c) ==> valid_context(c@),
    ensures
        words(render(context_flag(context))) == in_context(context),
        apart(render(context_flag(context))),
        plain_pieces(context_flag(context)),
{
    broadcast use {group_words, group_plain};

    kubectl_reads();
    if let Some(c) = context {
        context_is_inert(c@);
        assert forall|i: int| 0 <= i < c@.len() implies is_plain(#[trigger] c@[i]) && !separates(
            c@[i],
        ) by {
            assert(!is_special(c@[i]));
        }
        clean_is_one_word(c@);
        glued_text(" --context=", c@);
        assert(glued(seq![word("--context=")], seq![all_active(c@)]) =~= in_context(context));
    }
}

/// The words of a script's start, where `K` is set to the program.
pub open spec fn script_start(bin: Option<String>) -> Seq<Seq<(char, Mark)>> {
    (match bin {
        Some(b) => seq![word("K=") + arg(b@)],
        None => words("K="@ + KUBECTL_DETECT@),
    }) + words("; "@)
}

proof fn script_reads(bin: Option<String>)
    ensures
        words(render(script_prefix(bin))) == script_start(bin),
        plain_pieces(script_prefix(bin)),
        outside(render(script_prefix(bin))),
{
    broadcast use {group_words, group_plain};

    kubectl_reads();
    starts_read();
    match bin {
        Some(b) => {
            reveal_strlit("K=");
            assert(lit("K=") + seq![Piece::Arg(b@)] =~= named("K=", b@));
            assert(clean("K="@));
            clean_is_one_word("K="@);
            assert(words(render(named("K=", b@))) == seq![word("K=") + arg(b@)]);
        },
        None => {
            render_joins(lit("K="), lit(KUBECTL_DETECT));
            assert(render(lit("K=")) =~= "K="@) by {
                assert(lit("K=").drop_last() =~= Seq::<Piece>::empty());
                reveal_with_fuel(render, 2);
            }
            assert(render(lit(KUBECTL_DETECT)) =~= KUBECTL_DETECT@) by {
                assert(lit(KUBECTL_DETECT).drop_last() =~= Seq::<Piece>::empty());
                reveal_with_fuel(render, 2);
            }
        },
    }
}

/// The words of one call of the program that `K` stands for: the context stands directly behind
/// it.
pub open spec fn call(context: Option<String>, rest: &str) -> Seq<Seq<(char, Mark)>> {
    seq![word("$K")] + in_context(context) + words(rest@)
}

proof fn call_reads(context: Option<String>, rest: &str)
    requires
        context matches Some(c) ==> valid_context(c@),
        starts(rest, false),
    ensures
        words(render(script_call(context, rest))) == call(context, rest),
        plain_pieces(script_call(context, rest)),
{
    broadcast use {group_words, group_plain};

    starts_read();
    context_reads(context);
    reveal_strlit("$K");
    assert(clean("$K"@));
    clean_is_one_word("$K"@);
}

/// The namespace of a probe.
pub open spec fn probe_namespace(namespace: Option<String>) -> Seq<char> {
    if let Some(ns) = namespace {
        ns@
    } else {
        "default"@
    }
}

/// The image of a probe.
pub open spec fn probe_image(image: Option<String>) -> Seq<char> {
    if let Some(i) = image {
        i@
    } else {
        "busybox:1.36"@
    }
}

/// A manifest that is taken for the path of a file.
pub open spec fn names_a_file(manifest: Seq<char>) -> bool {
    manifest.len() > 0 && (manifest[0] == '/' || manifest[0] == '~' || (manifest[0] == '.'
        && manifest.len() > 1 && manifest[1] == '/'))
}

/// The words of a command that reads a manifest: from the file that is named, or else from the
/// manifest as it stands.
pub open spec fn with_manifest(bin: Option<String>, verb: &str, manifest: Seq<char>) -> Seq<
    Seq<(char, Mark)>,
> {
    if names_a_file(manifest) {
        program(bin, KUBECTL_DETECT) + words(verb@) + seq![word("-f")] + seq![
            all_active(manifest.take(home_len(manifest))) + arg(
                manifest.skip(home_len(manifest)),
            ),
        ]
    } else {
        words("echo "@).push(arg(manifest)) + words(" | "@) + program(bin, KUBECTL_DETECT) + words(
            verb@,
        ) + words(" -f -"@)
    }
}

proof fn path_reads(path: Seq<char>)
    ensures
        words(render(path_pieces(path))) == seq![
            all_active(path.take(home_len(path))) + arg(path.skip(home_len(path))),
        ],
{
    let n = home_len(path);
    only_a_home_stands_unquoted(path);
    if n > 0 {
        let home = path.take(n);
        let user = path.subrange(1, n - 1);
        assert forall|i: int| 0 <= i < home.len() implies is_plain(#[trigger] home[i])
            && !separates(home[i]) by {
            assert(home[i] == path[i]);
            if 0 < i < n - 1 {
                assert(user[i - 1] == path[i]);
                assert(!is_special(user[i - 1]));
            }
        }
        clean_is_one_word(home);
        glued_to_text(home, path.skip(n));
        assert(glued(seq![all_active(home)], seq![arg(path.skip(n))]) =~= seq![
            all_active(home) + arg(path.skip(n)),
        ]);
    } else {
        words_of_argument(path);
        assert(path.take(0) =~= Seq::<char>::empty());
        assert(path.skip(0) =~= path);
        assert(all_active(path.take(0)) + arg(path) =~= arg(path));
    }
}

proof fn manifest_reads(bin: Option<String>, verb: &str, manifest: Seq<char>)
    requires
        plain_bin(bin),
        starts(verb, false),
    ensures
        words(render(manifest_command(bin, verb, manifest))) == with_manifest(bin, verb, manifest),
        plain_pieces(manifest_command(bin, verb, manifest)),
{
    broadcast use {group_words, group_plain, plain_path};

    kubectl_reads();
    starts_read();
    path_reads(manifest);
    reveal_strlit("/");
    reveal_strlit("./");
    reveal_strlit("~");
    assert(names_a_file(manifest) == is_file_path(manifest)) by {
        if manifest.len() > 0 {
            assert(manifest.take(1) =~= seq![manifest[0]]);
        }
        if manifest.len() > 1 {
            assert(manifest.take(2)[0] == manifest[0] && manifest.take(2)[1] == manifest[1]);
            if manifest[0] == '.' && manifest[1] == '/' {
                assert(manifest.take(2) =~= "./"@);
            }
        }
        if manifest.len() > 0 && manifest[0] == '/' {
            assert(manifest.take(1) =~= "/"@);
        }
        if manifest.len() > 0 && manifest[0] == '~' {
            assert(manifest.take(1) =~= "~"@);
        }
        if has_prefix(manifest, "/"@) {
            assert(manifest[0] == manifest.take(1)[0]);
        }
        if has_prefix(manifest, "~"@) {
            assert(manifest[0] == manifest.take(1)[0]);
        }
    }
}

/// The literals of an object, each as one word with its key and its value.
pub open spec fn from_literals(entries: Seq<(Seq<char>, Seq<char>)>) -> Seq<Seq<(char, Mark)>> {
    Seq::new(
        entries.len(),
        |i: int| word("--from-literal=") + arg(entries[i].0 + "="@ + entries[i].1),
    )
}

proof fn literals_read(entries: Seq<(Seq<char>, Seq<char>)>)
    ensures
        words(render(literals(" --from-literal=", entries))) == from_literals(entries),
        apart(render(literals(" --from-literal=", entries))),
        plain_pieces(literals(" --from-literal=", entries)),
    decreases entries.len(),
{
    broadcast use {group_words, group_plain};

    kubectl_reads();
    plain_literals(" --from-literal=", entries);
    if entries.len() > 0 {
        literals_read(entries.drop_last());
        let front = literals(" --from-literal=", entries.drop_last());
        let setting = entries.last().0 + "="@ + entries.last().1;
        let last = named(" --from-literal=", setting);
        assert(words(render(front + last)) == words(render(front)) + words(render(last)));
        assert(words(render(last)) == seq![word("--from-literal=") + arg(setting)]);
    }
    assert(words(render(literals(" --from-literal=", entries))) =~= from_literals(entries));
}

/// The words that say what a secret is made of, by its type.
pub open spec fn secret_words(args: SshK8sCreateSecretArgs) -> Seq<Seq<(char, Mark)>> {
    match args.secret_type {
        Some(t) => if t@ == "tls"@ {
            words(" create secret tls "@).push(arg(args.name@)) + joint("--cert=", args.tls_cert)
                + joint("--key=", args.tls_key)
        } else if t@ == "docker-registry"@ {
            words(" create secret docker-registry "@).push(arg(args.name@)) + joint(
                "--docker-server=",
                args.docker_server,
            ) + joint("--docker-username=", args.docker_username) + (match args.docker_password {
                Some(p) => seq![word("--docker-password=") + arg(p@)],
                None => seq![],
            }) + joint("--docker-email=", args.docker_email)
        } else {
            generic_words(args)
        },
        None => generic_words(args),
    }
}

/// The words that say what a secret of no special type is made of.
pub open spec fn generic_words(args: SshK8sCreateSecretArgs) -> Seq<Seq<(char, Mark)>> {
    words(" create secret generic "@).push(arg(args.name@)) + (from_literals(
        Seq::new(
            args.from_literal@.len(),
            |i: int| (args.from_literal@[i].key@, args.from_literal@[i].value@),
        ),
    ) + joints(
        "--from-file=",
        Seq::new(args.from_file@.len(), |i: int| args.from_file@[i]@),
    ) + joint("--from-env-file=", args.from_env_file))
}

/// The type that a secret has where none is given.
pub open spec fn given_type(args: SshK8sCreateSecretArgs) -> Seq<char> {
    if let Some(t) = args.secret_type {
        t@
    } else {
        "generic"@
    }
}

proof fn secret_reads(args: SshK8sCreateSecretArgs)
    requires
        secret_kind(given_type(args)) is Some,
    ensures
        ({
            let body = secret_body(
                secret_kind(given_type(args))->0,
                args.name@,
                crate::tools::ssh_k8s_create_secret::parts_of(args),
            );
            &&& words(render(body)) == secret_words(args)
            &&& apart(render(body))
            &&& plain_pieces(body)
        }),
{
    broadcast use {group_words, group_plain, plain_literals};

    kubectl_reads();
    reveal_strlit("generic");
    reveal_strlit("Opaque");
    reveal_strlit("tls");
    reveal_strlit("docker-registry");
    assert("generic"@.len() == 7 && "Opaque"@.len() == 6);
    assert("tls"@.len() == 3 && "docker-registry"@.len() == 15);
    literals_read(literal_texts(args.from_literal@));
    joints_read(" --from-file=", "--from-file=", texts(args.from_file@));
    assert(texts(args.from_file@) =~= Seq::new(
        args.from_file@.len(),
        |i: int| args.from_file@[i]@,
    ));
    assert(literal_texts(args.from_literal@) =~= Seq::new(
        args.from_literal@.len(),
        |i: int| (args.from_literal@[i].key@, args.from_literal@[i].value@),
    ));
}

proof fn timeout_reads(wait_secs: u64)
    ensures
        ({
            let pieces = lit(" --restart=Never --rm -i --pod-running-timeout=") + seq![
                Piece::Lit(decimal(wait_secs as nat)),
            ] + lit("s --command -- nc -z -w 5");
            &&& words(render(pieces)) == words(" --restart=Never --rm -i"@).push(
                word("--pod-running-timeout=") + all_active(decimal(wait_secs as nat)) + word("s"),
            ) + words(" --command -- nc -z -w 5"@)
            &&& apart(render(pieces))
            &&& plain_pieces(pieces)
        }),
{
    broadcast use group_plain;

    let d = decimal(wait_secs as nat);
    let head = " --restart=Never --rm -i"@;
    let name = "--pod-running-timeout="@;
    let tail = " --command -- nc -z -w 5"@;
    reveal_strlit(" --restart=Never --rm -i --pod-running-timeout=");
    reveal_strlit(" --restart=Never --rm -i");
    reveal_strlit("--pod-running-timeout=");
    reveal_strlit("s --command -- nc -z -w 5");
    reveal_strlit(" --command -- nc -z -w 5");
    reveal_strlit("s");
    digits_are_one_word(wait_secs as nat);
    let a = lit(" --restart=Never --rm -i --pod-running-timeout=");
    let b = seq![Piece::Lit(d)];
    let c = lit("s --command -- nc -z -w 5");
    render_joins(a, b);
    render_joins(a + b, c);
    text_renders(" --restart=Never --rm -i --pod-running-timeout=");
    text_renders("s --command -- nc -z -w 5");
    piece_renders(Piece::Lit(d));
    let w = name + d + "s"@;
    let all = render(a + b + c);
    assert(all =~= head + seq![' '] + w + tail);
    assert forall|i: int| 0 <= i < w.len() implies is_plain(#[trigger] w[i]) && !separates(
        w[i],
    ) by {
        if name.len() <= i < name.len() + d.len() {
            assert(w[i] == d[i - name.len()]);
        }
    }
    blank_adds_no_word(head);
    clean_adds_a_word(head + seq![' '], w);
    plain_stays_bare(head + seq![' '] + w);
    words_join(head + seq![' '] + w, tail);
    active_joins(name, d);
    active_joins(name + d, "s"@);
    assert(all[0] == ' ');
}

proof fn probe_reads(front: Seq<Piece>, wait_secs: u64, host: Seq<char>, port: u16)
    requires
        plain_pieces(front),
    ensures
        ({
            let pieces = front + lit(" --restart=Never --rm -i --pod-running-timeout=") + seq![
                Piece::Lit(decimal(wait_secs as nat)),
            ] + lit("s --command -- nc -z -w 5") + named(" ", host) + lit(" ") + seq![
                Piece::Lit(decimal(port as nat)),
            ];
            &&& words(render(pieces)) == words(render(front)) + (words(
                " --restart=Never --rm -i"@,
            ).push(
                word("--pod-running-timeout=") + all_active(decimal(wait_secs as nat)) + word("s"),
            ) + words(" --command -- nc -z -w 5"@)) + seq![arg(host)] + seq![
                all_active(decimal(port as nat)),
            ]
            &&& plain_pieces(pieces)
        }),
{
    broadcast use {group_words, group_plain};

    kubectl_reads();
    timeout_reads(wait_secs);
    digits_are_one_word(port as nat);
    let a = lit(" --restart=Never --rm -i --pod-running-timeout=");
    let b = seq![Piece::Lit(decimal(wait_secs as nat))];
    let c = lit("s --command -- nc -z -w 5");
    let d = named(" ", host);
    let e = seq![Piece::Lit(decimal(port as nat))];
    let mid = front + (a + b + c);
    assert(front + a + b + c =~= mid);
    assert(words(render(mid)) == words(render(front)) + words(render(a + b + c)));
    assert(words(render(d)) =~= seq![arg(host)]);
    assert(words(render(mid + d)) == words(render(mid)) + words(render(d)));
    assert(words(render(mid + d + lit(" "))) == words(render(mid + d)) + words(render(lit(" "))));
    assert(words(render(mid + d + lit(" "))) =~= words(render(mid + d)));
    assert(outside(render(mid + d + lit(" "))));
    assert(words(render(mid + d + lit(" ") + e)) == words(render(mid + d + lit(" "))) + words(
        render(e),
    ));
}

/// The resources are listed by the filters that are asked for, in the context that is asked for.
pub proof fn api_resources_are_told(args: SshK8sApiResourcesArgs)
    requires
        plain_bin(args.kubectl_bin),
        K8sApiResourcesTool::command(args) is Ok,
    ensures
        K8sApiResourcesTool::command(args) matches Ok(text)
            && words(text) == program(args.kubectl_bin, KUBECTL_DETECT)
            + seq![word("api-resources")] + switch(
            args.namespaced == Some(true),
            "--namespaced=true",
        ) + switch(args.namespaced == Some(false), "--namespaced=false") + joint(
            "--api-group=",
            args.api_group,
        ) + joint("--verbs=", args.verbs) + pair("-o", args.output) + in_context(args.context),
{
    broadcast use {group_words, group_plain};

    kubectl_reads();
    starts_read();
    context_reads(args.context);
}

/// The question is whether the verb that is asked for is allowed on the resource that is asked for,
/// in the namespace, for the user and in the context that are asked for.
pub proof fn can_i_is_told(args: SshK8sAuthCanIArgs)
    requires
        plain_bin(args.kubectl_bin),
        K8sAuthCanITool::command(args) is Ok,
    ensures
        K8sAuthCanITool::command(args) matches Ok(text)
            && words(text) == program(args.kubectl_bin, KUBECTL_DETECT)
            + words(" auth can-i "@).push(arg(args.verb@))
            + seq![arg(args.resource@)] + pair("-n", args.namespace) + pair(
            "--as",
            args.as_user,
        ) + in_context(args.context),
{
    broadcast use {group_words, group_plain};

    kubectl_reads();
    starts_read();
    context_reads(args.context);
}

/// The manifest that is asked for is reconciled, and nothing is really changed where a dry run is
/// asked for. What the manifest does not name is removed on request only.
pub proof fn reconcile_is_told(args: SshK8sAuthReconcileArgs)
    requires
        plain_bin(args.kubectl_bin),
        K8sAuthReconcileTool::command(args) is Ok,
    ensures
        K8sAuthReconcileTool::command(args) matches Ok(text)
            && words(text) == with_manifest(args.kubectl_bin, " auth reconcile", args.manifest@)
            + switch(args.dry_run, "--dry-run=client") + switch(
            args.remove_extra_permissions,
            "--remove-extra-permissions",
        ) + switch(args.remove_extra_subjects, "--remove-extra-subjects")
            + in_context(args.context),
{
    broadcast use {group_words, group_plain};

    kubectl_reads();
    starts_read();
    context_reads(args.context);
    manifest_reads(args.kubectl_bin, " auth reconcile", args.manifest@);
}

/// The identity is shown in the form and in the context that are asked for.
pub proof fn whoami_is_told(args: SshK8sAuthWhoamiArgs)
    requires
        plain_bin(args.kubectl_bin),
        K8sAuthWhoamiTool::command(args) is Ok,
    ensures
        K8sAuthWhoamiTool::command(args) matches Ok(text)
            && words(text) == program(args.kubectl_bin, KUBECTL_DETECT) + words(" auth whoami"@)
            + said(
            "-o",
            if let Some(o) = args.output {
                o@
            } else {
                "yaml"@
            },
        ) + in_context(args.context),
{
    broadcast use {group_words, group_plain};

    kubectl_reads();
    starts_read();
    context_reads(args.context);
}

/// The manifest that is asked for is compared with the cluster, in the namespace that is asked for.
pub proof fn diff_is_told(args: SshK8sDiffArgs)
    requires
        plain_bin(args.kubectl_bin),
        K8sDiffTool::command(args) is Ok,
    ensures
        K8sDiffTool::command(args) matches Ok(text)
            && words(text) == with_manifest(args.kubectl_bin, " diff", args.manifest@) + pair(
            "-n",
            args.namespace,
        ),
{
    broadcast use {group_words, group_plain};

    kubectl_reads();
    starts_read();
    manifest_reads(args.kubectl_bin, " diff", args.manifest@);
}

/// A token is created for the service account that is asked for, with the lifetime, the audiences
/// and the object to be bound to that are asked for.
pub proof fn token_is_told(args: SshK8sCreateTokenArgs)
    requires
        plain_bin(args.kubectl_bin),
        K8sCreateTokenTool::command(args) is Ok,
    ensures
        K8sCreateTokenTool::command(args) matches Ok(text)
            && words(text) == program(args.kubectl_bin, KUBECTL_DETECT)
            + words(" create token "@).push(
            arg(args.service_account@),
        ) + pair("-n", args.namespace) + pair("--duration", args.duration) + pairs(
            "--audience",
            args.audiences,
        ) + pair("--bound-object-kind", args.bound_object_kind) + pair(
            "--bound-object-name",
            args.bound_object_name,
        ) + in_context(args.context),
{
    broadcast use {group_words, group_plain};

    kubectl_reads();
    starts_read();
    context_reads(args.context);
    pairs_read(" --audience ", "--audience", args.audiences);
}

/// The config map that is asked for is created from every literal, file and variable file that is
/// asked for. A dry run that is asked for is asked of `kubectl`, and the namespace and the context
/// are those that are asked for.
pub proof fn configmap_is_told(args: SshK8sCreateConfigmapArgs)
    requires
        plain_bin(args.kubectl_bin),
        K8sCreateConfigmapTool::command(args) is Ok,
    ensures
        K8sCreateConfigmapTool::command(args) matches Ok(text)
            && words(text) == program(args.kubectl_bin, KUBECTL_DETECT)
            + words(" create configmap "@).push(
            arg(args.name@),
        ) + (from_literals(args.from_literal@) + joints(
            "--from-file=",
            Seq::new(args.from_file@.len(), |i: int| args.from_file@[i]@),
        ) + joint("--from-env-file=", args.from_env_file)) + (pair("-n", args.namespace) + joint(
            "--dry-run=",
            args.dry_run,
        ) + in_context(args.context)),
{
    broadcast use {group_words, group_plain, plain_literals};

    kubectl_reads();
    starts_read();
    context_reads(args.context);
    literals_read(args.from_literal@);
    joints_read(" --from-file=", "--from-file=", texts(args.from_file@));
    assert(texts(args.from_file@) =~= Seq::new(
        args.from_file@.len(),
        |i: int| args.from_file@[i]@,
    ));
}

/// The secret that is asked for is created from the parts that belong to its type, whatever that
/// type is. A dry run that is asked for is asked of `kubectl`, so that nothing is created then, and
/// the namespace and the context are those that are asked for.
pub proof fn secret_is_told(args: SshK8sCreateSecretArgs)
    requires
        plain_bin(args.kubectl_bin),
        K8sCreateSecretTool::command(args) is Ok,
    ensures
        K8sCreateSecretTool::command(args) matches Ok(text)
            && words(text) == program(args.kubectl_bin, KUBECTL_DETECT) + secret_words(args)
            + (pair("-n", args.namespace) + joint(
            "--dry-run=",
            args.dry_run,
        ) + in_context(args.context)),
{
    broadcast use {group_words, group_plain, plain_literals};

    kubectl_reads();
    starts_read();
    context_reads(args.context);
    secret_reads(args);
}

/// A pod is run in the cluster of the context that is asked for, connects from the namespace that
/// is asked for to the host and the port that are asked for, and is deleted in the same cluster and
/// the same namespace. The script says what came out and ends accordingly.
pub proof fn connectivity_is_told(args: SshK8sConnectivityTestArgs)
    requires
        K8sConnectivityTest::command(args) is Ok,
    ensures
        K8sConnectivityTest::command(args) matches Ok(text)
            && words(text) == script_start(args.kubectl_bin) + words("P=conn-probe-$$; if "@)
            + call(args.context, " run $P") + said("-n", probe_namespace(args.namespace))
            + seq![word("--image=") + arg(probe_image(args.image))] + (words(
            " --restart=Never --rm -i"@,
        ).push(
            word("--pod-running-timeout=") + all_active(decimal(args.wait_secs as nat)) + word("s"),
        ) + words(" --command -- nc -z -w 5"@)) + seq![arg(args.target_host@)] + seq![
            all_active(decimal(args.target_port as nat)),
        ] + words("; then echo REACHABLE; R=0; else echo UNREACHABLE; R=1; fi; "@)
            + call(args.context, " delete pod $P --ignore-not-found") + said(
            "-n",
            probe_namespace(args.namespace),
        ) + words(" >/dev/null 2>&1; exit $R"@),
{
    broadcast use {group_words, group_plain};

    kubectl_reads();
    starts_read();
    context_reads(args.context);
    script_reads(args.kubectl_bin);
    call_reads(args.context, " run $P");
    call_reads(args.context, " delete pod $P --ignore-not-found");
    probe_reads(
        script_prefix(args.kubectl_bin) + lit("P=conn-probe-$$; if ") + script_call(
            args.context,
            " run $P",
        ) + named(" -n ", namespace_or_default(args.namespace)) + named(
            " --image=",
            image_or_probe(args.image),
        ),
        args.wait_secs,
        args.target_host@,
        args.target_port,
    );
}

/// The state of the cluster's DNS is shown in the context that is asked for, and the name that is
/// asked for is looked up by a pod in that context and in the namespace that is asked for.
pub proof fn dns_check_is_told(args: SshK8sDnsCheckArgs)
    requires
        K8sDnsCheck::command(args) is Ok,
    ensures
        K8sDnsCheck::command(args) matches Ok(text)
            && words(text) == script_start(args.kubectl_bin) + words("echo === CoreDNS pods ===; "@)
            + call(args.context, " get pods -n kube-system -l k8s-app=kube-dns -o wide")
            + words("; echo === kube-dns service ===; "@)
                + call(args.context, " get service kube-dns -n kube-system -o wide")
            + words("; echo === kube-dns endpoints ===; "@)
                + call(args.context, " get endpoints kube-dns -n kube-system")
            + words("; echo === Corefile ===; "@)
                + call(args.context, " get configmap coredns -n kube-system -o yaml")
            + match args.resolve_name {
            Some(name) => words("; echo === DNS resolution ===; "@) + call(
                args.context,
                " run dns-probe-$$ --image=busybox:1.36 --restart=Never --rm -i",
            ) + pair("-n", args.namespace) + words(" --command -- nslookup "@).push(arg(name@)),
            None => seq![],
        },
{
    broadcast use {group_words, group_plain};

    kubectl_reads();
    starts_read();
    context_reads(args.context);
    script_reads(args.kubectl_bin);
    call_reads(args.context, " get pods -n kube-system -l k8s-app=kube-dns -o wide");
    call_reads(args.context, " get service kube-dns -n kube-system -o wide");
    call_reads(args.context, " get endpoints kube-dns -n kube-system");
    call_reads(args.context, " get configmap coredns -n kube-system -o yaml");
    call_reads(
        args.context,
        " run dns-probe-$$ --image=busybox:1.36 --restart=Never --rm -i",
    );
    if let Some(name) = args.resolve_name {
        let start = lit("; echo === DNS resolution ===; ");
        let run = script_call(
            args.context,
            " run dns-probe-$$ --image=busybox:1.36 --restart=Never --rm -i",
        );
        let probe = start + run + option(" -n ", opt_text(args.namespace)) + named(
            " --command -- nslookup ",
            name@,
        );
        assert(apart(render(start + run))) by {
            reveal_strlit("; echo === DNS resolution ===; ");
            text_renders("; echo === DNS resolution ===; ");
            render_joins(start, run);
            assert(render(start + run)[0] == ';');
        }
        assert(apart(render(probe)));
        assert(words(render(start + run)) == words(render(start)) + words(render(run)));
    }
}

/// The manifests in the directory that is asked for are shown, and the charts and jobs of the
/// cluster of the context that is asked for.
pub proof fn addons_are_told(args: SshK3sAddonManifestsArgs)
    requires
        K3sAddonManifests::command(args) is Ok,
    ensures
        K3sAddonManifests::command(args) matches Ok(text)
            && words(text) == script_start(args.kubectl_bin) + words(
            "echo === auto-deploy manifests ===; ls -la "@,
        ) + seq![
            arg(
                match args.manifests_dir {
                    Some(d) => d@,
                    None => "/var/lib/rancher/k3s/server/manifests"@,
                },
            ),
        ] + words("; echo === HelmChart CRDs ===; "@)
            + call(args.context, " get helmcharts.helm.cattle.io -A")
            + words("; echo === HelmChart job status ===; "@)
                + call(args.context,
                " get helmcharts.helm.cattle.io -A -o custom-columns=NAME:.metadata.name,JOB:.status.jobName")
            + words("; echo === helm-install jobs ===; "@)
                + call(args.context, " get jobs -n kube-system -l helmcharts.helm.cattle.io/chart"),
{
    broadcast use {group_words, group_plain};

    kubectl_reads();
    starts_read();
    context_reads(args.context);
    script_reads(args.kubectl_bin);
    words_of_argument(
        match args.manifests_dir {
            Some(d) => d@,
            None => MANIFESTS_DIR@,
        },
    );
    call_reads(args.context, " get helmcharts.helm.cattle.io -A");
    call_reads(
        args.context,
        " get helmcharts.helm.cattle.io -A -o custom-columns=NAME:.metadata.name,JOB:.status.jobName",
    );
    call_reads(args.context, " get jobs -n kube-system -l helmcharts.helm.cattle.io/chart");
}

/// The load balancers of the namespace that is asked for are shown, of all namespaces where none is
/// named, and what serves them, in the context that is asked for.
pub proof fn load_balancers_are_told(args: SshK3sServicelbStatusArgs)
    requires
        K3sServicelbStatus::command(args) is Ok,
    ensures
        K3sServicelbStatus::command(args) matches Ok(text)
            && words(text) == script_start(args.kubectl_bin)
            + words("echo === type=LoadBalancer services ===; "@)
            + call(args.context, " get services --field-selector spec.type=LoadBalancer -o wide")
                + match args.namespace {
            Some(ns) => said("-n", ns@),
            None => seq![word("-A")],
        } + words("; echo === klipper svclb daemonsets ===; "@)
            + call(args.context,
            " get daemonsets -n kube-system -l svccontroller.k3s.cattle.io/svcname -o wide")
            + words("; echo === svclb pods ===; "@)
                + call(args.context,
                " get pods -n kube-system -l svccontroller.k3s.cattle.io/svcname") + said(
            "-o",
            "custom-columns=NAME:.metadata.name,NODE:.spec.nodeName,STATUS:.status.phase,HOSTPORTS:.spec.containers[*].ports[*].hostPort"@,
        ),
{
    broadcast use {group_words, group_plain};

    kubectl_reads();
    starts_read();
    context_reads(args.context);
    script_reads(args.kubectl_bin);
    call_reads(args.context, " get services --field-selector spec.type=LoadBalancer -o wide");
    call_reads(
        args.context,
        " get daemonsets -n kube-system -l svccontroller.k3s.cattle.io/svcname -o wide",
    );
    call_reads(
        args.context,
        " get pods -n kube-system -l svccontroller.k3s.cattle.io/svcname",
    );
}

/// A dry run of a secret of any type is asked of `kubectl` as the caller asks for it, in the
/// namespace and in the context that the caller names.
pub proof fn dry_run_of_a_secret_is_asked_for(args: SshK8sCreateSecretArgs)
    requires
        plain_bin(args.kubectl_bin),
        K8sCreateSecretTool::command(args) is Ok,
    ensures
        K8sCreateSecretTool::command(args) matches Ok(text) && {
            &&& args.dry_run matches Some(m) ==> words(text).contains(
                word("--dry-run=") + arg(m@),
            )
            &&& args.context matches Some(c) ==> words(text).last() == word("--context=")
                + all_active(c@)
            &&& args.namespace matches Some(ns) ==> exists|i: int|
                0 <= i < words(text).len() - 1 && #[trigger] words(text)[i] == word("-n")
                    && words(text)[i + 1] == arg(ns@)
        },
{
    secret_is_told(args);
    let text = K8sCreateSecretTool::command(args)->Ok_0;
    let front = program(args.kubectl_bin, KUBECTL_DETECT) + secret_words(args);
    let place = pair("-n", args.namespace);
    let run = joint("--dry-run=", args.dry_run);
    let all = words(text);
    assert(all == front + (place + run + in_context(args.context)));
    if let Some(ns) = args.namespace {
        assert(all[front.len() as int] == place[0]);
        assert(all[(front.len() + 1) as int] == place[1]);
    }
    if let Some(m) = args.dry_run {
        assert(all[(front.len() + place.len()) as int] == run[0]);
    }
}

} // verus!
