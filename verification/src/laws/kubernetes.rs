//! How a shell reads the `kubectl` commands.
use crate::builders::kubernetes::{
    addon_manifests_script, api_resources_command, auth_can_i_command, auth_reconcile_command,
    auth_whoami_command, configmap_command, connectivity_script, create_token_command, diff_command,
    dns_check_script, home_len, literals, path_pieces, secret_command, servicelb_script, slash_from,
    Parts, KUBECTL_DETECT,
};
use crate::builders::names::{context_is_inert, valid_context};
use crate::shell::{
    command_reads_as_meant, group_plain, inert, is_plain, is_special, named, plain, plain_bin,
    plain_joins, plain_named, plain_pieces, reads_as_meant, Piece,
};
use crate::text::{has_prefix, is_word_char};
use vstd::prelude::*;

verus! {

pub broadcast proof fn plain_literals(name: &str, entries: Seq<(Seq<char>, Seq<char>)>)
    requires
        plain(name@),
    ensures
        #[trigger] plain_pieces(literals(name, entries)),
    decreases entries.len(),
{
    if entries.len() > 0 {
        let setting = entries.last().0 + "="@ + entries.last().1;
        plain_literals(name, entries.drop_last());
        plain_named(name, setting);
        plain_joins(literals(name, entries.drop_last()), named(name, setting));
    }
}

proof fn slash_is_first(path: Seq<char>, from: int)
    requires
        0 <= from <= path.len(),
    ensures
        from <= slash_from(path, from) <= path.len(),
        slash_from(path, from) < path.len() ==> path[slash_from(path, from)] == '/',
    decreases path.len() - from,
{
    if from < path.len() && path[from] != '/' {
        slash_is_first(path, from + 1);
    }
}

/// What stands outside the quotes of a path is a home directory and nothing else: `~`, the name
/// of a user where there is one, and a slash. No other character of the path reaches the shell
/// unquoted.
pub proof fn only_a_home_stands_unquoted(path: Seq<char>)
    ensures
        0 <= home_len(path) <= path.len(),
        home_len(path) > 0 ==> {
            &&& home_len(path) >= 2
            &&& path[0] == '~'
            &&& path[home_len(path) - 1] == '/'
            &&& inert(path.subrange(1, home_len(path) - 1))
            &&& plain(path.take(home_len(path)))
        },
{
    reveal_strlit("-_.");
    let n = home_len(path);
    if path.len() > 0 {
        slash_is_first(path, 1);
    }
    if n > 0 {
        let user = path.subrange(1, n - 1);
        assert forall|i: int| 0 <= i < user.len() implies !is_special(#[trigger] user[i])
            && is_plain(user[i]) by {
            assert(is_word_char(user[i], "-_."@));
        }
        assert forall|i: int| 0 <= i < n implies is_plain(#[trigger] path.take(n)[i]) by {
            if 0 < i < n - 1 {
                assert(path.take(n)[i] == user[i - 1]);
            }
        }
    }
}

/// A path that starts with `~/` keeps those two characters outside the quotes, where the shell
/// replaces them by the home directory, and all others inside.
pub proof fn home_is_left_to_the_shell(path: Seq<char>)
    requires
        has_prefix(path, "~/"@),
    ensures
        path_pieces(path) == seq![Piece::Lit("~/"@), Piece::Arg(path.skip(2))],
{
    reveal_strlit("~/");
    assert(path.take(2) =~= "~/"@);
    assert(path[0] == path.take(2)[0]);
    assert(path[1] == path.take(2)[1]);
    assert(slash_from(path, 1) == 1);
    assert(path.subrange(1, 1).len() == 0);
}

pub broadcast proof fn plain_path(path: Seq<char>)
    ensures
        #[trigger] plain_pieces(path_pieces(path)),
{
    only_a_home_stands_unquoted(path);
}

proof fn kubectl_literals()
    ensures
        plain(KUBECTL_DETECT@),
        plain("K="@),
        plain("; "@),
        plain(" --context="@),
        plain("$K"@),
        plain(" -f "@),
        plain("echo "@),
        plain(" | "@),
        plain(" -f -"@),
        plain(" api-resources"@),
        plain(" --namespaced=true"@),
        plain(" --namespaced=false"@),
        plain(" --api-group="@),
        plain(" --verbs="@),
        plain(" -o "@),
        plain(" auth can-i "@),
        plain(" "@),
        plain(" -n "@),
        plain(" --as "@),
        plain(" auth reconcile"@),
        plain(" --dry-run=client"@),
        plain(" --remove-extra-permissions"@),
        plain(" --remove-extra-subjects"@),
        plain(" auth whoami"@),
        plain(" diff"@),
        plain(" create token "@),
        plain(" --duration "@),
        plain(" --audience "@),
        plain(" --bound-object-kind "@),
        plain(" --bound-object-name "@),
        plain("P=conn-probe-$$; if "@),
        plain(" run $P"@),
        plain(" --image="@),
        plain(" --restart=Never --rm -i --pod-running-timeout="@),
        plain("s --command -- nc -z -w 5"@),
        plain("; then echo REACHABLE; R=0; else echo UNREACHABLE; R=1; fi; "@),
        plain(" delete pod $P --ignore-not-found"@),
        plain(" >/dev/null 2>&1; exit $R"@),
        plain("echo === CoreDNS pods ===; "@),
        plain(" get pods -n kube-system -l k8s-app=kube-dns -o wide"@),
        plain("; echo === kube-dns service ===; "@),
        plain(" get service kube-dns -n kube-system -o wide"@),
        plain("; echo === kube-dns endpoints ===; "@),
        plain(" get endpoints kube-dns -n kube-system"@),
        plain("; echo === Corefile ===; "@),
        plain(" get configmap coredns -n kube-system -o yaml"@),
        plain("; echo === DNS resolution ===; "@),
        plain(" run dns-probe-$$ --image=busybox:1.36 --restart=Never --rm -i"@),
        plain(" --command -- nslookup "@),
        plain("echo === auto-deploy manifests ===; ls -la "@),
        plain("; echo === HelmChart CRDs ===; "@),
        plain(" get helmcharts.helm.cattle.io -A"@),
        plain("; echo === HelmChart job status ===; "@),
        plain(" get helmcharts.helm.cattle.io -A -o custom-columns=NAME:.metadata.name,JOB:.status.jobName"@),
        plain("; echo === helm-install jobs ===; "@),
        plain(" get jobs -n kube-system -l helmcharts.helm.cattle.io/chart"@),
        plain("echo === type=LoadBalancer services ===; "@),
        plain(" get services --field-selector spec.type=LoadBalancer -o wide"@),
        plain(" -A"@),
        plain("; echo === klipper svclb daemonsets ===; "@),
        plain(" get daemonsets -n kube-system -l svccontroller.k3s.cattle.io/svcname -o wide"@),
        plain("; echo === svclb pods ===; "@),
        plain(" get pods -n kube-system -l svccontroller.k3s.cattle.io/svcname"@),
        plain(" --from-literal="@),
        plain(" --from-file="@),
        plain(" --from-env-file="@),
        plain(" --dry-run="@),
        plain(" create configmap "@),
        plain(" create secret generic "@),
        plain(" create secret tls "@),
        plain(" --cert="@),
        plain(" --key="@),
        plain(" create secret docker-registry "@),
        plain(" --docker-server="@),
        plain(" --docker-username="@),
        plain(" --docker-password="@),
        plain(" --docker-email="@),
{
    reveal_strlit("$(if command -v kubectl >/dev/null 2>&1; then echo kubectl; elif command -v k3s >/dev/null 2>&1; then echo k3s kubectl; else echo microk8s kubectl; fi)");
    reveal_strlit("K=");
    reveal_strlit("; ");
    reveal_strlit(" --context=");
    reveal_strlit("$K");
    reveal_strlit(" -f ");
    reveal_strlit("echo ");
    reveal_strlit(" | ");
    reveal_strlit(" -f -");
    reveal_strlit(" api-resources");
    reveal_strlit(" --namespaced=true");
    reveal_strlit(" --namespaced=false");
    reveal_strlit(" --api-group=");
    reveal_strlit(" --verbs=");
    reveal_strlit(" -o ");
    reveal_strlit(" auth can-i ");
    reveal_strlit(" ");
    reveal_strlit(" -n ");
    reveal_strlit(" --as ");
    reveal_strlit(" auth reconcile");
    reveal_strlit(" --dry-run=client");
    reveal_strlit(" --remove-extra-permissions");
    reveal_strlit(" --remove-extra-subjects");
    reveal_strlit(" auth whoami");
    reveal_strlit(" diff");
    reveal_strlit(" create token ");
    reveal_strlit(" --duration ");
    reveal_strlit(" --audience ");
    reveal_strlit(" --bound-object-kind ");
    reveal_strlit(" --bound-object-name ");
    reveal_strlit("P=conn-probe-$$; if ");
    reveal_strlit(" run $P");
    reveal_strlit(" --image=");
    reveal_strlit(" --restart=Never --rm -i --pod-running-timeout=");
    reveal_strlit("s --command -- nc -z -w 5");
    reveal_strlit("; then echo REACHABLE; R=0; else echo UNREACHABLE; R=1; fi; ");
    reveal_strlit(" delete pod $P --ignore-not-found");
    reveal_strlit(" >/dev/null 2>&1; exit $R");
    reveal_strlit("echo === CoreDNS pods ===; ");
    reveal_strlit(" get pods -n kube-system -l k8s-app=kube-dns -o wide");
    reveal_strlit("; echo === kube-dns service ===; ");
    reveal_strlit(" get service kube-dns -n kube-system -o wide");
    reveal_strlit("; echo === kube-dns endpoints ===; ");
    reveal_strlit(" get endpoints kube-dns -n kube-system");
    reveal_strlit("; echo === Corefile ===; ");
    reveal_strlit(" get configmap coredns -n kube-system -o yaml");
    reveal_strlit("; echo === DNS resolution ===; ");
    reveal_strlit(" run dns-probe-$$ --image=busybox:1.36 --restart=Never --rm -i");
    reveal_strlit(" --command -- nslookup ");
    reveal_strlit("echo === auto-deploy manifests ===; ls -la ");
    reveal_strlit("; echo === HelmChart CRDs ===; ");
    reveal_strlit(" get helmcharts.helm.cattle.io -A");
    reveal_strlit("; echo === HelmChart job status ===; ");
    reveal_strlit(" get helmcharts.helm.cattle.io -A -o custom-columns=NAME:.metadata.name,JOB:.status.jobName");
    reveal_strlit("; echo === helm-install jobs ===; ");
    reveal_strlit(" get jobs -n kube-system -l helmcharts.helm.cattle.io/chart");
    reveal_strlit("echo === type=LoadBalancer services ===; ");
    reveal_strlit(" get services --field-selector spec.type=LoadBalancer -o wide");
    reveal_strlit(" -A");
    reveal_strlit("; echo === klipper svclb daemonsets ===; ");
    reveal_strlit(" get daemonsets -n kube-system -l svccontroller.k3s.cattle.io/svcname -o wide");
    reveal_strlit("; echo === svclb pods ===; ");
    reveal_strlit(" get pods -n kube-system -l svccontroller.k3s.cattle.io/svcname");
    reveal_strlit(" --from-literal=");
    reveal_strlit(" --from-file=");
    reveal_strlit(" --from-env-file=");
    reveal_strlit(" --dry-run=");
    reveal_strlit(" create configmap ");
    reveal_strlit(" create secret generic ");
    reveal_strlit(" create secret tls ");
    reveal_strlit(" --cert=");
    reveal_strlit(" --key=");
    reveal_strlit(" create secret docker-registry ");
    reveal_strlit(" --docker-server=");
    reveal_strlit(" --docker-username=");
    reveal_strlit(" --docker-password=");
    reveal_strlit(" --docker-email=");
}

/// A shell reads the `kubectl api-resources` command as it is meant: no argument adds shell text.
pub proof fn api_resources_reads_as_meant(
    bin: Option<String>,
    namespaced: Option<bool>,
    api_group: Option<String>,
    verbs: Option<String>,
    output: Option<String>,
    context: Option<String>,
)
    requires
        plain_bin(bin),
        context matches Some(c) ==> valid_context(c@),
    ensures
        reads_as_meant(
            api_resources_command(
                bin,
                namespaced,
                api_group,
                verbs,
                output,
                context,
            ),
        ),
{
    broadcast use {group_plain, plain_literals};

    kubectl_literals();
    if let Some(c) = context {
        context_is_inert(c@);
    }
    command_reads_as_meant(
        api_resources_command(bin, namespaced, api_group, verbs, output, context),
    );
}

/// A shell reads the `kubectl auth can-i` command as it is meant: no argument adds shell text.
pub proof fn auth_can_i_reads_as_meant(
    bin: Option<String>,
    verb: Seq<char>,
    resource: Seq<char>,
    namespace: Option<String>,
    as_user: Option<String>,
    context: Option<String>,
)
    requires
        plain_bin(bin),
        context matches Some(c) ==> valid_context(c@),
    ensures
        reads_as_meant(auth_can_i_command(bin, verb, resource, namespace, as_user, context)),
{
    broadcast use {group_plain, plain_literals};

    kubectl_literals();
    if let Some(c) = context {
        context_is_inert(c@);
    }
    command_reads_as_meant(auth_can_i_command(bin, verb, resource, namespace, as_user, context));
}

/// A shell reads the `kubectl auth reconcile` command as it is meant: no argument adds shell text.
pub proof fn auth_reconcile_reads_as_meant(
    bin: Option<String>,
    manifest: Seq<char>,
    dry_run: bool,
    remove_extra_permissions: bool,
    remove_extra_subjects: bool,
    context: Option<String>,
)
    requires
        plain_bin(bin),
        context matches Some(c) ==> valid_context(c@),
    ensures
        reads_as_meant(
            auth_reconcile_command(
                bin,
                manifest,
                dry_run,
                remove_extra_permissions,
                remove_extra_subjects,
                context,
            ),
        ),
{
    broadcast use {group_plain, plain_literals, plain_path};

    kubectl_literals();
    if let Some(c) = context {
        context_is_inert(c@);
    }
    command_reads_as_meant(
        auth_reconcile_command(
            bin,
            manifest,
            dry_run,
            remove_extra_permissions,
            remove_extra_subjects,
            context,
        ),
    );
}

/// A shell reads the `kubectl auth whoami` command as it is meant: no argument adds shell text.
pub proof fn auth_whoami_reads_as_meant(
    bin: Option<String>,
    output: Option<String>,
    context: Option<String>,
)
    requires
        plain_bin(bin),
        context matches Some(c) ==> valid_context(c@),
    ensures
        reads_as_meant(auth_whoami_command(bin, output, context)),
{
    broadcast use {group_plain, plain_literals};

    kubectl_literals();
    if let Some(c) = context {
        context_is_inert(c@);
    }
    command_reads_as_meant(auth_whoami_command(bin, output, context));
}

/// A shell reads the `kubectl diff` command as it is meant: no argument adds shell text.
pub proof fn diff_reads_as_meant(
    bin: Option<String>,
    manifest: Seq<char>,
    namespace: Option<String>,
)
    requires
        plain_bin(bin),
    ensures
        reads_as_meant(diff_command(bin, manifest, namespace)),
{
    broadcast use {group_plain, plain_literals, plain_path};

    kubectl_literals();
    command_reads_as_meant(diff_command(bin, manifest, namespace));
}

/// A shell reads the `kubectl create token` command as it is meant: no argument adds shell text.
pub proof fn create_token_reads_as_meant(
    bin: Option<String>,
    service_account: Seq<char>,
    namespace: Option<String>,
    duration: Option<String>,
    audiences: Option<Vec<String>>,
    bound_object_kind: Option<String>,
    bound_object_name: Option<String>,
    context: Option<String>,
)
    requires
        plain_bin(bin),
        context matches Some(c) ==> valid_context(c@),
    ensures
        reads_as_meant(
            create_token_command(
                bin,
                service_account,
                namespace,
                duration,
                audiences,
                bound_object_kind,
                bound_object_name,
                context,
            ),
        ),
{
    broadcast use {group_plain, plain_literals};

    kubectl_literals();
    if let Some(c) = context {
        context_is_inert(c@);
    }
    command_reads_as_meant(
        create_token_command(
            bin,
            service_account,
            namespace,
            duration,
            audiences,
            bound_object_kind,
            bound_object_name,
            context,
        ),
    );
}

/// A shell reads the `kubectl create configmap` command as it is meant: no argument adds shell
/// text.
pub proof fn configmap_reads_as_meant(
    bin: Option<String>,
    name: Seq<char>,
    pairs: Seq<(Seq<char>, Seq<char>)>,
    from_file: Seq<Seq<char>>,
    from_env_file: Option<String>,
    namespace: Option<String>,
    dry_run: Option<String>,
    context: Option<String>,
)
    requires
        plain_bin(bin),
        context matches Some(c) ==> valid_context(c@),
    ensures
        reads_as_meant(
            configmap_command(
                bin,
                name,
                pairs,
                from_file,
                from_env_file,
                namespace,
                dry_run,
                context,
            ),
        ),
{
    broadcast use {group_plain, plain_literals};

    kubectl_literals();
    if let Some(c) = context {
        context_is_inert(c@);
    }
    command_reads_as_meant(
        configmap_command(
            bin,
            name,
            pairs,
            from_file,
            from_env_file,
            namespace,
            dry_run,
            context,
        ),
    );
}

/// A shell reads the script that tests a connection as it is meant: no argument adds shell text.
pub proof fn connectivity_reads_as_meant(
    bin: Option<String>,
    target_host: Seq<char>,
    target_port: u16,
    namespace: Option<String>,
    image: Option<String>,
    wait_secs: u64,
    context: Option<String>,
)
    requires
        context matches Some(c) ==> valid_context(c@),
    ensures
        reads_as_meant(
            connectivity_script(
                bin,
                target_host,
                target_port,
                namespace,
                image,
                wait_secs,
                context,
            ),
        ),
{
    broadcast use {group_plain, plain_literals};

    kubectl_literals();
    if let Some(c) = context {
        context_is_inert(c@);
    }
    command_reads_as_meant(
        connectivity_script(
            bin,
            target_host,
            target_port,
            namespace,
            image,
            wait_secs,
            context,
        ),
    );
}

/// A shell reads the script that checks the DNS as it is meant: no argument adds shell text.
pub proof fn dns_check_reads_as_meant(
    bin: Option<String>,
    resolve_name: Option<String>,
    namespace: Option<String>,
    context: Option<String>,
)
    requires
        context matches Some(c) ==> valid_context(c@),
    ensures
        reads_as_meant(dns_check_script(bin, resolve_name, namespace, context)),
{
    broadcast use {group_plain, plain_literals};

    kubectl_literals();
    if let Some(c) = context {
        context_is_inert(c@);
    }
    command_reads_as_meant(dns_check_script(bin, resolve_name, namespace, context));
}

/// A shell reads the script that shows the addons as it is meant: no argument adds shell text.
pub proof fn addon_manifests_reads_as_meant(
    bin: Option<String>,
    manifests_dir: Option<String>,
    context: Option<String>,
)
    requires
        context matches Some(c) ==> valid_context(c@),
    ensures
        reads_as_meant(addon_manifests_script(bin, manifests_dir, context)),
{
    broadcast use {group_plain, plain_literals};

    kubectl_literals();
    if let Some(c) = context {
        context_is_inert(c@);
    }
    command_reads_as_meant(addon_manifests_script(bin, manifests_dir, context));
}

/// A shell reads the script that shows the load balancer as it is meant: no argument adds shell
/// text.
pub proof fn servicelb_reads_as_meant(
    bin: Option<String>,
    namespace: Option<String>,
    context: Option<String>,
)
    requires
        context matches Some(c) ==> valid_context(c@),
    ensures
        reads_as_meant(servicelb_script(bin, namespace, context)),
{
    broadcast use {group_plain, plain_literals};

    kubectl_literals();
    if let Some(c) = context {
        context_is_inert(c@);
    }
    command_reads_as_meant(servicelb_script(bin, namespace, context));
}

/// A shell reads the `kubectl create secret` command as it is meant: no argument adds shell text.
pub proof fn secret_reads_as_meant(
    bin: Option<String>,
    name: Seq<char>,
    secret_type: Seq<char>,
    parts: Parts,
    namespace: Option<String>,
    dry_run: Option<String>,
    context: Option<String>,
)
    requires
        plain_bin(bin),
        context matches Some(c) ==> valid_context(c@),
    ensures
        reads_as_meant(
            secret_command(
                bin,
                name,
                secret_type,
                parts,
                namespace,
                dry_run,
                context,
            ),
        ),
{
    broadcast use {group_plain, plain_literals};

    kubectl_literals();
    if let Some(c) = context {
        context_is_inert(c@);
    }
    command_reads_as_meant(
        secret_command(bin, name, secret_type, parts, namespace, dry_run, context),
    );
}

} // verus!
