//! `k3s` commands: certificates, snapshots, images, upgrades and removal.
use crate::error::{
    agrees, checked, complaint, denied, denied_because, first_of, if_some, unless, BridgeError,
    Refusal,
};
use crate::shell::{
    command_unless, lit, named, opt_text, opt_texts, option, render, repeated, CommandLine, Piece,
};
use crate::text::{
    base_name, begins, begins_with, file_name, is_digit, same_text, word_chars, word_chars_only,
};
use vstd::prelude::*;

verus! {

/// Where the configuration for the clients of a cluster is kept.
pub const KUBECONFIG_PATH: &'static str = "/etc/rancher/k3s/k3s.yaml";

pub const KILLALL_SCRIPT: &'static str = "/usr/local/bin/k3s-killall.sh";

pub const UNINSTALL_SCRIPT: &'static str = "/usr/local/bin/k3s-uninstall.sh";

pub const AGENT_UNINSTALL_SCRIPT: &'static str = "/usr/local/bin/k3s-agent-uninstall.sh";

/// The start of every upgrade: the installer comes from one fixed place.
pub const INSTALLER: &'static str = "curl -sfL https://get.k3s.io | sudo INSTALL_K3S_VERSION=";

// Rules

/// An absolute path.
pub open spec fn path_refusal(path: Seq<char>) -> Option<Refusal> {
    unless(begins_with(path, '/'), complaint("Invalid path ", path, ": must be absolute"))
}

pub fn validate_path(path: &str) -> (r: Result<(), BridgeError>)
    ensures
        checked(r, path_refusal(path@)),
{
    if begins(path, '/') {
        Ok(())
    } else {
        Err(denied("Invalid path ", path, ": must be absolute"))
    }
}

/// The path of a script: absolute, made of letters, digits and `._-/`.
pub open spec fn valid_script_path(path: Seq<char>) -> bool {
    begins_with(path, '/') && word_chars(path, "._-/"@)
}

pub open spec fn script_path_refusal(path: Seq<char>) -> Option<Refusal> {
    unless(
        valid_script_path(path),
        complaint("Invalid script path ", path, ": must be absolute, without special characters"),
    )
}

pub fn validate_script_path(path: &str) -> (r: Result<(), BridgeError>)
    ensures
        checked(r, script_path_refusal(path@)),
{
    if begins(path, '/') && word_chars_only(path, "._-/") {
        Ok(())
    } else {
        Err(
            denied(
                "Invalid script path ",
                path,
                ": must be absolute, without special characters",
            ),
        )
    }
}

/// The services that have certificates of their own.
pub open spec fn valid_cert_service(service: Seq<char>) -> bool {
    ||| service == "admin"@
    ||| service == "api-server"@
    ||| service == "controller-manager"@
    ||| service == "scheduler"@
    ||| service == "k3s-controller"@
    ||| service == "k3s-server"@
    ||| service == "cloud-controller"@
    ||| service == "etcd"@
    ||| service == "auth-proxy"@
    ||| service == "kubelet"@
    ||| service == "kube-proxy"@
    ||| service == "k3s-server-load-balancer"@
}

pub open spec fn cert_service_refusal(service: Seq<char>) -> Option<Refusal> {
    unless(valid_cert_service(service), complaint("Unknown certificate service ", service, ""))
}

pub fn validate_cert_service(service: &str) -> (r: Result<(), BridgeError>)
    ensures
        checked(r, cert_service_refusal(service@)),
{
    let core: bool = same_text(service, "admin") || same_text(service, "api-server") || same_text(
        service,
        "controller-manager",
    ) || same_text(service, "scheduler") || same_text(service, "kubelet") || same_text(
        service,
        "kube-proxy",
    );
    let own: bool = same_text(service, "k3s-controller") || same_text(service, "k3s-server")
        || same_text(service, "cloud-controller") || same_text(service, "etcd") || same_text(
        service,
        "auth-proxy",
    ) || same_text(service, "k3s-server-load-balancer");
    if core || own {
        Ok(())
    } else {
        Err(denied("Unknown certificate service ", service, ""))
    }
}

/// Why a list of services is refused, if it is: the first unknown service decides.
pub open spec fn cert_services_refusal(services: Seq<Seq<char>>) -> Option<Refusal>
    decreases services.len(),
{
    if services.len() == 0 {
        None
    } else {
        first_of(cert_service_refusal(services[0]), cert_services_refusal(services.skip(1)))
    }
}

/// What can be done with images.
pub open spec fn valid_ctr_action(action: Seq<char>) -> bool {
    action == "ls"@ || action == "list"@ || action == "import"@
}

pub open spec fn ctr_action_refusal(action: Seq<char>) -> Option<Refusal> {
    unless(
        valid_ctr_action(action),
        complaint("Invalid action ", action, ". Allowed: ls, list, import"),
    )
}

pub fn validate_ctr_action(action: &str) -> (r: Result<(), BridgeError>)
    ensures
        checked(r, ctr_action_refusal(action@)),
{
    if same_text(action, "ls") || same_text(action, "list") || same_text(action, "import") {
        Ok(())
    } else {
        Err(denied("Invalid action ", action, ". Allowed: ls, list, import"))
    }
}

/// The name of a snapshot: letters, digits and `._-`, no leading dash.
pub open spec fn valid_snapshot_name(name: Seq<char>) -> bool {
    name.len() > 0 && word_chars(name, "._-"@) && !begins_with(name, '-')
}

pub open spec fn snapshot_name_refusal(name: Seq<char>) -> Option<Refusal> {
    unless(
        valid_snapshot_name(name),
        complaint("Invalid snapshot name ", name, ". Allowed: letters, digits and ._-"),
    )
}

pub fn validate_snapshot_name(name: &str) -> (r: Result<(), BridgeError>)
    ensures
        checked(r, snapshot_name_refusal(name@)),
{
    if !name.is_empty() && word_chars_only(name, "._-") && !begins(name, '-') {
        Ok(())
    } else {
        Err(denied("Invalid snapshot name ", name, ". Allowed: letters, digits and ._-"))
    }
}

/// The address of a server: letters, digits, dots and dashes.
pub open spec fn valid_server_ip(ip: Seq<char>) -> bool {
    ip.len() > 0 && word_chars(ip, ".-"@)
}

pub open spec fn server_ip_refusal(ip: Seq<char>) -> Option<Refusal> {
    unless(
        valid_server_ip(ip),
        complaint("Invalid server address ", ip, ". Allowed: letters, digits, . and -"),
    )
}

pub fn validate_server_ip(ip: &str) -> (r: Result<(), BridgeError>)
    ensures
        checked(r, server_ip_refusal(ip@)),
{
    if !ip.is_empty() && word_chars_only(ip, ".-") {
        Ok(())
    } else {
        Err(denied("Invalid server address ", ip, ". Allowed: letters, digits, . and -"))
    }
}

/// The place of the first character from `from` on that is no digit.
pub open spec fn digits_end(s: Seq<char>, from: int) -> int
    decreases s.len() - from,
{
    if 0 <= from < s.len() && is_digit(s[from]) {
        digits_end(s, from + 1)
    } else {
        from
    }
}

/// A number at `from` with a dot behind it.
pub open spec fn number_and_dot(s: Seq<char>, from: int) -> bool {
    from < digits_end(s, from) < s.len() && s[digits_end(s, from)] == '.'
}

/// A pinned release: `v`, three numbers with dots between them, and nothing else or a suffix that
/// starts with `+` or `-`.
pub open spec fn valid_version(version: Seq<char>) -> bool {
    let minor = digits_end(version, 1) + 1;
    let patch = digits_end(version, minor) + 1;
    let end = digits_end(version, patch);
    &&& begins_with(version, 'v')
    &&& number_and_dot(version, 1)
    &&& number_and_dot(version, minor)
    &&& patch < end
    &&& end == version.len() || ((version[end] == '+' || version[end] == '-') && end + 1
        < version.len() && word_chars(version.skip(end + 1), ".+-"@))
}

pub open spec fn version_refusal(version: Seq<char>) -> Option<Refusal> {
    unless(
        valid_version(version),
        complaint("Invalid version ", version, ": must be a pinned release such as v1.30.2+k3s1"),
    )
}

fn skip_digits(s: &str, from: usize) -> (r: usize)
    requires
        from <= s@.len(),
    ensures
        r == digits_end(s@, from as int),
        from <= r <= s@.len(),
{
    let n: usize = s.unicode_len();
    let mut i: usize = from;
    while i < n
        invariant
            n == s@.len(),
            from <= i <= n,
            digits_end(s@, from as int) == digits_end(s@, i as int),
        decreases n - i,
    {
        let c: char = s.get_char(i);
        if !('0' <= c && c <= '9') {
            return i;
        }
        i += 1;
    }
    i
}

fn is_pinned(version: &str) -> (r: bool)
    ensures
        r == valid_version(version@),
{
    let n: usize = version.unicode_len();
    if !begins(version, 'v') {
        return false;
    }
    let a: usize = skip_digits(version, 1);
    if a == 1 || a == n || version.get_char(a) != '.' {
        return false;
    }
    let b: usize = skip_digits(version, a + 1);
    if b == a + 1 || b == n || version.get_char(b) != '.' {
        return false;
    }
    let c: usize = skip_digits(version, b + 1);
    if c == b + 1 {
        return false;
    }
    if c == n {
        return true;
    }
    let mark: char = version.get_char(c);
    if (mark != '+' && mark != '-') || c + 1 == n {
        return false;
    }
    let suffix: &str = version.substring_char(c + 1, n);
    assert(suffix@ =~= version@.skip(c + 1));
    word_chars_only(suffix, ".+-")
}

pub fn validate_version(version: &str) -> (r: Result<(), BridgeError>)
    ensures
        checked(r, version_refusal(version@)),
{
    if is_pinned(version) {
        Ok(())
    } else {
        Err(
            denied(
                "Invalid version ",
                version,
                ": must be a pinned release such as v1.30.2+k3s1",
            ),
        )
    }
}

/// The release channels.
pub open spec fn valid_channel(channel: Seq<char>) -> bool {
    channel == "stable"@ || channel == "latest"@ || channel == "testing"@
}

pub open spec fn channel_refusal(channel: Seq<char>) -> Option<Refusal> {
    unless(
        valid_channel(channel),
        complaint("Invalid channel ", channel, ". Allowed: stable, latest, testing"),
    )
}

pub fn validate_channel(channel: &str) -> (r: Result<(), BridgeError>)
    ensures
        checked(r, channel_refusal(channel@)),
{
    if same_text(channel, "stable") || same_text(channel, "latest") || same_text(
        channel,
        "testing",
    ) {
        Ok(())
    } else {
        Err(denied("Invalid channel ", channel, ". Allowed: stable, latest, testing"))
    }
}

// Commands

/// The start of a command: `sudo` and the program that the caller names, or `k3s`.
pub open spec fn k3s_prefix(bin: Option<String>) -> Seq<Piece> {
    match bin {
        Some(b) => lit("sudo ") + seq![Piece::Lit(b@)],
        None => lit("sudo ") + lit("k3s"),
    }
}

fn k3s(bin: &Option<String>) -> (r: CommandLine)
    ensures
        r.wf(),
        r@ == k3s_prefix(*bin),
{
    let mut cmd = CommandLine::new("sudo ");
    match bin {
        Some(b) => cmd.lit(b.as_str()),
        None => cmd.lit("k3s"),
    }
    cmd
}

pub open spec fn cert_rotate_command(bin: Option<String>, services: Option<Vec<String>>) -> Seq<
    Piece,
> {
    k3s_prefix(bin) + lit(" certificate rotate") + repeated(" --service ", opt_texts(services))
}

pub open spec fn check_config_command(bin: Option<String>) -> Seq<Piece> {
    k3s_prefix(bin) + lit(" check-config")
}

pub open spec fn list_images_command(bin: Option<String>, action: Seq<char>) -> Seq<Piece> {
    k3s_prefix(bin) + named(" ctr images ", action)
}

pub open spec fn import_images_command(
    bin: Option<String>,
    action: Seq<char>,
    tarball: Seq<char>,
) -> Seq<Piece> {
    list_images_command(bin, action) + named(" ", tarball)
}

/// Lists the images, or imports those of a tarball, which has to be given then.
pub open spec fn ctr_images_command(
    bin: Option<String>,
    action: Seq<char>,
    tarball: Option<String>,
) -> Result<Seq<char>, Refusal> {
    if action == "import"@ {
        match tarball {
            Some(t) => Ok(render(import_images_command(bin, action, t@))),
            None => Err(Refusal::Denied("action 'import' requires 'tarball'"@)),
        }
    } else {
        Ok(render(list_images_command(bin, action)))
    }
}

pub open spec fn snapshot_list_command(bin: Option<String>, dir: Option<String>) -> Seq<Piece> {
    k3s_prefix(bin) + lit(" etcd-snapshot ls -o json") + option(" --dir ", opt_text(dir))
}

pub open spec fn snapshot_restore_command(bin: Option<String>, path: Seq<char>) -> Seq<Piece> {
    k3s_prefix(bin) + lit(" server --cluster-reset") + named(" --cluster-reset-restore-path=", path)
}

pub open spec fn snapshot_save_command(
    bin: Option<String>,
    name: Option<String>,
    dir: Option<String>,
) -> Seq<Piece> {
    k3s_prefix(bin) + lit(" etcd-snapshot save") + option(" --name ", opt_text(name)) + option(
        " --dir ",
        opt_text(dir),
    )
}

/// Runs a script, the default one unless the caller names another.
pub open spec fn script_command(script_path: Option<String>, default: &str) -> Seq<Piece> {
    match script_path {
        Some(p) => named("sudo ", p@),
        None => named("sudo ", default@),
    }
}

/// The replacement of an address by that of the server.
pub open spec fn address_rule(pattern: &str, ip: Seq<char>) -> Seq<char> {
    "s/"@ + pattern@ + ":6443/"@ + ip + ":6443/g"@
}

/// Shows the configuration, with the local addresses replaced where a server is given.
pub open spec fn kubeconfig_command(path: Option<String>, server_ip: Option<String>) -> Seq<
    Piece,
> {
    named(
        "sudo cat ",
        match path {
            Some(p) => p@,
            None => KUBECONFIG_PATH@,
        },
    ) + match server_ip {
        Some(ip) => named(" | sed -e ", address_rule("127\\.0\\.0\\.1", ip@)) + named(
            " -e ",
            address_rule("0\\.0\\.0\\.0", ip@),
        ),
        None => seq![],
    }
}

fn build_address_rule(pattern: &str, ip: &str) -> (r: String)
    ensures
        r@ == address_rule(pattern, ip@),
{
    let mut s: String = "s/".to_owned();
    s.append(pattern);
    s.append(":6443/");
    s.append(ip);
    s.append(":6443/g");
    s
}

/// Why a script is not taken for an uninstaller, if it is not.
pub open spec fn uninstaller_refusal(path: Seq<char>) -> Option<Refusal> {
    first_of(
        script_path_refusal(path),
        unless(
            base_name(path) == "k3s-uninstall.sh"@ || base_name(path) == "k3s-agent-uninstall.sh"@,
            complaint(
                "script basename must be 'k3s-uninstall.sh' or 'k3s-agent-uninstall.sh', got ",
                base_name(path),
                "",
            ),
        ),
    )
}

pub open spec fn default_uninstaller(agent: bool) -> &'static str {
    if agent {
        AGENT_UNINSTALL_SCRIPT
    } else {
        UNINSTALL_SCRIPT
    }
}

/// Why an upgrade is refused, if it is.
pub open spec fn upgrade_refusal(version: Seq<char>, channel: Option<String>) -> Option<Refusal> {
    first_of(version_refusal(version), if_some(channel, |c: Seq<char>| channel_refusal(c)))
}

pub open spec fn upgrade_command(version: Seq<char>, channel: Option<String>) -> Seq<Piece> {
    named(INSTALLER, version) + option(" INSTALL_K3S_CHANNEL=", opt_text(channel)) + lit(" sh -")
}

/// Builds `k3s` commands.
pub struct K3sCommandBuilder;

impl K3sCommandBuilder {
    pub fn build_cert_rotate_command(bin: &Option<String>, services: &Option<Vec<String>>) -> (r:
        String)
        ensures
            r@ == render(cert_rotate_command(*bin, *services)),
    {
        let mut cmd = k3s(bin);
        cmd.lit(" certificate rotate");
        cmd.all(" --service ", services);
        cmd.into_text()
    }

    pub fn build_check_config_command(bin: &Option<String>) -> (r: String)
        ensures
            r@ == render(check_config_command(*bin)),
    {
        let mut cmd = k3s(bin);
        cmd.lit(" check-config");
        cmd.into_text()
    }

    pub fn build_ctr_images_command(
        bin: &Option<String>,
        action: &str,
        tarball: &Option<String>,
    ) -> (r: Result<String, BridgeError>)
        ensures
            agrees(r, ctr_images_command(*bin, action@, *tarball)),
    {
        let mut cmd = k3s(bin);
        cmd.named(" ctr images ", action);
        if same_text(action, "import") {
            match tarball {
                Some(t) => cmd.named(" ", t.as_str()),
                None => {
                    return Err(denied_because("action 'import' requires 'tarball'"));
                },
            }
        }
        Ok(cmd.into_text())
    }

    pub fn build_etcd_snapshot_list_command(bin: &Option<String>, dir: &Option<String>) -> (r:
        String)
        ensures
            r@ == render(snapshot_list_command(*bin, *dir)),
    {
        let mut cmd = k3s(bin);
        cmd.lit(" etcd-snapshot ls -o json");
        cmd.option(" --dir ", dir);
        cmd.into_text()
    }

    pub fn build_etcd_snapshot_restore_command(bin: &Option<String>, path: &str) -> (r: Result<
        String,
        BridgeError,
    >)
        ensures
            agrees(r, command_unless(path_refusal(path@), snapshot_restore_command(*bin, path@))),
    {
        validate_path(path)?;
        let mut cmd = k3s(bin);
        cmd.lit(" server --cluster-reset");
        cmd.named(" --cluster-reset-restore-path=", path);
        Ok(cmd.into_text())
    }

    pub fn build_etcd_snapshot_save_command(
        bin: &Option<String>,
        name: &Option<String>,
        dir: &Option<String>,
    ) -> (r: String)
        ensures
            r@ == render(snapshot_save_command(*bin, *name, *dir)),
    {
        let mut cmd = k3s(bin);
        cmd.lit(" etcd-snapshot save");
        cmd.option(" --name ", name);
        cmd.option(" --dir ", dir);
        cmd.into_text()
    }

    pub fn build_killall_command(script_path: &Option<String>) -> (r: String)
        ensures
            r@ == render(script_command(*script_path, KILLALL_SCRIPT)),
    {
        let mut cmd = CommandLine::new("sudo ");
        match script_path {
            Some(p) => cmd.arg(p.as_str()),
            None => cmd.arg(KILLALL_SCRIPT),
        }
        assert(cmd@ =~= script_command(*script_path, KILLALL_SCRIPT));
        cmd.into_text()
    }

    pub fn build_kubeconfig_get_command(path: &Option<String>, server_ip: &Option<String>) -> (r:
        String)
        ensures
            r@ == render(kubeconfig_command(*path, *server_ip)),
    {
        let mut cmd = CommandLine::new("sudo cat ");
        match path {
            Some(p) => cmd.arg(p.as_str()),
            None => cmd.arg(KUBECONFIG_PATH),
        }
        if let Some(ip) = server_ip {
            let local: String = build_address_rule("127\\.0\\.0\\.1", ip.as_str());
            let any: String = build_address_rule("0\\.0\\.0\\.0", ip.as_str());
            cmd.named(" | sed -e ", local.as_str());
            cmd.named(" -e ", any.as_str());
        }
        assert(cmd@ =~= kubeconfig_command(*path, *server_ip));
        cmd.into_text()
    }

    pub fn build_uninstall_command(agent: bool, script_path: &Option<String>) -> (r: Result<
        String,
        BridgeError,
    >)
        ensures
            agrees(
                r,
                command_unless(
                    if_some(*script_path, |p: Seq<char>| uninstaller_refusal(p)),
                    script_command(*script_path, default_uninstaller(agent)),
                ),
            ),
    {
        let mut cmd = CommandLine::new("sudo ");
        match script_path {
            Some(p) => {
                validate_script_path(p.as_str())?;
                let name: &str = file_name(p.as_str());
                if !same_text(name, "k3s-uninstall.sh") && !same_text(
                    name,
                    "k3s-agent-uninstall.sh",
                ) {
                    return Err(
                        denied(
                            "script basename must be 'k3s-uninstall.sh' or 'k3s-agent-uninstall.sh', got ",
                            name,
                            "",
                        ),
                    );
                }
                cmd.arg(p.as_str());
            },
            None => cmd.arg(if agent { AGENT_UNINSTALL_SCRIPT } else { UNINSTALL_SCRIPT }),
        }
        assert(cmd@ =~= script_command(*script_path, default_uninstaller(agent)));
        Ok(cmd.into_text())
    }

    pub fn build_upgrade_command(version: &str, channel: &Option<String>) -> (r: Result<
        String,
        BridgeError,
    >)
        ensures
            agrees(
                r,
                command_unless(
                    upgrade_refusal(version@, *channel),
                    upgrade_command(version@, *channel),
                ),
            ),
    {
        validate_version(version)?;
        if let Some(c) = channel {
            validate_channel(c.as_str())?;
        }
        let mut cmd = CommandLine::new(INSTALLER);
        cmd.arg(version);
        cmd.option(" INSTALL_K3S_CHANNEL=", channel);
        cmd.lit(" sh -");
        assert(cmd@ =~= upgrade_command(version@, *channel));
        Ok(cmd.into_text())
    }
}

} // verus!
