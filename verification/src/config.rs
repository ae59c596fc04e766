//! The configuration that the tools read.
use crate::text::same_text;
use vstd::prelude::*;

verus! {

/// How a host is reached.
#[derive(Debug)]
pub struct HostConfig {
    pub hostname: String,
    pub port: u16,
    pub user: String,
    pub description: Option<String>,
    pub proxy_jump: Option<String>,
    pub tags: Vec<String>,
}

/// How the AWX API is reached.
#[derive(Debug)]
pub struct AwxConfig {
    /// Base URL of the AWX server.
    pub url: String,
    /// Bearer token of the API.
    pub token: String,
    /// The configured host that runs the API calls.
    pub ssh_host: String,
    /// Whether the server's certificate is checked.
    pub verify_ssl: bool,
    /// Limit for one API call, in seconds.
    pub api_timeout: u64,
}

/// A configured host and the name it goes by.
#[derive(Debug)]
pub struct NamedHost {
    pub name: String,
    pub config: HostConfig,
}

/// The part of the configuration that turns a request into a command.
#[derive(Debug)]
pub struct BridgeConfig {
    pub hosts: Vec<NamedHost>,
    pub awx: Option<AwxConfig>,
}

impl BridgeConfig {
    /// A host of that name is configured.
    pub open spec fn knows(&self, name: Seq<char>) -> bool {
        exists|i: int| 0 <= i < self.hosts@.len() && #[trigger] self.hosts@[i].name@ == name
    }

    /// The configuration of the host `name`, the first of that name.
    pub fn host(&self, name: &str) -> (r: Option<&HostConfig>)
        ensures
            r is Some <==> self.knows(name@),
            r matches Some(h) ==> exists|i: int|
                0 <= i < self.hosts@.len() && #[trigger] self.hosts@[i].name@ == name@
                    && self.hosts@[i].config == *h && forall|j: int|
                    0 <= j < i ==> self.hosts@[j].name@ != name@,
    {
        let mut i: usize = 0;
        while i < self.hosts.len()
            invariant
                i <= self.hosts@.len(),
                forall|j: int| 0 <= j < i ==> self.hosts@[j].name@ != name@,
            decreases self.hosts@.len() - i,
        {
            if same_text(self.hosts[i].name.as_str(), name) {
                return Some(&self.hosts[i].config);
            }
            i += 1;
        }
        None
    }
}

} // verus!
