//! `esxcli` commands.
use crate::error::{checked, complaint, denied, unless, BridgeError, Refusal};
use crate::text::same_text;
use vstd::prelude::*;

verus! {

pub const INTERFACES: &'static str = "esxcli network ip interface list";

pub const VSWITCHES: &'static str = "esxcli network vswitch standard list";

pub const NICS: &'static str = "esxcli network nic list";

pub const ALL_NETWORKS: &'static str =
    "esxcli network ip interface list; esxcli network vswitch standard list; esxcli network nic list";

/// The parts of a host's network that can be listed.
pub open spec fn valid_component(component: Seq<char>) -> bool {
    component == "interface"@ || component == "vswitch"@ || component == "nic"@ || component
        == "all"@
}

pub open spec fn component_refusal(component: Seq<char>) -> Option<Refusal> {
    unless(
        valid_component(component),
        complaint(
            "Invalid network component ",
            component,
            ". Allowed: interface, vswitch, nic, all",
        ),
    )
}

/// The listing of one part, or of all of them.
pub open spec fn network_list(component: Option<String>) -> &'static str {
    match component {
        Some(c) => if c@ == "interface"@ {
            INTERFACES
        } else if c@ == "vswitch"@ {
            VSWITCHES
        } else if c@ == "nic"@ {
            NICS
        } else {
            ALL_NETWORKS
        },
        None => ALL_NETWORKS,
    }
}

/// Builds `esxcli` commands.
pub struct EsxiCommandBuilder;

impl EsxiCommandBuilder {
    pub fn validate_network_component(component: &str) -> (r: Result<(), BridgeError>)
        ensures
            checked(r, component_refusal(component@)),
    {
        if same_text(component, "interface") || same_text(component, "vswitch") || same_text(
            component,
            "nic",
        ) || same_text(component, "all") {
            Ok(())
        } else {
            Err(
                denied(
                    "Invalid network component ",
                    component,
                    ". Allowed: interface, vswitch, nic, all",
                ),
            )
        }
    }

    pub fn build_network_list_command(component: &Option<String>) -> (r: String)
        ensures
            r@ == network_list(*component)@,
    {
        let command: &str = match component {
            Some(c) => if same_text(c.as_str(), "interface") {
                INTERFACES
            } else if same_text(c.as_str(), "vswitch") {
                VSWITCHES
            } else if same_text(c.as_str(), "nic") {
                NICS
            } else {
                ALL_NETWORKS
            },
            None => ALL_NETWORKS,
        };
        command.to_owned()
    }
}

} // verus!
