//! The Home Assistant discovery document that announces an action as a button.
use vstd::prelude::*;

use crate::action::{command_topic_of, Action};
use crate::text::slug_of;

verus! {

/// The device that the announced buttons belong to.
#[derive(Clone, Debug)]
pub struct DeviceInfo {
    pub name: String,
    pub identifiers: Vec<String>,
    pub manufacturer: Option<String>,
    pub model: Option<String>,
}

/// The discovery document; a field that is `None` is left out of the encoding.
#[derive(Clone, Debug)]
pub struct DiscoveryInfo {
    pub name: String,
    pub unique_id: String,
    pub command_topic: String,
    pub device: DeviceInfo,
    pub availability_topic: String,
    pub icon: Option<String>,
    pub payload_press: Option<String>,
    pub entity_category: Option<String>,
}

/// The view of an optional string.
pub open spec fn opt_view(o: Option<String>) -> Option<Seq<char>> {
    match o {
        Some(s) => Some(s@),
        None => None,
    }
}

/// `"mqtt-bridge @ {host}"`, the device name shown for a host.
pub open spec fn device_name_of(host: Seq<char>) -> Seq<char> {
    "mqtt-bridge @ "@ + host
}

/// `info` is the discovery document of action `a` on the machine `host`.
pub open spec fn is_discovery_of(info: DiscoveryInfo, a: Action, host: Seq<char>) -> bool {
    &&& info.name@ == a.name@
    &&& info.unique_id@ == slug_of(a.name@)
    &&& info.command_topic@ == command_topic_of(a.instance_name@, a.name@)
    &&& info.availability_topic@ == a.availability_topic@
    &&& opt_view(info.icon) == opt_view(a.icon)
    &&& info.payload_press is None
    &&& info.entity_category is None
    &&& info.device.name@ == device_name_of(host)
    &&& info.device.identifiers@.len() == 1
    &&& info.device.identifiers@[0]@ == host
    &&& info.device.manufacturer is None
    &&& info.device.model is None
}

/// The names of the fields that the encoding of `info` carries: the present
/// ones, none of the absent.
pub open spec fn present_fields(info: DiscoveryInfo) -> Set<Seq<char>> {
    set!["name"@, "unique_id"@, "command_topic"@, "device"@, "availability_topic"@]
        + (if info.icon is Some { set!["icon"@] } else { Set::empty() })
        + (if info.payload_press is Some { set!["payload_press"@] } else { Set::empty() })
        + (if info.entity_category is Some { set!["entity_category"@] } else { Set::empty() })
}

/// The names of the fields that the encoding of `device` carries.
pub open spec fn present_device_fields(device: DeviceInfo) -> Set<Seq<char>> {
    set!["name"@, "identifiers"@]
        + (if device.manufacturer is Some { set!["manufacturer"@] } else { Set::empty() })
        + (if device.model is Some { set!["model"@] } else { Set::empty() })
}

/// The discovery document of an action carries exactly the fields name,
/// unique_id, command_topic, availability_topic, device, and icon when the
/// action has one; its device carries exactly name and identifiers.
pub proof fn lemma_discovery_fields(info: DiscoveryInfo, a: Action, host: Seq<char>)
    requires
        is_discovery_of(info, a, host),
    ensures
        present_fields(info) == set![
            "name"@,
            "unique_id"@,
            "command_topic"@,
            "device"@,
            "availability_topic"@,
        ] + (if a.icon is Some { set!["icon"@] } else { Set::empty() }),
        present_device_fields(info.device) == set!["name"@, "identifiers"@],
{
    assert(present_fields(info) =~= set![
        "name"@,
        "unique_id"@,
        "command_topic"@,
        "device"@,
        "availability_topic"@,
    ] + (if a.icon is Some { set!["icon"@] } else { Set::empty() }));
    assert(present_device_fields(info.device) =~= set!["name"@, "identifiers"@]);
}

/// Relies on `gethostname::gethostname`: the machine's host name, `None`
/// where it is not valid UTF-8.
#[verifier::external_body]
fn host_name() -> (r: Option<String>) {
    gethostname::gethostname().into_string().ok()
}

fn clone_opt(o: &Option<String>) -> (r: Option<String>)
    ensures
        opt_view(r) == opt_view(*o),
{
    match o {
        Some(s) => Some(s.clone()),
        None => None,
    }
}

impl Action {
    /// The discovery document of this action on the machine named `host`.
    pub fn discovery_info(&self, host: &str) -> (r: DiscoveryInfo)
        ensures
            is_discovery_of(r, *self, host@),
    {
        let mut device_name = String::from_str("mqtt-bridge @ ");
        device_name.append(host);
        let mut identifiers: Vec<String> = Vec::new();
        identifiers.push(String::from_str(host));
        DiscoveryInfo {
            name: self.name.clone(),
            unique_id: self.unique_id(),
            command_topic: self.command_topic(),
            device: DeviceInfo { name: device_name, identifiers, manufacturer: None, model: None },
            availability_topic: self.availability_topic.clone(),
            icon: clone_opt(&self.icon),
            payload_press: None,
            entity_category: None,
        }
    }

    /// The discovery document of this action on this machine; `None` when
    /// the host name is not valid UTF-8.
    pub fn discovery_document(&self) -> (r: Option<DiscoveryInfo>)
        ensures
            r matches Some(info) ==> exists|host: Seq<char>| is_discovery_of(info, *self, host),
    {
        match host_name() {
            Some(host) => {
                let info = self.discovery_info(host.as_str());
                Some(info)
            },
            None => None,
        }
    }
}

} // verus!
