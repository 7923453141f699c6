//! The operation allowlist of the Flutter/native contract: which command,
//! query and lifecycle names the runtime surface accepts.
use vstd::prelude::*;
use crate::text::str_eq;

verus! {

pub const SCHEMA_VERSION: u16 = 1;

pub const CONTRACT_VERSION: u16 = 15;

pub open spec fn command_names() -> Seq<Seq<char>> {
    seq![
        "profile.set"@,
        "pairing.create"@,
        "pairing.join"@,
        "pairing.approve"@,
        "pairing.reject"@,
        "pairing.cancel"@,
        "contact.rename"@,
        "contact.verify"@,
        "contact.verification.reset"@,
        "contact.block"@,
        "contact.unblock"@,
        "contact.remove"@,
        "conversation.clear"@,
        "message.send"@,
        "message.retry"@,
        "notifications.set"@,
        "contacts.acknowledge_new"@,
        "conversation.read"@,
        "attachment.queue"@,
        "attachment.retry"@,
        "attachment.cancel"@,
        "attachment.export"@,
        "diagnostics.observation.start"@,
    ]
}

pub open spec fn query_names() -> Seq<Seq<char>> {
    seq![
        "snapshot.get"@,
        "conversation.page"@,
        "conversation.search"@,
        "notifications.poll"@,
        "pairing.parse"@,
        "runtime.poll"@,
    ]
}

pub open spec fn lifecycle_names() -> Seq<Seq<char>> {
    seq![
        "host_started"@,
        "foregrounded"@,
        "backgrounded"@,
        "network_changed"@,
        "low_memory"@,
        "power_saver_on"@,
        "power_saver_off"@,
        "charging_on"@,
        "charging_off"@,
        "metered_network_on"@,
        "metered_network_off"@,
        "network_validated"@,
        "network_unvalidated"@,
        "data_stall_on"@,
        "data_stall_off"@,
        "terminating"@,
        "flutter_gateway_ready"@,
    ]
}

/// Whether the contract allows the operation `name` of kind `kind`.
pub open spec fn spec_contains(kind: Seq<char>, name: Seq<char>) -> bool {
    if kind == "command"@ {
        command_names().contains(name)
    } else if kind == "query"@ {
        query_names().contains(name)
    } else if kind == "lifecycle"@ {
        lifecycle_names().contains(name)
    } else {
        false
    }
}

/// Views of the names in `v`.
pub open spec fn views(v: Seq<&'static str>) -> Seq<Seq<char>> {
    v.map_values(|s: &'static str| s@)
}

pub fn commands() -> (v: Vec<&'static str>)
    ensures
        views(v@) == command_names(),
{
    let v = vec![
        "profile.set",
        "pairing.create",
        "pairing.join",
        "pairing.approve",
        "pairing.reject",
        "pairing.cancel",
        "contact.rename",
        "contact.verify",
        "contact.verification.reset",
        "contact.block",
        "contact.unblock",
        "contact.remove",
        "conversation.clear",
        "message.send",
        "message.retry",
        "notifications.set",
        "contacts.acknowledge_new",
        "conversation.read",
        "attachment.queue",
        "attachment.retry",
        "attachment.cancel",
        "attachment.export",
        "diagnostics.observation.start",
    ];
    assert(views(v@) =~= command_names());
    v
}

pub fn queries() -> (v: Vec<&'static str>)
    ensures
        views(v@) == query_names(),
{
    let v = vec![
        "snapshot.get",
        "conversation.page",
        "conversation.search",
        "notifications.poll",
        "pairing.parse",
        "runtime.poll",
    ];
    assert(views(v@) =~= query_names());
    v
}

pub fn lifecycle_events() -> (v: Vec<&'static str>)
    ensures
        views(v@) == lifecycle_names(),
{
    let v = vec![
        "host_started",
        "foregrounded",
        "backgrounded",
        "network_changed",
        "low_memory",
        "power_saver_on",
        "power_saver_off",
        "charging_on",
        "charging_off",
        "metered_network_on",
        "metered_network_off",
        "network_validated",
        "network_unvalidated",
        "data_stall_on",
        "data_stall_off",
        "terminating",
        "flutter_gateway_ready",
    ];
    assert(views(v@) =~= lifecycle_names());
    v
}

/// Whether one of `names` is `name`.
pub fn list_contains(names: &Vec<&'static str>, name: &str) -> (r: bool)
    ensures
        r == views(names@).contains(name@),
{
    let mut i: usize = 0;
    while i < names.len()
        invariant
            i <= names@.len(),
            forall|k: int| 0 <= k < i ==> names@[k]@ != name@,
        decreases names@.len() - i,
    {
        if str_eq(names[i], name) {
            assert(views(names@)[i as int] == name@);
            return true;
        }
        i = i + 1;
    }
    proof {
        if views(names@).contains(name@) {
            let k = choose|k: int| 0 <= k < views(names@).len() && views(names@)[k] == name@;
            assert(names@[k]@ == name@);
        }
    }
    false
}

/// Whether the contract allows the operation `name` of kind `kind`.
pub fn contains(kind: &str, name: &str) -> (r: bool)
    ensures
        r == spec_contains(kind@, name@),
{
    if str_eq(kind, "command") {
        list_contains(&commands(), name)
    } else if str_eq(kind, "query") {
        list_contains(&queries(), name)
    } else if str_eq(kind, "lifecycle") {
        list_contains(&lifecycle_events(), name)
    } else {
        false
    }
}

} // verus!
