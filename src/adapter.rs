//! The guarded call-through operations. Each one inspects the optional
//! instance, its optional descriptor and the relevant slot, and yields the
//! slot call that is owed, or nothing where any of them is absent.
use crate::instance::{Call, Descriptor, Handle, LilvInstance, Slot};
use vstd::prelude::*;

verus! {

/// The descriptor of a present instance, if it has one.
pub open spec fn descriptor_of(instance: Option<&LilvInstance>) -> Option<Descriptor> {
    match instance {
        Some(i) => i.descriptor,
        None => None,
    }
}

/// The handle of a present instance.
pub open spec fn handle_of(instance: Option<&LilvInstance>) -> Option<Handle> {
    match instance {
        Some(i) => Some(i.handle),
        None => None,
    }
}

pub open spec fn has_connect_port(instance: Option<&LilvInstance>) -> bool {
    descriptor_of(instance) is Some && descriptor_of(instance)->0.connect_port is Present
}

pub open spec fn has_activate(instance: Option<&LilvInstance>) -> bool {
    descriptor_of(instance) is Some && descriptor_of(instance)->0.activate is Present
}

pub open spec fn has_run(instance: Option<&LilvInstance>) -> bool {
    descriptor_of(instance) is Some && descriptor_of(instance)->0.run is Present
}

pub open spec fn has_deactivate(instance: Option<&LilvInstance>) -> bool {
    descriptor_of(instance) is Some && descriptor_of(instance)->0.deactivate is Present
}

pub open spec fn has_extension_data(instance: Option<&LilvInstance>) -> bool {
    descriptor_of(instance) is Some && descriptor_of(instance)->0.extension_data is Present
}

/// The binding call owed for `port_index`, if the slot can be reached.
pub open spec fn connect_port_call(
    instance: Option<&LilvInstance>,
    port_index: u32,
    data_location: usize,
) -> Option<Call> {
    if has_connect_port(instance) {
        Some(Call::ConnectPort { handle: handle_of(instance)->0, port_index, data_location })
    } else {
        None
    }
}

pub open spec fn activate_call(instance: Option<&LilvInstance>) -> Option<Call> {
    if has_activate(instance) {
        Some(Call::Activate { handle: handle_of(instance)->0 })
    } else {
        None
    }
}

pub open spec fn run_call(instance: Option<&LilvInstance>, sample_count: u32) -> Option<Call> {
    if has_run(instance) {
        Some(Call::Run { handle: handle_of(instance)->0, sample_count })
    } else {
        None
    }
}

pub open spec fn deactivate_call(instance: Option<&LilvInstance>) -> Option<Call> {
    if has_deactivate(instance) {
        Some(Call::Deactivate { handle: handle_of(instance)->0 })
    } else {
        None
    }
}

/// The identifying URI of the instance's plugin type; none where the
/// instance or its descriptor is absent.
pub fn lilv_instance_get_uri(instance: Option<&LilvInstance>) -> (r: Option<&str>)
    ensures
        r is Some <==> descriptor_of(instance) is Some,
        r is Some ==> r->0@ == descriptor_of(instance)->0.uri@,
{
    match instance {
        Some(i) => match &i.descriptor {
            Some(d) => Some(d.uri.as_str()),
            None => None,
        },
        None => None,
    }
}

/// The call that binds port `port_index` to `data_location`. Owed in any
/// state of the instance; a later binding of the same port replaces it.
pub fn lilv_instance_connect_port(
    instance: Option<&LilvInstance>,
    port_index: u32,
    data_location: usize,
) -> (r: Option<Call>)
    ensures
        r == connect_port_call(instance, port_index, data_location),
{
    match instance {
        Some(i) => match &i.descriptor {
            Some(d) => match d.connect_port {
                Slot::Present => Some(Call::ConnectPort { handle: i.handle, port_index, data_location }),
                Slot::Absent => None,
            },
            None => None,
        },
        None => None,
    }
}

/// The call that activates the instance, resetting its state but for port
/// bindings. Must come before the first run.
pub fn lilv_instance_activate(instance: Option<&LilvInstance>) -> (r: Option<Call>)
    ensures
        r == activate_call(instance),
{
    match instance {
        Some(i) => match &i.descriptor {
            Some(d) => match d.activate {
                Slot::Present => Some(Call::Activate { handle: i.handle }),
                Slot::Absent => None,
            },
            None => None,
        },
        None => None,
    }
}

/// The call that processes one block of `sample_count` frames. Only to be
/// made while the instance is active; that discipline is the caller's.
pub fn lilv_instance_run(instance: Option<&LilvInstance>, sample_count: u32) -> (r: Option<Call>)
    ensures
        r == run_call(instance, sample_count),
{
    match instance {
        Some(i) => match &i.descriptor {
            Some(d) => match d.run {
                Slot::Present => Some(Call::Run { handle: i.handle, sample_count }),
                Slot::Absent => None,
            },
            None => None,
        },
        None => None,
    }
}

/// The call that ends the active state. Port bindings survive it.
pub fn lilv_instance_deactivate(instance: Option<&LilvInstance>) -> (r: Option<Call>)
    ensures
        r == deactivate_call(instance),
{
    match instance {
        Some(i) => match &i.descriptor {
            Some(d) => match d.deactivate {
                Slot::Present => Some(Call::Deactivate { handle: i.handle }),
                Slot::Absent => None,
            },
            None => None,
        },
        None => None,
    }
}

/// The query for the extension identified by `uri`. What the plugin answers
/// is opaque here and owned by the plugin.
pub fn lilv_instance_get_extension_data(instance: Option<&LilvInstance>, uri: &str) -> (r: Option<
    Call,
>)
    ensures
        r is Some <==> has_extension_data(instance),
        r is Some ==> r->0 is ExtensionData && r->0->ExtensionData_uri@ == uri@,
{
    match instance {
        Some(i) => match &i.descriptor {
            Some(d) => match d.extension_data {
                Slot::Present => Some(Call::ExtensionData { uri: uri.to_owned() }),
                Slot::Absent => None,
            },
            None => None,
        },
        None => None,
    }
}

/// The descriptor as stored, for callers that must bypass the adapter.
pub fn lilv_instance_get_descriptor(instance: Option<&LilvInstance>) -> (r: Option<&Descriptor>)
    ensures
        r is Some <==> descriptor_of(instance) is Some,
        r is Some ==> *r->0 == descriptor_of(instance)->0,
{
    match instance {
        Some(i) => i.descriptor.as_ref(),
        None => None,
    }
}

/// The handle as stored, for callers that must bypass the adapter.
pub fn lilv_instance_get_handle(instance: Option<&LilvInstance>) -> (r: Option<Handle>)
    ensures
        r == handle_of(instance),
{
    match instance {
        Some(i) => Some(i.handle),
        None => None,
    }
}

} // verus!
