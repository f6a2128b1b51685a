use vstd::prelude::*;

verus! {

/// An opaque per-instantiation token, meaningful only to the plugin.
///
/// The host never looks inside it; it only passes it back with each slot call.
#[derive(Clone, Copy, Debug, PartialEq, Eq, Structural)]
pub struct Handle {
    token: usize,
}

impl Handle {
    pub closed spec fn raw(self) -> usize {
        self.token
    }

    /// Wraps the plugin's raw handle value.
    pub fn from_raw(token: usize) -> (r: Handle)
        ensures
            r.raw() == token,
    {
        Handle { token }
    }

    /// The raw value, to be handed back to the plugin unchanged.
    pub fn into_raw(self) -> (r: usize)
        ensures
            r == self.raw(),
    {
        self.token
    }
}

/// Whether a descriptor provides a function for a slot.
#[derive(Clone, Copy, Debug, PartialEq, Eq, Structural)]
pub enum Slot {
    Present,
    Absent,
}

/// The capability table of a plugin type, with its identifying URI.
///
/// `connect_port` and `run` are mandatory by contract, but a malformed table
/// may still lack them, so every slot records its presence.
#[derive(Clone, Debug)]
pub struct Descriptor {
    pub uri: String,
    pub connect_port: Slot,
    pub activate: Slot,
    pub run: Slot,
    pub deactivate: Slot,
    pub extension_data: Slot,
}

/// One instantiated plugin: its handle and the descriptor of its type, which
/// may be absent.
#[derive(Clone, Debug)]
pub struct LilvInstance {
    pub descriptor: Option<Descriptor>,
    pub handle: Handle,
}

/// A call into one slot of a descriptor, with the arguments it receives.
#[derive(Clone, Debug, PartialEq, Eq)]
pub enum Call {
    ConnectPort { handle: Handle, port_index: u32, data_location: usize },
    Activate { handle: Handle },
    Run { handle: Handle, sample_count: u32 },
    Deactivate { handle: Handle },
    ExtensionData { uri: String },
}

} // verus!
