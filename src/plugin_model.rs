//! A plugin that records what it is asked to do: it keeps every slot call in
//! order, the port bindings it was given, whether it is active, and answers
//! extension queries from a registry. It follows the state machine that a
//! host is expected to respect, without enforcing it.
use crate::instance::Call;
use vstd::prelude::*;

verus! {

/// The value of the latest entry for `key`, if any.
pub open spec fn latest<K>(entries: Seq<(K, usize)>, key: K) -> Option<usize>
    decreases entries.len(),
{
    if entries.len() == 0 {
        None
    } else if entries.last().0 == key {
        Some(entries.last().1)
    } else {
        latest(entries.drop_last(), key)
    }
}

/// What a `PluginModel` holds, as mathematical values.
pub struct ModelView {
    /// Every slot call received, oldest first.
    pub calls: Seq<Call>,
    /// Every port binding received, oldest first; the latest one for a port
    /// is its current location.
    pub bindings: Seq<(u32, usize)>,
    /// Registered extensions, oldest first; the latest one for a URI wins.
    pub extensions: Seq<(Seq<char>, usize)>,
    pub active: bool,
}

/// The location that port `port` is currently bound to.
pub open spec fn location(v: ModelView, port: u32) -> Option<usize> {
    latest(v.bindings, port)
}

/// The state after the plugin receives `c`.
pub open spec fn after(v: ModelView, c: Call) -> ModelView {
    ModelView {
        calls: v.calls.push(c),
        bindings: match c {
            Call::ConnectPort { port_index, data_location, .. } => v.bindings.push(
                (port_index, data_location),
            ),
            _ => v.bindings,
        },
        extensions: v.extensions,
        active: match c {
            Call::Activate { .. } => true,
            Call::Deactivate { .. } => false,
            _ => v.active,
        },
    }
}

/// What the plugin answers to `c`: the registered data for an extension
/// query, nothing for any other call.
pub open spec fn answer(v: ModelView, c: Call) -> Option<usize> {
    match c {
        Call::ExtensionData { uri } => latest(v.extensions, uri@),
        _ => None,
    }
}

/// The state after the plugin receives `c`, if a call is made at all.
pub open spec fn apply(v: ModelView, c: Option<Call>) -> ModelView {
    match c {
        Some(c) => after(v, c),
        None => v,
    }
}

pub struct PluginModel {
    calls: Vec<Call>,
    bindings: Vec<(u32, usize)>,
    extensions: Vec<(String, usize)>,
    active: bool,
}

impl View for PluginModel {
    type V = ModelView;

    closed spec fn view(&self) -> ModelView {
        ModelView {
            calls: self.calls@,
            bindings: self.bindings@,
            extensions: self.extensions@.map_values(|e: (String, usize)| (e.0@, e.1)),
            active: self.active,
        }
    }
}

impl PluginModel {
    /// A fresh plugin: no calls, no bindings, no extensions, not active.
    pub fn new() -> (r: PluginModel)
        ensures
            r@.calls == Seq::<Call>::empty(),
            r@.bindings == Seq::<(u32, usize)>::empty(),
            r@.extensions == Seq::<(Seq<char>, usize)>::empty(),
            !r@.active,
    {
        let r = PluginModel {
            calls: Vec::new(),
            bindings: Vec::new(),
            extensions: Vec::new(),
            active: false,
        };
        assert(r@.extensions =~= Seq::<(Seq<char>, usize)>::empty());
        r
    }

    /// Makes extension queries for `uri` answer `data`.
    pub fn register_extension(&mut self, uri: &str, data: usize)
        ensures
            final(self)@ == (ModelView {
                extensions: old(self)@.extensions.push((uri@, data)),
                ..old(self)@
            }),
    {
        self.extensions.push((uri.to_owned(), data));
        assert(self@.extensions =~= old(self)@.extensions.push((uri@, data)));
    }

    /// Receives one slot call and gives the plugin's answer to it.
    pub fn perform(&mut self, call: Call) -> (r: Option<usize>)
        ensures
            final(self)@ == after(old(self)@, call),
            r == answer(old(self)@, call),
    {
        let r = match &call {
            Call::ConnectPort { port_index, data_location, .. } => {
                self.bindings.push((*port_index, *data_location));
                None
            },
            Call::Activate { .. } => {
                self.active = true;
                None
            },
            Call::Deactivate { .. } => {
                self.active = false;
                None
            },
            Call::Run { .. } => None,
            Call::ExtensionData { uri } => self.find_extension(uri),
        };
        self.calls.push(call);
        assert(self@.extensions =~= old(self)@.extensions);
        r
    }

    fn find_extension(&self, uri: &String) -> (r: Option<usize>)
        ensures
            r == latest(self@.extensions, uri@),
    {
        let ghost all = self@.extensions;
        let mut i: usize = self.extensions.len();
        assert(all.subrange(0, i as int) =~= all);
        while i > 0
            invariant
                i <= self.extensions.len(),
                all == self@.extensions,
                latest(all, uri@) == latest(all.subrange(0, i as int), uri@),
            decreases i,
        {
            let ghost before = all.subrange(0, i as int);
            assert(before.drop_last() =~= all.subrange(0, i - 1));
            i = i - 1;
            if self.extensions[i].0 == *uri {
                return Some(self.extensions[i].1);
            }
        }
        assert(all.subrange(0, 0) =~= Seq::<(Seq<char>, usize)>::empty());
        None
    }

    /// The location that port `port` is currently bound to.
    pub fn port_location(&self, port: u32) -> (r: Option<usize>)
        ensures
            r == location(self@, port),
    {
        let ghost all = self@.bindings;
        let mut i: usize = self.bindings.len();
        assert(all.subrange(0, i as int) =~= all);
        while i > 0
            invariant
                i <= self.bindings.len(),
                all == self@.bindings,
                latest(all, port) == latest(all.subrange(0, i as int), port),
            decreases i,
        {
            let ghost before = all.subrange(0, i as int);
            assert(before.drop_last() =~= all.subrange(0, i - 1));
            i = i - 1;
            if self.bindings[i].0 == port {
                return Some(self.bindings[i].1);
            }
        }
        assert(all.subrange(0, 0) =~= Seq::<(u32, usize)>::empty());
        None
    }

    /// The slot calls received so far, oldest first.
    pub fn calls(&self) -> (r: &Vec<Call>)
        ensures
            r@ == self@.calls,
    {
        &self.calls
    }

    /// Whether the last lifecycle call received was an activation.
    pub fn is_active(&self) -> (r: bool)
        ensures
            r == self@.active,
    {
        self.active
    }
}

} // verus!
