//! Laws relating the adapter's decisions to what a recording plugin observes.
use crate::adapter::{
    activate_call, connect_port_call, deactivate_call, descriptor_of, handle_of, has_activate,
    has_connect_port, has_deactivate, has_extension_data, has_run, run_call,
};
use crate::instance::{Call, LilvInstance};
use crate::plugin_model::{answer, apply, latest, location, ModelView};
use vstd::prelude::*;

verus! {

/// The calls that a possibly skipped call contributes to a record.
pub open spec fn made(c: Option<Call>) -> Seq<Call> {
    match c {
        Some(c) => seq![c],
        None => Seq::empty(),
    }
}

/// The state after `k` run calls for blocks of `sample_count` frames.
pub open spec fn runs(
    v: ModelView,
    instance: Option<&LilvInstance>,
    sample_count: u32,
    k: nat,
) -> ModelView
    decreases k,
{
    if k == 0 {
        v
    } else {
        apply(runs(v, instance, sample_count, (k - 1) as nat), run_call(instance, sample_count))
    }
}

/// The state after one activation, `k` runs and a deactivation.
pub open spec fn cycle(
    v: ModelView,
    instance: Option<&LilvInstance>,
    sample_count: u32,
    k: nat,
) -> ModelView {
    apply(runs(apply(v, activate_call(instance)), instance, sample_count, k), deactivate_call(instance))
}

/// With no instance, no operation yields a call, and so nothing changes on
/// the plugin side; the queries yield nothing.
pub proof fn lemma_absent_instance_is_inert(
    v: ModelView,
    port_index: u32,
    data_location: usize,
    sample_count: u32,
)
    ensures
        connect_port_call(None, port_index, data_location) is None,
        activate_call(None) is None,
        run_call(None, sample_count) is None,
        deactivate_call(None) is None,
        !has_extension_data(None),
        descriptor_of(None) is None,
        handle_of(None) is None,
        apply(v, None) == v,
{
}

/// Binding a port makes it report the new location and leaves every other
/// port's binding as it was.
pub proof fn lemma_connect_port_binds(
    v: ModelView,
    instance: Option<&LilvInstance>,
    port_index: u32,
    data_location: usize,
    other: u32,
)
    requires
        has_connect_port(instance),
    ensures
        location(apply(v, connect_port_call(instance, port_index, data_location)), port_index)
            == Some(data_location),
        other != port_index ==> location(
            apply(v, connect_port_call(instance, port_index, data_location)),
            other,
        ) == location(v, other),
{
    let w = apply(v, connect_port_call(instance, port_index, data_location));
    assert(w.bindings.drop_last() =~= v.bindings);
}

/// Binding the same port twice leaves the second location in place, and
/// every other port's binding as it was.
pub proof fn lemma_connect_port_rebinds(
    v: ModelView,
    instance: Option<&LilvInstance>,
    port_index: u32,
    first: usize,
    second: usize,
    other: u32,
)
    requires
        has_connect_port(instance),
    ensures
        location(
            apply(
                apply(v, connect_port_call(instance, port_index, first)),
                connect_port_call(instance, port_index, second),
            ),
            port_index,
        ) == Some(second),
        other != port_index ==> location(
            apply(
                apply(v, connect_port_call(instance, port_index, first)),
                connect_port_call(instance, port_index, second),
            ),
            other,
        ) == location(v, other),
{
    let w = apply(v, connect_port_call(instance, port_index, first));
    lemma_connect_port_binds(v, instance, port_index, first, other);
    lemma_connect_port_binds(w, instance, port_index, second, other);
}

/// Activating, running and deactivating reaches each present slot once, in
/// that order, and skips each absent one.
pub proof fn lemma_lifecycle_order(v: ModelView, instance: Option<&LilvInstance>, sample_count: u32)
    ensures
        apply(
            apply(apply(v, activate_call(instance)), run_call(instance, sample_count)),
            deactivate_call(instance),
        ).calls == v.calls + made(activate_call(instance)) + made(
            run_call(instance, sample_count),
        ) + made(deactivate_call(instance)),
        has_activate(instance) && has_run(instance) && has_deactivate(instance) ==> apply(
            apply(apply(v, activate_call(instance)), run_call(instance, sample_count)),
            deactivate_call(instance),
        ).calls == v.calls + seq![
            Call::Activate { handle: handle_of(instance)->0 },
            Call::Run { handle: handle_of(instance)->0, sample_count },
            Call::Deactivate { handle: handle_of(instance)->0 },
        ],
{
    let a = apply(v, activate_call(instance));
    let r = apply(a, run_call(instance, sample_count));
    let d = apply(r, deactivate_call(instance));
    assert(a.calls =~= v.calls + made(activate_call(instance)));
    assert(r.calls =~= a.calls + made(run_call(instance, sample_count)));
    assert(d.calls =~= r.calls + made(deactivate_call(instance)));
    assert(v.calls + made(activate_call(instance)) + made(run_call(instance, sample_count)) + made(
        deactivate_call(instance),
    ) =~= d.calls);
    if has_activate(instance) && has_run(instance) && has_deactivate(instance) {
        assert(d.calls =~= v.calls + seq![
            Call::Activate { handle: handle_of(instance)->0 },
            Call::Run { handle: handle_of(instance)->0, sample_count },
            Call::Deactivate { handle: handle_of(instance)->0 },
        ]);
    }
}

/// A run on a descriptor without a run slot reaches nothing and records
/// nothing.
pub proof fn lemma_absent_run_is_skipped(
    v: ModelView,
    instance: Option<&LilvInstance>,
    sample_count: u32,
)
    requires
        !has_run(instance),
    ensures
        run_call(instance, sample_count) is None,
        apply(v, run_call(instance, sample_count)) == v,
{
}

proof fn lemma_unregistered(entries: Seq<(Seq<char>, usize)>, uri: Seq<char>)
    requires
        forall|i: int| 0 <= i < entries.len() ==> entries[i].0 != uri,
    ensures
        latest(entries, uri) is None,
    decreases entries.len(),
{
    if entries.len() > 0 {
        lemma_unregistered(entries.drop_last(), uri);
    }
}

/// An extension query for a URI that was never registered answers nothing;
/// one for a URI just registered answers the registered data.
pub proof fn lemma_extension_query(v: ModelView, query: Call, data: usize)
    requires
        query is ExtensionData,
    ensures
        (forall|i: int|
            0 <= i < v.extensions.len() ==> v.extensions[i].0 != query->ExtensionData_uri@)
            ==> answer(v, query) is None,
        answer(
            (ModelView {
                extensions: v.extensions.push((query->ExtensionData_uri@, data)),
                ..v
            }),
            query,
        ) == Some(data),
{
    if forall|i: int|
        0 <= i < v.extensions.len() ==> v.extensions[i].0 != query->ExtensionData_uri@ {
        lemma_unregistered(v.extensions, query->ExtensionData_uri@);
    }
}

proof fn lemma_runs(v: ModelView, instance: Option<&LilvInstance>, sample_count: u32, k: nat)
    requires
        has_run(instance),
    ensures
        runs(v, instance, sample_count, k).bindings == v.bindings,
        runs(v, instance, sample_count, k).active == v.active,
        runs(v, instance, sample_count, k).calls == v.calls + Seq::new(
            k,
            |i: int| Call::Run { handle: handle_of(instance)->0, sample_count },
        ),
    decreases k,
{
    let run = Call::Run { handle: handle_of(instance)->0, sample_count };
    if k == 0 {
        assert(v.calls + Seq::new(k, |i: int| run) =~= v.calls);
    } else {
        lemma_runs(v, instance, sample_count, (k - 1) as nat);
        assert(v.calls + Seq::new(k, |i: int| run) =~= (v.calls + Seq::new(
            (k - 1) as nat,
            |i: int| run,
        )).push(run));
    }
}

/// Two activation cycles with a rebinding between them: every run of the
/// first cycle sees the bindings made before it, every run of the second sees
/// the new location, the bindings outlive both deactivations, and the plugin
/// receives exactly the calls of the sequence, in order.
pub proof fn lemma_cycles_keep_bindings(
    v: ModelView,
    instance: Option<&LilvInstance>,
    sample_count: u32,
    port_index: u32,
    data_location: usize,
    other: u32,
)
    requires
        has_connect_port(instance),
        has_activate(instance),
        has_run(instance),
        has_deactivate(instance),
    ensures
        forall|j: nat|
            j <= 3 ==> #[trigger] runs(apply(v, activate_call(instance)), instance, sample_count, j).bindings
                == v.bindings,
        cycle(v, instance, sample_count, 3).bindings == v.bindings,
        forall|j: nat|
            j <= 2 ==> #[trigger] runs(
                apply(
                    apply(
                        cycle(v, instance, sample_count, 3),
                        connect_port_call(instance, port_index, data_location),
                    ),
                    activate_call(instance),
                ),
                instance,
                sample_count,
                j,
            ).bindings == v.bindings.push((port_index, data_location)),
        location(
            cycle(
                apply(
                    cycle(v, instance, sample_count, 3),
                    connect_port_call(instance, port_index, data_location),
                ),
                instance,
                sample_count,
                2,
            ),
            port_index,
        ) == Some(data_location),
        other != port_index ==> location(
            cycle(
                apply(
                    cycle(v, instance, sample_count, 3),
                    connect_port_call(instance, port_index, data_location),
                ),
                instance,
                sample_count,
                2,
            ),
            other,
        ) == location(v, other),
        !cycle(
            apply(
                cycle(v, instance, sample_count, 3),
                connect_port_call(instance, port_index, data_location),
            ),
            instance,
            sample_count,
            2,
        ).active,
        cycle(
            apply(
                cycle(v, instance, sample_count, 3),
                connect_port_call(instance, port_index, data_location),
            ),
            instance,
            sample_count,
            2,
        ).calls == v.calls + seq![
            Call::Activate { handle: handle_of(instance)->0 },
            Call::Run { handle: handle_of(instance)->0, sample_count },
            Call::Run { handle: handle_of(instance)->0, sample_count },
            Call::Run { handle: handle_of(instance)->0, sample_count },
            Call::Deactivate { handle: handle_of(instance)->0 },
            Call::ConnectPort { handle: handle_of(instance)->0, port_index, data_location },
            Call::Activate { handle: handle_of(instance)->0 },
            Call::Run { handle: handle_of(instance)->0, sample_count },
            Call::Run { handle: handle_of(instance)->0, sample_count },
            Call::Deactivate { handle: handle_of(instance)->0 },
        ],
{
    let h = handle_of(instance)->0;
    let run = Call::Run { handle: h, sample_count };
    let a1 = apply(v, activate_call(instance));
    assert forall|j: nat| j <= 3 implies #[trigger] runs(a1, instance, sample_count, j).bindings
        == v.bindings by {
        lemma_runs(a1, instance, sample_count, j);
    }
    lemma_runs(a1, instance, sample_count, 3);
    let c1 = cycle(v, instance, sample_count, 3);
    let b = apply(c1, connect_port_call(instance, port_index, data_location));
    lemma_connect_port_binds(c1, instance, port_index, data_location, other);
    let a2 = apply(b, activate_call(instance));
    assert forall|j: nat| j <= 2 implies #[trigger] runs(a2, instance, sample_count, j).bindings
        == v.bindings.push((port_index, data_location)) by {
        lemma_runs(a2, instance, sample_count, j);
    }
    lemma_runs(a2, instance, sample_count, 2);
    let c2 = cycle(b, instance, sample_count, 2);
    assert(c2.bindings == b.bindings);
    assert(c2.calls =~= v.calls + seq![
        Call::Activate { handle: h },
        run,
        run,
        run,
        Call::Deactivate { handle: h },
        Call::ConnectPort { handle: h, port_index, data_location },
        Call::Activate { handle: h },
        run,
        run,
        Call::Deactivate { handle: h },
    ]);
}

} // verus!
