use lilv_instance::{
    lilv_instance_activate, lilv_instance_connect_port, lilv_instance_deactivate,
    lilv_instance_get_extension_data, lilv_instance_run, Call, Descriptor, Handle, LilvInstance,
    PluginModel, Slot,
};

fn instance(optional: Slot, run: Slot) -> LilvInstance {
    LilvInstance {
        descriptor: Some(Descriptor {
            uri: "urn:example:gain".to_string(),
            connect_port: Slot::Present,
            activate: optional,
            run,
            deactivate: optional,
            extension_data: optional,
        }),
        handle: Handle::from_raw(7),
    }
}

fn drive(model: &mut PluginModel, call: Option<Call>) -> Option<usize> {
    match call {
        Some(c) => model.perform(c),
        None => None,
    }
}

#[test]
fn connect_port_then_location() {
    let inst = instance(Slot::Present, Slot::Present);
    let mut model = PluginModel::new();
    drive(&mut model, lilv_instance_connect_port(Some(&inst), 0, 0x100));
    assert_eq!(model.port_location(0), Some(0x100));
    drive(&mut model, lilv_instance_connect_port(Some(&inst), 1, 0x200));
    drive(&mut model, lilv_instance_connect_port(Some(&inst), 0, 0x300));
    assert_eq!(model.port_location(0), Some(0x300));
    assert_eq!(model.port_location(1), Some(0x200));
    assert_eq!(model.port_location(2), None);
}

#[test]
fn lifecycle_calls_recorded_in_order() {
    let inst = instance(Slot::Present, Slot::Present);
    let h = Handle::from_raw(7);
    let mut model = PluginModel::new();
    drive(&mut model, lilv_instance_activate(Some(&inst)));
    assert!(model.is_active());
    drive(&mut model, lilv_instance_run(Some(&inst), 128));
    drive(&mut model, lilv_instance_deactivate(Some(&inst)));
    assert!(!model.is_active());
    assert_eq!(
        model.calls(),
        &vec![
            Call::Activate { handle: h },
            Call::Run { handle: h, sample_count: 128 },
            Call::Deactivate { handle: h },
        ]
    );
}

#[test]
fn run_without_slot_records_nothing() {
    let inst = instance(Slot::Present, Slot::Absent);
    let mut model = PluginModel::new();
    drive(&mut model, lilv_instance_run(Some(&inst), 128));
    assert!(model.calls().is_empty());
}

#[test]
fn extension_query_answers_registered_data() {
    let inst = instance(Slot::Present, Slot::Present);
    let mut model = PluginModel::new();
    model.register_extension("urn:example:state", 0xabc);
    let unknown = lilv_instance_get_extension_data(Some(&inst), "urn:example:worker");
    assert_eq!(drive(&mut model, unknown), None);
    let known = lilv_instance_get_extension_data(Some(&inst), "urn:example:state");
    assert_eq!(drive(&mut model, known), Some(0xabc));
    model.register_extension("urn:example:state", 0xdef);
    let again = lilv_instance_get_extension_data(Some(&inst), "urn:example:state");
    assert_eq!(drive(&mut model, again), Some(0xdef));
}

#[test]
fn repeated_cycles_keep_port_bindings() {
    let inst = instance(Slot::Present, Slot::Present);
    let h = Handle::from_raw(7);
    let mut model = PluginModel::new();
    drive(&mut model, lilv_instance_connect_port(Some(&inst), 0, 0x100));
    drive(&mut model, lilv_instance_connect_port(Some(&inst), 1, 0x200));
    drive(&mut model, lilv_instance_activate(Some(&inst)));
    for _ in 0..3 {
        drive(&mut model, lilv_instance_run(Some(&inst), 64));
        assert_eq!(model.port_location(0), Some(0x100));
        assert_eq!(model.port_location(1), Some(0x200));
    }
    drive(&mut model, lilv_instance_deactivate(Some(&inst)));
    drive(&mut model, lilv_instance_connect_port(Some(&inst), 0, 0x400));
    drive(&mut model, lilv_instance_activate(Some(&inst)));
    for _ in 0..2 {
        drive(&mut model, lilv_instance_run(Some(&inst), 64));
        assert_eq!(model.port_location(0), Some(0x400));
        assert_eq!(model.port_location(1), Some(0x200));
    }
    drive(&mut model, lilv_instance_deactivate(Some(&inst)));
    assert!(!model.is_active());
    let run = Call::Run { handle: h, sample_count: 64 };
    assert_eq!(model.calls().len(), 12);
    assert_eq!(model.calls()[2], Call::Activate { handle: h });
    assert_eq!(model.calls()[5], run);
    assert_eq!(model.calls()[6], Call::Deactivate { handle: h });
    assert_eq!(
        model.calls()[7],
        Call::ConnectPort { handle: h, port_index: 0, data_location: 0x400 }
    );
    assert_eq!(model.calls()[11], Call::Deactivate { handle: h });
}

#[test]
fn minimal_descriptor_optional_calls_are_no_ops() {
    let inst = instance(Slot::Absent, Slot::Present);
    let mut model = PluginModel::new();
    model.register_extension("urn:example:state", 1);
    assert_eq!(drive(&mut model, lilv_instance_activate(Some(&inst))), None);
    assert_eq!(drive(&mut model, lilv_instance_deactivate(Some(&inst))), None);
    let q = lilv_instance_get_extension_data(Some(&inst), "urn:example:state");
    assert_eq!(drive(&mut model, q), None);
    assert!(model.calls().is_empty());
    assert!(!model.is_active());
}

#[test]
fn absent_instance_leaves_the_plugin_untouched() {
    let mut model = PluginModel::new();
    drive(&mut model, lilv_instance_connect_port(None, 0, 0x100));
    drive(&mut model, lilv_instance_activate(None));
    drive(&mut model, lilv_instance_run(None, 64));
    drive(&mut model, lilv_instance_deactivate(None));
    assert!(model.calls().is_empty());
    assert_eq!(model.port_location(0), None);
}
