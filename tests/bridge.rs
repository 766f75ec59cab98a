use gateway_bridge::dispatch::{Dispatch, Plugin};
use gateway_bridge::handshake::{
    address_from_reply, channel_address, to_io_error, GatewayRegisterMessage, HandshakeError,
    PluginRegisterMessage, BASE_URL,
};
use gateway_bridge::json::Json;
use gateway_bridge::message::{GatewayMessage, PluginMessage, Property};
use gateway_bridge::registry::{Adapter, Device};
use gateway_bridge::relay::Relay;

fn s(x: &str) -> String {
    x.to_string()
}

fn on_true() -> Property {
    Property { name: s("on"), value: Json::Bool(true) }
}

fn registry() -> Plugin {
    let mut plugin = Plugin::new("mqtt");
    let mut adapter = Adapter::new("a1");
    assert!(adapter.add_device(Device::new("d1")));
    assert!(plugin.add_adapter(adapter));
    plugin
}

fn set_on(plugin_id: &str, adapter_id: &str, device_id: &str) -> GatewayMessage {
    GatewayMessage::SetProperty {
        plugin_id: s(plugin_id),
        adapter_id: s(adapter_id),
        device_id: s(device_id),
        property: on_true(),
    }
}

fn all_gateway_messages() -> Vec<GatewayMessage> {
    vec![
        GatewayMessage::UnloadPlugin { plugin_id: s("mqtt") },
        GatewayMessage::UnloadAdapter { plugin_id: s("mqtt"), adapter_id: s("a1") },
        set_on("mqtt", "a1", "d1"),
        GatewayMessage::StartPairing {
            plugin_id: s("mqtt"),
            adapter_id: s("a1"),
            timeout: serde_json::Number::from(60u64),
        },
        GatewayMessage::CancelPairing { plugin_id: s("mqtt"), adapter_id: s("a1") },
        GatewayMessage::RemoveThing { plugin_id: s("mqtt"), adapter_id: s("a1"), device_id: s("d1") },
        GatewayMessage::CancelRemoveThing { plugin_id: s("mqtt"), adapter_id: s("a1"), device_id: s("d1") },
    ]
}

fn all_plugin_messages() -> Vec<PluginMessage> {
    vec![
        PluginMessage::PluginUnloaded { plugin_id: s("mqtt") },
        PluginMessage::AdapterUnloaded { plugin_id: s("mqtt"), adapter_id: s("a1") },
        PluginMessage::AddAdapter { plugin_id: s("mqtt"), adapter_id: s("a1"), name: s("Lights") },
        PluginMessage::HandleDeviceAdded {
            plugin_id: s("mqtt"),
            adapter_id: s("a1"),
            id: s("d1"),
            name: s("Lamp"),
            typ: s("onOffSwitch"),
            properties: vec![(s("on"), Json::Obj(vec![(s("type"), Json::Str(s("boolean")))]))],
            actions: vec![],
        },
        PluginMessage::HandleDeviceRemoved { plugin_id: s("mqtt"), adapter_id: s("a1"), id: s("d1") },
        PluginMessage::PropertyChanged {
            plugin_id: s("mqtt"),
            adapter_id: s("a1"),
            device_id: s("d1"),
            property: Property {
                name: s("level"),
                value: Json::Arr(vec![Json::Null, Json::Num(serde_json::Number::from(-3i64))]),
            },
        },
    ]
}

#[test]
fn handshake_reply_gives_channel_address() {
    let reply = br#"{"messageType":"registerPluginReply","data":{"pluginId":"mqtt","ipcBaseAddr":"gateway.plugin.mqtt"}}"#;
    assert_eq!(BASE_URL, "ipc:///tmp");
    let address = address_from_reply(BASE_URL, reply).unwrap();
    assert_eq!(address, "ipc:///tmp/gateway.plugin.mqtt");
}

#[test]
fn channel_address_joins_with_slash() {
    let reply = GatewayRegisterMessage::RegisterPluginReply { plugin_id: s("x"), ipc_base_addr: s("y.z") };
    assert_eq!(channel_address("ipc:///base", &reply), "ipc:///base/y.z");
}

#[test]
fn handshake_reply_malformed() {
    assert_eq!(address_from_reply(BASE_URL, b"not json"), Err(HandshakeError::MalformedReply));
    let wrong_tag = br#"{"messageType":"registerPlugin","data":{"pluginId":"mqtt","ipcBaseAddr":"a"}}"#;
    assert_eq!(address_from_reply(BASE_URL, wrong_tag), Err(HandshakeError::MalformedReply));
    let missing = br#"{"messageType":"registerPluginReply","data":{"pluginId":"mqtt"}}"#;
    assert_eq!(address_from_reply(BASE_URL, missing), Err(HandshakeError::MalformedReply));
}

#[test]
fn handshake_error_as_io_error() {
    let e = to_io_error(HandshakeError::MalformedReply);
    assert_eq!(e.kind(), std::io::ErrorKind::Other);
    assert_eq!(e.to_string(), "malformed registration reply");
}

#[test]
fn register_request_bytes() {
    let bytes = PluginRegisterMessage::RegisterPlugin { plugin_id: s("mqtt") }.encode();
    assert_eq!(
        String::from_utf8(bytes).unwrap(),
        r#"{"data":{"pluginId":"mqtt"},"messageType":"registerPlugin"}"#
    );
}

#[test]
fn register_messages_round_trip() {
    let req = PluginRegisterMessage::RegisterPlugin { plugin_id: s("mqtt") };
    let j = req.to_json();
    assert_eq!(
        PluginRegisterMessage::from_json(j),
        Some(PluginRegisterMessage::RegisterPlugin { plugin_id: s("mqtt") })
    );
    let rep = GatewayRegisterMessage::RegisterPluginReply { plugin_id: s("mqtt"), ipc_base_addr: s("g.p.m") };
    let j = rep.to_json();
    let back = GatewayRegisterMessage::from_json(j);
    assert_eq!(
        back,
        Some(GatewayRegisterMessage::RegisterPluginReply { plugin_id: s("mqtt"), ipc_base_addr: s("g.p.m") })
    );
}

#[test]
fn gateway_messages_round_trip() {
    let expected = all_gateway_messages();
    for (m, e) in all_gateway_messages().into_iter().zip(expected.into_iter()) {
        let bytes = m.encode();
        assert_eq!(GatewayMessage::decode(&bytes), Some(e));
    }
}

#[test]
fn plugin_messages_round_trip() {
    let expected = all_plugin_messages();
    for (m, e) in all_plugin_messages().into_iter().zip(expected.into_iter()) {
        let bytes = m.encode();
        assert_eq!(PluginMessage::decode(&bytes), Some(e));
    }
}

#[test]
fn plugin_unloaded_bytes() {
    let bytes = PluginMessage::PluginUnloaded { plugin_id: s("mqtt") }.encode();
    assert_eq!(
        String::from_utf8(bytes).unwrap(),
        r#"{"data":{"pluginId":"mqtt"},"messageType":"pluginUnloaded"}"#
    );
}

#[test]
fn decode_set_property_frame() {
    let frame = br#"{"messageType":"setProperty","data":{"pluginId":"mqtt","adapterId":"a1","deviceId":"d1","property":{"name":"on","value":true}}}"#;
    assert_eq!(GatewayMessage::decode(frame), Some(set_on("mqtt", "a1", "d1")));
}

#[test]
fn decode_start_pairing_keeps_fractional_timeout() {
    let frame = br#"{"messageType":"startPairing","data":{"pluginId":"mqtt","adapterId":"a1","timeout":2.5}}"#;
    match GatewayMessage::decode(frame) {
        Some(GatewayMessage::StartPairing { plugin_id, adapter_id, timeout }) => {
            assert_eq!(plugin_id, "mqtt");
            assert_eq!(adapter_id, "a1");
            assert_eq!(timeout.to_string(), "2.5");
        },
        other => panic!("unexpected {:?}", other),
    }
}

#[test]
fn decode_rejects_malformed_frames() {
    assert_eq!(GatewayMessage::decode(b""), None);
    assert_eq!(GatewayMessage::decode(b"{\"messageType\":"), None);
    assert_eq!(GatewayMessage::decode(br#"{"messageType":"bogus","data":{"pluginId":"mqtt"}}"#), None);
    assert_eq!(GatewayMessage::decode(br#"{"messageType":"unloadAdapter","data":{"pluginId":"mqtt"}}"#), None);
    assert_eq!(GatewayMessage::decode(br#"{"messageType":"unloadPlugin","data":{"pluginId":7}}"#), None);
    assert_eq!(GatewayMessage::decode(br#"[1,2,3]"#), None);
}

#[test]
fn decode_ignores_extra_members() {
    let frame = br#"{"extra":1,"messageType":"unloadPlugin","data":{"pluginId":"mqtt","adapterId":"a9"}}"#;
    assert_eq!(GatewayMessage::decode(frame), Some(GatewayMessage::UnloadPlugin { plugin_id: s("mqtt") }));
}

#[test]
fn set_property_reaches_device() {
    let mut plugin = registry();
    let frame = br#"{"messageType":"setProperty","data":{"pluginId":"mqtt","adapterId":"a1","deviceId":"d1","property":{"name":"on","value":true}}}"#;
    let msg = GatewayMessage::decode(frame).unwrap();
    assert_eq!(plugin.handle_msg(msg), Dispatch::Done);
    let device = &plugin.adapters[0].devices[0];
    assert_eq!(device.id, "d1");
    assert_eq!(device.props, vec![on_true()]);
}

#[test]
fn set_property_replaces_value_of_same_name() {
    let mut plugin = registry();
    assert_eq!(plugin.handle_msg(set_on("mqtt", "a1", "d1")), Dispatch::Done);
    let off = GatewayMessage::SetProperty {
        plugin_id: s("mqtt"),
        adapter_id: s("a1"),
        device_id: s("d1"),
        property: Property { name: s("on"), value: Json::Bool(false) },
    };
    assert_eq!(plugin.handle_msg(off), Dispatch::Done);
    assert_eq!(
        plugin.adapters[0].devices[0].props,
        vec![Property { name: s("on"), value: Json::Bool(false) }]
    );
}

#[test]
fn other_plugin_is_ignored() {
    let mut plugin = registry();
    for m in all_gateway_messages() {
        let redirected = match m {
            GatewayMessage::UnloadPlugin { .. } => GatewayMessage::UnloadPlugin { plugin_id: s("zigbee") },
            GatewayMessage::SetProperty { adapter_id, device_id, property, .. } => {
                GatewayMessage::SetProperty { plugin_id: s("zigbee"), adapter_id, device_id, property }
            },
            GatewayMessage::StartPairing { adapter_id, timeout, .. } => {
                GatewayMessage::StartPairing { plugin_id: s("zigbee"), adapter_id, timeout }
            },
            GatewayMessage::CancelPairing { adapter_id, .. } => {
                GatewayMessage::CancelPairing { plugin_id: s("zigbee"), adapter_id }
            },
            GatewayMessage::UnloadAdapter { adapter_id, .. } => {
                GatewayMessage::UnloadAdapter { plugin_id: s("zigbee"), adapter_id }
            },
            GatewayMessage::RemoveThing { adapter_id, device_id, .. } => {
                GatewayMessage::RemoveThing { plugin_id: s("zigbee"), adapter_id, device_id }
            },
            GatewayMessage::CancelRemoveThing { adapter_id, device_id, .. } => {
                GatewayMessage::CancelRemoveThing { plugin_id: s("zigbee"), adapter_id, device_id }
            },
        };
        assert_eq!(plugin.handle_msg(redirected), Dispatch::Ignored);
    }
    assert_eq!(plugin.adapters[0].devices[0].props, vec![]);
    assert_eq!(plugin.adapters[0].pairing, None);
}

#[test]
fn missing_adapter_is_not_found() {
    let mut plugin = registry();
    assert_eq!(plugin.handle_msg(set_on("mqtt", "nope", "d1")), Dispatch::AdapterNotFound);
    assert_eq!(plugin.adapters.len(), 1);
    assert_eq!(plugin.adapters[0].devices[0].props, vec![]);
    assert_eq!(
        plugin.handle_msg(GatewayMessage::CancelPairing { plugin_id: s("mqtt"), adapter_id: s("nope") }),
        Dispatch::AdapterNotFound
    );
}

#[test]
fn missing_device_is_not_found() {
    let mut plugin = registry();
    assert_eq!(plugin.handle_msg(set_on("mqtt", "a1", "d9")), Dispatch::DeviceNotFound);
    assert_eq!(plugin.adapters[0].devices[0].props, vec![]);
}

#[test]
fn pairing_starts_and_cancels() {
    let mut plugin = registry();
    let start = GatewayMessage::StartPairing {
        plugin_id: s("mqtt"),
        adapter_id: s("a1"),
        timeout: serde_json::Number::from(60u64),
    };
    assert_eq!(plugin.handle_msg(start), Dispatch::Done);
    assert_eq!(plugin.adapters[0].pairing, Some(serde_json::Number::from(60u64)));
    let cancel = GatewayMessage::CancelPairing { plugin_id: s("mqtt"), adapter_id: s("a1") };
    assert_eq!(plugin.handle_msg(cancel), Dispatch::Done);
    assert_eq!(plugin.adapters[0].pairing, None);
}

#[test]
fn unload_plugin_yields_shutdown_event() {
    let mut plugin = registry();
    assert_eq!(
        plugin.handle_msg(GatewayMessage::UnloadPlugin { plugin_id: s("mqtt") }),
        Dispatch::Shutdown(PluginMessage::PluginUnloaded { plugin_id: s("mqtt") })
    );
}

#[test]
fn lifecycle_commands_change_nothing() {
    let mut plugin = registry();
    let msgs = vec![
        GatewayMessage::UnloadAdapter { plugin_id: s("mqtt"), adapter_id: s("a1") },
        GatewayMessage::RemoveThing { plugin_id: s("mqtt"), adapter_id: s("a1"), device_id: s("d1") },
        GatewayMessage::CancelRemoveThing { plugin_id: s("mqtt"), adapter_id: s("a1"), device_id: s("d1") },
    ];
    for m in msgs {
        assert_eq!(plugin.handle_msg(m), Dispatch::NoAction);
    }
    assert_eq!(plugin.adapters.len(), 1);
    assert_eq!(plugin.adapters[0].devices.len(), 1);
}

#[test]
fn duplicate_ids_are_refused() {
    let mut plugin = registry();
    assert!(!plugin.add_adapter(Adapter::new("a1")));
    assert!(plugin.add_adapter(Adapter::new("a2")));
    assert!(!plugin.adapters[0].add_device(Device::new("d1")));
    assert_eq!(plugin.adapters.len(), 2);
}

#[test]
fn relay_drops_malformed_frame_and_goes_on() {
    let mut relay = Relay::new();
    let step = relay.step(Some(b"{garbage".to_vec()), None);
    assert_eq!(step.inbound, None);
    assert_eq!(step.write, None);
    assert!(!step.close);
    assert!(!step.idle);
    assert!(relay.open);
    let frame = br#"{"messageType":"unloadPlugin","data":{"pluginId":"mqtt"}}"#.to_vec();
    let step = relay.step(Some(frame), None);
    assert_eq!(step.inbound, Some(GatewayMessage::UnloadPlugin { plugin_id: s("mqtt") }));
    assert!(relay.open);
}

#[test]
fn relay_idle_when_nothing_arrives() {
    let mut relay = Relay::new();
    let step = relay.step(None, None);
    assert!(step.idle);
    assert_eq!(step.inbound, None);
    assert_eq!(step.write, None);
    assert!(relay.open);
}

#[test]
fn relay_writes_in_order() {
    let mut relay = Relay::new();
    let a = PluginMessage::AddAdapter { plugin_id: s("mqtt"), adapter_id: s("a1"), name: s("A") };
    let b = PluginMessage::AdapterUnloaded { plugin_id: s("mqtt"), adapter_id: s("a1") };
    let first = relay.step(None, Some(a)).write.unwrap();
    let second = relay.step(None, Some(b)).write.unwrap();
    assert_eq!(
        PluginMessage::decode(&first),
        Some(PluginMessage::AddAdapter { plugin_id: s("mqtt"), adapter_id: s("a1"), name: s("A") })
    );
    assert_eq!(
        PluginMessage::decode(&second),
        Some(PluginMessage::AdapterUnloaded { plugin_id: s("mqtt"), adapter_id: s("a1") })
    );
    assert!(relay.open);
}

#[test]
fn relay_shutdown_writes_closes_once() {
    let mut relay = Relay::new();
    let step = relay.step(None, Some(PluginMessage::PluginUnloaded { plugin_id: s("mqtt") }));
    assert!(step.close);
    assert_eq!(
        PluginMessage::decode(&step.write.unwrap()),
        Some(PluginMessage::PluginUnloaded { plugin_id: s("mqtt") })
    );
    assert!(!relay.open);
    let again = relay.step(
        Some(br#"{"messageType":"unloadPlugin","data":{"pluginId":"mqtt"}}"#.to_vec()),
        Some(PluginMessage::PluginUnloaded { plugin_id: s("mqtt") }),
    );
    assert!(!again.close);
    assert_eq!(again.write, None);
    assert_eq!(again.inbound, None);
    assert!(!relay.open);
}
