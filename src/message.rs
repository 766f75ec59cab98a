use vstd::prelude::*;

use crate::json::{
    json_parse, json_text, lemma_named_members, member, named, obj_view, read_json, str_view,
    take_member, take_text, text_member, text_of, texts, write_json, Json,
};

verus! {

/// The lengths and first letters of the names and tags of the wire format,
/// which tell any two of them apart.
pub proof fn lemma_wire_names()
    ensures
        "messageType"@.len() == 11 && "messageType"@[0] == 'm',
        "data"@.len() == 4 && "data"@[0] == 'd',
        "pluginId"@.len() == 8 && "pluginId"@[0] == 'p' && "pluginId"@[1] == 'l',
        "adapterId"@.len() == 9 && "adapterId"@[0] == 'a',
        "deviceId"@.len() == 8 && "deviceId"@[0] == 'd',
        "property"@.len() == 8 && "property"@[0] == 'p' && "property"@[1] == 'r',
        "timeout"@.len() == 7 && "timeout"@[0] == 't',
        "name"@.len() == 4 && "name"@[0] == 'n',
        "value"@.len() == 5 && "value"@[0] == 'v',
        "id"@.len() == 2 && "id"@[0] == 'i',
        "type"@.len() == 4 && "type"@[0] == 't',
        "properties"@.len() == 10 && "properties"@[0] == 'p',
        "actions"@.len() == 7 && "actions"@[0] == 'a',
        "ipcBaseAddr"@.len() == 11 && "ipcBaseAddr"@[0] == 'i',
        "registerPlugin"@.len() == 14,
        "registerPluginReply"@.len() == 19,
        "unloadPlugin"@.len() == 12 && "unloadPlugin"@[0] == 'u',
        "unloadAdapter"@.len() == 13 && "unloadAdapter"@[0] == 'u',
        "setProperty"@.len() == 11 && "setProperty"@[0] == 's',
        "startPairing"@.len() == 12 && "startPairing"@[0] == 's',
        "cancelPairing"@.len() == 13 && "cancelPairing"@[0] == 'c',
        "removeThing"@.len() == 11 && "removeThing"@[0] == 'r',
        "cancelRemoveThing"@.len() == 17,
        "pluginUnloaded"@.len() == 14,
        "adapterUnloaded"@.len() == 15 && "adapterUnloaded"@[0] == 'a',
        "addAdapter"@.len() == 10,
        "handleDeviceAdded"@.len() == 17,
        "handleDeviceRemoved"@.len() == 19,
        "propertyChanged"@.len() == 15 && "propertyChanged"@[0] == 'p',
{
    reveal_strlit("messageType");
    reveal_strlit("data");
    reveal_strlit("pluginId");
    reveal_strlit("adapterId");
    reveal_strlit("deviceId");
    reveal_strlit("property");
    reveal_strlit("timeout");
    reveal_strlit("name");
    reveal_strlit("value");
    reveal_strlit("id");
    reveal_strlit("type");
    reveal_strlit("properties");
    reveal_strlit("actions");
    reveal_strlit("ipcBaseAddr");
    reveal_strlit("registerPlugin");
    reveal_strlit("registerPluginReply");
    reveal_strlit("unloadPlugin");
    reveal_strlit("unloadAdapter");
    reveal_strlit("setProperty");
    reveal_strlit("startPairing");
    reveal_strlit("cancelPairing");
    reveal_strlit("removeThing");
    reveal_strlit("cancelRemoveThing");
    reveal_strlit("pluginUnloaded");
    reveal_strlit("adapterUnloaded");
    reveal_strlit("addAdapter");
    reveal_strlit("handleDeviceAdded");
    reveal_strlit("handleDeviceRemoved");
    reveal_strlit("propertyChanged");
}

// ---------------------------------------------------------------- envelope

/// The data of `j` where it is an envelope `{messageType: tag, data: {...}}`.
pub open spec fn data_of(j: Json, tag: Seq<char>) -> Option<Seq<(String, Json)>> {
    match obj_view(j) {
        Some(v) => if named(v, seq!["messageType"@, "data"@]) && str_view(v[0].1) == Some(tag)
            && obj_view(v[1].1) is Some {
            obj_view(v[1].1)
        } else {
            None
        },
        None => None,
    }
}

/// The tag and the data that an envelope carries, found by name.
pub open spec fn open_envelope(j: Json) -> Option<(Seq<char>, Seq<(String, Json)>)> {
    match obj_view(j) {
        Some(v) => match (str_view_of(member(v, "messageType"@)), member(v, "data"@)) {
            (Some(t), Some(Json::Obj(d))) => Some((t, d@)),
            _ => None,
        },
        None => None,
    }
}

pub open spec fn str_view_of(j: Option<Json>) -> Option<Seq<char>> {
    match j {
        Some(v) => str_view(v),
        None => None,
    }
}

pub(crate) proof fn lemma_open_envelope(j: Json, tag: Seq<char>)
    requires
        data_of(j, tag) is Some,
    ensures
        open_envelope(j) == Some((tag, data_of(j, tag)->0)),
{
    lemma_wire_names();
    let v = obj_view(j)->0;
    lemma_named_members(v, seq!["messageType"@, "data"@]);
    assert(seq!["messageType"@, "data"@][1] == "data"@);
}

/// Wraps data in an envelope with the given tag.
pub fn envelope(tag: &str, data: Vec<(String, Json)>) -> (r: Json)
    ensures
        data_of(r, tag@) == Some(data@),
{
    let mut v: Vec<(String, Json)> = Vec::new();
    v.push(text_member("messageType", tag.to_string()));
    v.push(("data".to_string(), Json::Obj(data)));
    proof {
        assert(named(v@, seq!["messageType"@, "data"@]));
    }
    Json::Obj(v)
}

/// Takes an envelope apart into its tag and its data.
pub fn unwrap_envelope(j: Json) -> (r: Option<(String, Vec<(String, Json)>)>)
    ensures
        match open_envelope(j) {
            Some((t, d)) => r is Some && (r->0).0@ == t && (r->0).1@ == d,
            None => r is None,
        },
{
    match j {
        Json::Obj(mut v) => {
            proof {
                lemma_wire_names();
            }
            let t = take_text(&mut v, &"messageType".to_string());
            let d = take_member(&mut v, &"data".to_string());
            match (t, d) {
                (Some(t), Some(Json::Obj(d))) => Some((t, d)),
                _ => None,
            }
        },
        _ => None,
    }
}

// ---------------------------------------------------------------- property

/// A named value on a device. The value is any JSON, which the bridge
/// carries without reading.
#[derive(Debug, PartialEq)]
pub struct Property {
    pub name: String,
    pub value: Json,
}

/// `j` is the object `{name, value}` of `p`.
pub open spec fn property_json(p: Property, j: Json) -> bool {
    match obj_view(j) {
        Some(v) => texts(v, seq!["name"@, "value"@], seq![p.name]) && v[1].1 == p.value,
        None => false,
    }
}

/// The property that an object `{name, value}` describes.
pub open spec fn property_from(j: Json) -> Option<Property> {
    match obj_view(j) {
        Some(v) => match (text_of(member(v, "name"@)), member(v, "value"@)) {
            (Some(n), Some(x)) => Some(Property { name: n, value: x }),
            _ => None,
        },
        None => None,
    }
}

pub open spec fn property_from_opt(j: Option<Json>) -> Option<Property> {
    match j {
        Some(v) => property_from(v),
        None => None,
    }
}

/// Reading back the object written for a property gives the property.
pub proof fn lemma_property_round_trip(p: Property, j: Json)
    requires
        property_json(p, j),
    ensures
        property_from(j) == Some(p),
{
    lemma_wire_names();
    let v = obj_view(j)->0;
    let keys = seq!["name"@, "value"@];
    lemma_named_members(v, keys);
    assert(keys[0] == "name"@);
    assert(keys[1] == "value"@);
    assert(v[0].1 == Json::Str(seq![p.name][0]));
}

impl Property {
    /// The object `{name, value}` of the property.
    pub fn to_json(self) -> (r: Json)
        ensures
            property_json(self, r),
    {
        let ghost p = self;
        let mut v: Vec<(String, Json)> = Vec::new();
        v.push(text_member("name", self.name));
        v.push(("value".to_string(), self.value));
        proof {
            assert(v@[0].1 == Json::Str(seq![p.name][0]));
        }
        Json::Obj(v)
    }

    /// Reads a property from an object `{name, value}`; other members are ignored.
    pub fn from_json(j: Json) -> (r: Option<Property>)
        ensures
            r == property_from(j),
    {
        match j {
            Json::Obj(mut v) => {
                proof {
                    lemma_wire_names();
                }
                let n = take_text(&mut v, &"name".to_string());
                let x = take_member(&mut v, &"value".to_string());
                match (n, x) {
                    (Some(n), Some(x)) => Some(Property { name: n, value: x }),
                    _ => None,
                }
            },
            _ => None,
        }
    }
}

// ---------------------------------------------------------------- gateway to plugin

/// A command that the gateway sends to the plugin.
#[derive(Debug, PartialEq)]
pub enum GatewayMessage {
    UnloadPlugin { plugin_id: String },
    UnloadAdapter { plugin_id: String, adapter_id: String },
    SetProperty { plugin_id: String, adapter_id: String, device_id: String, property: Property },
    StartPairing { plugin_id: String, adapter_id: String, timeout: serde_json::Number },
    CancelPairing { plugin_id: String, adapter_id: String },
    RemoveThing { plugin_id: String, adapter_id: String, device_id: String },
    CancelRemoveThing { plugin_id: String, adapter_id: String, device_id: String },
}

impl GatewayMessage {
    /// The plugin that the command is addressed to.
    pub open spec fn target(self) -> String {
        match self {
            GatewayMessage::UnloadPlugin { plugin_id } => plugin_id,
            GatewayMessage::UnloadAdapter { plugin_id, .. } => plugin_id,
            GatewayMessage::SetProperty { plugin_id, .. } => plugin_id,
            GatewayMessage::StartPairing { plugin_id, .. } => plugin_id,
            GatewayMessage::CancelPairing { plugin_id, .. } => plugin_id,
            GatewayMessage::RemoveThing { plugin_id, .. } => plugin_id,
            GatewayMessage::CancelRemoveThing { plugin_id, .. } => plugin_id,
        }
    }
}

/// `j` is the envelope written for `m`: its tag, then its fields in order.
pub open spec fn gateway_json(m: GatewayMessage, j: Json) -> bool {
    match m {
        GatewayMessage::UnloadPlugin { plugin_id } => match data_of(j, "unloadPlugin"@) {
            Some(d) => texts(d, seq!["pluginId"@], seq![plugin_id]),
            None => false,
        },
        GatewayMessage::UnloadAdapter { plugin_id, adapter_id } => match data_of(j, "unloadAdapter"@) {
            Some(d) => texts(d, seq!["pluginId"@, "adapterId"@], seq![plugin_id, adapter_id]),
            None => false,
        },
        GatewayMessage::SetProperty { plugin_id, adapter_id, device_id, property } => match data_of(j, "setProperty"@) {
            Some(d) => texts(d, seq!["pluginId"@, "adapterId"@, "deviceId"@, "property"@], seq![plugin_id, adapter_id, device_id])
                && property_json(property, d[3].1),
            None => false,
        },
        GatewayMessage::StartPairing { plugin_id, adapter_id, timeout } => match data_of(j, "startPairing"@) {
            Some(d) => texts(d, seq!["pluginId"@, "adapterId"@, "timeout"@], seq![plugin_id, adapter_id])
                && d[2].1 == Json::Num(timeout),
            None => false,
        },
        GatewayMessage::CancelPairing { plugin_id, adapter_id } => match data_of(j, "cancelPairing"@) {
            Some(d) => texts(d, seq!["pluginId"@, "adapterId"@], seq![plugin_id, adapter_id]),
            None => false,
        },
        GatewayMessage::RemoveThing { plugin_id, adapter_id, device_id } => match data_of(j, "removeThing"@) {
            Some(d) => texts(d, seq!["pluginId"@, "adapterId"@, "deviceId"@], seq![plugin_id, adapter_id, device_id]),
            None => false,
        },
        GatewayMessage::CancelRemoveThing { plugin_id, adapter_id, device_id } => match data_of(j, "cancelRemoveThing"@) {
            Some(d) => texts(d, seq!["pluginId"@, "adapterId"@, "deviceId"@], seq![plugin_id, adapter_id, device_id]),
            None => false,
        },
    }
}

pub open spec fn number_of(j: Option<Json>) -> Option<serde_json::Number> {
    match j {
        Some(Json::Num(n)) => Some(n),
        _ => None,
    }
}

/// The command with tag `tag` whose fields, found by name, are in `d`;
/// `None` for an unknown tag or a missing or mistyped field.
pub open spec fn gateway_from_parts(tag: Seq<char>, d: Seq<(String, Json)>) -> Option<GatewayMessage> {
    let p = text_of(member(d, "pluginId"@));
    let a = text_of(member(d, "adapterId"@));
    let dv = text_of(member(d, "deviceId"@));
    let pr = property_from_opt(member(d, "property"@));
    let t = number_of(member(d, "timeout"@));
    if tag == "unloadPlugin"@ {
        match p {
            Some(p) => Some(GatewayMessage::UnloadPlugin { plugin_id: p }),
            _ => None,
        }
    } else if tag == "unloadAdapter"@ {
        match (p, a) {
            (Some(p), Some(a)) => Some(GatewayMessage::UnloadAdapter { plugin_id: p, adapter_id: a }),
            _ => None,
        }
    } else if tag == "setProperty"@ {
        match (p, a, dv, pr) {
            (Some(p), Some(a), Some(dv), Some(pr)) => Some(
                GatewayMessage::SetProperty { plugin_id: p, adapter_id: a, device_id: dv, property: pr },
            ),
            _ => None,
        }
    } else if tag == "startPairing"@ {
        match (p, a, t) {
            (Some(p), Some(a), Some(t)) => Some(GatewayMessage::StartPairing { plugin_id: p, adapter_id: a, timeout: t }),
            _ => None,
        }
    } else if tag == "cancelPairing"@ {
        match (p, a) {
            (Some(p), Some(a)) => Some(GatewayMessage::CancelPairing { plugin_id: p, adapter_id: a }),
            _ => None,
        }
    } else if tag == "removeThing"@ {
        match (p, a, dv) {
            (Some(p), Some(a), Some(dv)) => Some(GatewayMessage::RemoveThing { plugin_id: p, adapter_id: a, device_id: dv }),
            _ => None,
        }
    } else if tag == "cancelRemoveThing"@ {
        match (p, a, dv) {
            (Some(p), Some(a), Some(dv)) => Some(
                GatewayMessage::CancelRemoveThing { plugin_id: p, adapter_id: a, device_id: dv },
            ),
            _ => None,
        }
    } else {
        None
    }
}

/// The command that a JSON value describes.
pub open spec fn gateway_from_json(j: Json) -> Option<GatewayMessage> {
    match open_envelope(j) {
        Some((tag, d)) => gateway_from_parts(tag, d),
        None => None,
    }
}

/// The command that bytes describe.
pub open spec fn gateway_from_bytes(b: Seq<u8>) -> Option<GatewayMessage> {
    match json_parse(b) {
        Some(j) => gateway_from_json(j),
        None => None,
    }
}

/// Reading back the value written for a command gives the command.
pub proof fn lemma_gateway_round_trip(m: GatewayMessage, j: Json)
    requires
        gateway_json(m, j),
    ensures
        gateway_from_json(j) == Some(m),
{
    lemma_wire_names();
    let tag = match m {
        GatewayMessage::UnloadPlugin { .. } => "unloadPlugin"@,
        GatewayMessage::UnloadAdapter { .. } => "unloadAdapter"@,
        GatewayMessage::SetProperty { .. } => "setProperty"@,
        GatewayMessage::StartPairing { .. } => "startPairing"@,
        GatewayMessage::CancelPairing { .. } => "cancelPairing"@,
        GatewayMessage::RemoveThing { .. } => "removeThing"@,
        GatewayMessage::CancelRemoveThing { .. } => "cancelRemoveThing"@,
    };
    lemma_open_envelope(j, tag);
    let d = data_of(j, tag)->0;
    match m {
        GatewayMessage::UnloadPlugin { plugin_id } => {
            let k = seq!["pluginId"@];
            lemma_named_members(d, k);
            assert(k[0] == "pluginId"@);
            assert(d[0].1 == Json::Str(seq![plugin_id][0]));
        },
        GatewayMessage::UnloadAdapter { plugin_id, adapter_id } => {
            let k = seq!["pluginId"@, "adapterId"@];
            lemma_named_members(d, k);
            assert(k[0] == "pluginId"@ && k[1] == "adapterId"@);
            assert(d[0].1 == Json::Str(seq![plugin_id, adapter_id][0]));
            assert(d[1].1 == Json::Str(seq![plugin_id, adapter_id][1]));
        },
        GatewayMessage::SetProperty { plugin_id, adapter_id, device_id, property } => {
            let k = seq!["pluginId"@, "adapterId"@, "deviceId"@, "property"@];
            lemma_named_members(d, k);
            assert(k[0] == "pluginId"@ && k[1] == "adapterId"@ && k[2] == "deviceId"@ && k[3] == "property"@);
            let v = seq![plugin_id, adapter_id, device_id];
            assert(d[0].1 == Json::Str(v[0]) && d[1].1 == Json::Str(v[1]) && d[2].1 == Json::Str(v[2]));
            lemma_property_round_trip(property, d[3].1);
        },
        GatewayMessage::StartPairing { plugin_id, adapter_id, timeout } => {
            let k = seq!["pluginId"@, "adapterId"@, "timeout"@];
            lemma_named_members(d, k);
            assert(k[0] == "pluginId"@ && k[1] == "adapterId"@ && k[2] == "timeout"@);
            let v = seq![plugin_id, adapter_id];
            assert(d[0].1 == Json::Str(v[0]) && d[1].1 == Json::Str(v[1]));
        },
        GatewayMessage::CancelPairing { plugin_id, adapter_id } => {
            let k = seq!["pluginId"@, "adapterId"@];
            lemma_named_members(d, k);
            assert(k[0] == "pluginId"@ && k[1] == "adapterId"@);
            let v = seq![plugin_id, adapter_id];
            assert(d[0].1 == Json::Str(v[0]) && d[1].1 == Json::Str(v[1]));
        },
        GatewayMessage::RemoveThing { plugin_id, adapter_id, device_id } => {
            let k = seq!["pluginId"@, "adapterId"@, "deviceId"@];
            lemma_named_members(d, k);
            assert(k[0] == "pluginId"@ && k[1] == "adapterId"@ && k[2] == "deviceId"@);
            let v = seq![plugin_id, adapter_id, device_id];
            assert(d[0].1 == Json::Str(v[0]) && d[1].1 == Json::Str(v[1]) && d[2].1 == Json::Str(v[2]));
        },
        GatewayMessage::CancelRemoveThing { plugin_id, adapter_id, device_id } => {
            let k = seq!["pluginId"@, "adapterId"@, "deviceId"@];
            lemma_named_members(d, k);
            assert(k[0] == "pluginId"@ && k[1] == "adapterId"@ && k[2] == "deviceId"@);
            let v = seq![plugin_id, adapter_id, device_id];
            assert(d[0].1 == Json::Str(v[0]) && d[1].1 == Json::Str(v[1]) && d[2].1 == Json::Str(v[2]));
        },
    }
}

impl GatewayMessage {
    /// The envelope of the command.
    pub fn to_json(self) -> (r: Json)
        ensures
            gateway_json(self, r),
    {
        let mut d: Vec<(String, Json)> = Vec::new();
        match self {
            GatewayMessage::UnloadPlugin { plugin_id } => {
                d.push(text_member("pluginId", plugin_id));
                envelope("unloadPlugin", d)
            },
            GatewayMessage::UnloadAdapter { plugin_id, adapter_id } => {
                d.push(text_member("pluginId", plugin_id));
                d.push(text_member("adapterId", adapter_id));
                envelope("unloadAdapter", d)
            },
            GatewayMessage::SetProperty { plugin_id, adapter_id, device_id, property } => {
                d.push(text_member("pluginId", plugin_id));
                d.push(text_member("adapterId", adapter_id));
                d.push(text_member("deviceId", device_id));
                d.push(("property".to_string(), property.to_json()));
                envelope("setProperty", d)
            },
            GatewayMessage::StartPairing { plugin_id, adapter_id, timeout } => {
                d.push(text_member("pluginId", plugin_id));
                d.push(text_member("adapterId", adapter_id));
                d.push(("timeout".to_string(), Json::Num(timeout)));
                envelope("startPairing", d)
            },
            GatewayMessage::CancelPairing { plugin_id, adapter_id } => {
                d.push(text_member("pluginId", plugin_id));
                d.push(text_member("adapterId", adapter_id));
                envelope("cancelPairing", d)
            },
            GatewayMessage::RemoveThing { plugin_id, adapter_id, device_id } => {
                d.push(text_member("pluginId", plugin_id));
                d.push(text_member("adapterId", adapter_id));
                d.push(text_member("deviceId", device_id));
                envelope("removeThing", d)
            },
            GatewayMessage::CancelRemoveThing { plugin_id, adapter_id, device_id } => {
                d.push(text_member("pluginId", plugin_id));
                d.push(text_member("adapterId", adapter_id));
                d.push(text_member("deviceId", device_id));
                envelope("cancelRemoveThing", d)
            },
        }
    }

    /// Reads a command from its envelope; members that the tag does not use
    /// are ignored.
    pub fn from_json(j: Json) -> (r: Option<GatewayMessage>)
        ensures
            r == gateway_from_json(j),
    {
        let (tag, mut d) = match unwrap_envelope(j) {
            Some(parts) => parts,
            None => return None,
        };
        proof {
            lemma_wire_names();
        }
        let ghost d0 = d@;
        let p = take_text(&mut d, &"pluginId".to_string());
        let a = take_text(&mut d, &"adapterId".to_string());
        let ghost d2 = d@;
        let dv = take_text(&mut d, &"deviceId".to_string());
        let ghost d3 = d@;
        let pj = take_member(&mut d, &"property".to_string());
        let tj = take_member(&mut d, &"timeout".to_string());
        assert(member(d2, "deviceId"@) == member(d0, "deviceId"@));
        assert(member(d3, "property"@) == member(d0, "property"@));
        let pr = match pj {
            Some(x) => Property::from_json(x),
            None => None,
        };
        let t = match tj {
            Some(Json::Num(n)) => Some(n),
            _ => None,
        };
        if tag == "unloadPlugin".to_string() {
            match p {
                Some(p) => Some(GatewayMessage::UnloadPlugin { plugin_id: p }),
                _ => None,
            }
        } else if tag == "unloadAdapter".to_string() {
            match (p, a) {
                (Some(p), Some(a)) => Some(GatewayMessage::UnloadAdapter { plugin_id: p, adapter_id: a }),
                _ => None,
            }
        } else if tag == "setProperty".to_string() {
            match (p, a, dv, pr) {
                (Some(p), Some(a), Some(dv), Some(pr)) => Some(
                    GatewayMessage::SetProperty { plugin_id: p, adapter_id: a, device_id: dv, property: pr },
                ),
                _ => None,
            }
        } else if tag == "startPairing".to_string() {
            match (p, a, t) {
                (Some(p), Some(a), Some(t)) => Some(
                    GatewayMessage::StartPairing { plugin_id: p, adapter_id: a, timeout: t },
                ),
                _ => None,
            }
        } else if tag == "cancelPairing".to_string() {
            match (p, a) {
                (Some(p), Some(a)) => Some(GatewayMessage::CancelPairing { plugin_id: p, adapter_id: a }),
                _ => None,
            }
        } else if tag == "removeThing".to_string() {
            match (p, a, dv) {
                (Some(p), Some(a), Some(dv)) => Some(
                    GatewayMessage::RemoveThing { plugin_id: p, adapter_id: a, device_id: dv },
                ),
                _ => None,
            }
        } else if tag == "cancelRemoveThing".to_string() {
            match (p, a, dv) {
                (Some(p), Some(a), Some(dv)) => Some(
                    GatewayMessage::CancelRemoveThing { plugin_id: p, adapter_id: a, device_id: dv },
                ),
                _ => None,
            }
        } else {
            None
        }
    }

    /// The bytes of the command on the wire.
    pub fn encode(self) -> (r: Vec<u8>)
        ensures
            exists|j: Json| gateway_json(self, j) && r@ == json_text(j),
    {
        write_json(self.to_json())
    }

    /// Reads a command from the bytes of one frame; `None` where they are not
    /// JSON or describe no command.
    pub fn decode(b: &[u8]) -> (r: Option<GatewayMessage>)
        ensures
            r == gateway_from_bytes(b@),
    {
        match read_json(b) {
            Some(j) => GatewayMessage::from_json(j),
            None => None,
        }
    }
}

// ---------------------------------------------------------------- plugin to gateway

/// An event that the plugin sends to the gateway.
#[derive(Debug, PartialEq)]
pub enum PluginMessage {
    PluginUnloaded { plugin_id: String },
    AdapterUnloaded { plugin_id: String, adapter_id: String },
    AddAdapter { plugin_id: String, adapter_id: String, name: String },
    HandleDeviceAdded {
        plugin_id: String,
        adapter_id: String,
        id: String,
        name: String,
        typ: String,
        properties: Vec<(String, Json)>,
        actions: Vec<(String, Json)>,
    },
    HandleDeviceRemoved { plugin_id: String, adapter_id: String, id: String },
    PropertyChanged { plugin_id: String, adapter_id: String, device_id: String, property: Property },
}

/// `j` is the envelope written for `m`: its tag, then its fields in order.
pub open spec fn plugin_json(m: PluginMessage, j: Json) -> bool {
    match m {
        PluginMessage::PluginUnloaded { plugin_id } => match data_of(j, "pluginUnloaded"@) {
            Some(d) => texts(d, seq!["pluginId"@], seq![plugin_id]),
            None => false,
        },
        PluginMessage::AdapterUnloaded { plugin_id, adapter_id } => match data_of(j, "adapterUnloaded"@) {
            Some(d) => texts(d, seq!["pluginId"@, "adapterId"@], seq![plugin_id, adapter_id]),
            None => false,
        },
        PluginMessage::AddAdapter { plugin_id, adapter_id, name } => match data_of(j, "addAdapter"@) {
            Some(d) => texts(d, seq!["pluginId"@, "adapterId"@, "name"@], seq![plugin_id, adapter_id, name]),
            None => false,
        },
        PluginMessage::HandleDeviceAdded { plugin_id, adapter_id, id, name, typ, properties, actions } => match data_of(j, "handleDeviceAdded"@) {
            Some(d) => texts(
                d,
                seq!["pluginId"@, "adapterId"@, "id"@, "name"@, "type"@, "properties"@, "actions"@],
                seq![plugin_id, adapter_id, id, name, typ],
            ) && d[5].1 == Json::Obj(properties) && d[6].1 == Json::Obj(actions),
            None => false,
        },
        PluginMessage::HandleDeviceRemoved { plugin_id, adapter_id, id } => match data_of(j, "handleDeviceRemoved"@) {
            Some(d) => texts(d, seq!["pluginId"@, "adapterId"@, "id"@], seq![plugin_id, adapter_id, id]),
            None => false,
        },
        PluginMessage::PropertyChanged { plugin_id, adapter_id, device_id, property } => match data_of(j, "propertyChanged"@) {
            Some(d) => texts(d, seq!["pluginId"@, "adapterId"@, "deviceId"@, "property"@], seq![plugin_id, adapter_id, device_id])
                && property_json(property, d[3].1),
            None => false,
        },
    }
}

pub open spec fn members_of(j: Option<Json>) -> Option<Vec<(String, Json)>> {
    match j {
        Some(Json::Obj(v)) => Some(v),
        _ => None,
    }
}

/// The event with tag `tag` whose fields, found by name, are in `d`;
/// `None` for an unknown tag or a missing or mistyped field.
pub open spec fn plugin_from_parts(tag: Seq<char>, d: Seq<(String, Json)>) -> Option<PluginMessage> {
    let p = text_of(member(d, "pluginId"@));
    let a = text_of(member(d, "adapterId"@));
    let n = text_of(member(d, "name"@));
    let i = text_of(member(d, "id"@));
    let ty = text_of(member(d, "type"@));
    let ps = members_of(member(d, "properties"@));
    let acs = members_of(member(d, "actions"@));
    let dv = text_of(member(d, "deviceId"@));
    let pr = property_from_opt(member(d, "property"@));
    if tag == "pluginUnloaded"@ {
        match p {
            Some(p) => Some(PluginMessage::PluginUnloaded { plugin_id: p }),
            _ => None,
        }
    } else if tag == "adapterUnloaded"@ {
        match (p, a) {
            (Some(p), Some(a)) => Some(PluginMessage::AdapterUnloaded { plugin_id: p, adapter_id: a }),
            _ => None,
        }
    } else if tag == "addAdapter"@ {
        match (p, a, n) {
            (Some(p), Some(a), Some(n)) => Some(PluginMessage::AddAdapter { plugin_id: p, adapter_id: a, name: n }),
            _ => None,
        }
    } else if tag == "handleDeviceAdded"@ {
        match (p, a, i, n, ty, ps, acs) {
            (Some(p), Some(a), Some(i), Some(n), Some(ty), Some(ps), Some(acs)) => Some(
                PluginMessage::HandleDeviceAdded {
                    plugin_id: p,
                    adapter_id: a,
                    id: i,
                    name: n,
                    typ: ty,
                    properties: ps,
                    actions: acs,
                },
            ),
            _ => None,
        }
    } else if tag == "handleDeviceRemoved"@ {
        match (p, a, i) {
            (Some(p), Some(a), Some(i)) => Some(PluginMessage::HandleDeviceRemoved { plugin_id: p, adapter_id: a, id: i }),
            _ => None,
        }
    } else if tag == "propertyChanged"@ {
        match (p, a, dv, pr) {
            (Some(p), Some(a), Some(dv), Some(pr)) => Some(
                PluginMessage::PropertyChanged { plugin_id: p, adapter_id: a, device_id: dv, property: pr },
            ),
            _ => None,
        }
    } else {
        None
    }
}

/// The event that a JSON value describes.
pub open spec fn plugin_from_json(j: Json) -> Option<PluginMessage> {
    match open_envelope(j) {
        Some((tag, d)) => plugin_from_parts(tag, d),
        None => None,
    }
}

/// The event that bytes describe.
pub open spec fn plugin_from_bytes(b: Seq<u8>) -> Option<PluginMessage> {
    match json_parse(b) {
        Some(j) => plugin_from_json(j),
        None => None,
    }
}

/// Reading back the value written for an event gives the event.
pub proof fn lemma_plugin_round_trip(m: PluginMessage, j: Json)
    requires
        plugin_json(m, j),
    ensures
        plugin_from_json(j) == Some(m),
{
    lemma_wire_names();
    let tag = match m {
        PluginMessage::PluginUnloaded { .. } => "pluginUnloaded"@,
        PluginMessage::AdapterUnloaded { .. } => "adapterUnloaded"@,
        PluginMessage::AddAdapter { .. } => "addAdapter"@,
        PluginMessage::HandleDeviceAdded { .. } => "handleDeviceAdded"@,
        PluginMessage::HandleDeviceRemoved { .. } => "handleDeviceRemoved"@,
        PluginMessage::PropertyChanged { .. } => "propertyChanged"@,
    };
    lemma_open_envelope(j, tag);
    let d = data_of(j, tag)->0;
    match m {
        PluginMessage::PluginUnloaded { plugin_id } => {
            let k = seq!["pluginId"@];
            lemma_named_members(d, k);
            assert(k[0] == "pluginId"@);
            assert(d[0].1 == Json::Str(seq![plugin_id][0]));
        },
        PluginMessage::AdapterUnloaded { plugin_id, adapter_id } => {
            let k = seq!["pluginId"@, "adapterId"@];
            lemma_named_members(d, k);
            assert(k[0] == "pluginId"@ && k[1] == "adapterId"@);
            let v = seq![plugin_id, adapter_id];
            assert(d[0].1 == Json::Str(v[0]) && d[1].1 == Json::Str(v[1]));
        },
        PluginMessage::AddAdapter { plugin_id, adapter_id, name } => {
            let k = seq!["pluginId"@, "adapterId"@, "name"@];
            lemma_named_members(d, k);
            assert(k[0] == "pluginId"@ && k[1] == "adapterId"@ && k[2] == "name"@);
            let v = seq![plugin_id, adapter_id, name];
            assert(d[0].1 == Json::Str(v[0]) && d[1].1 == Json::Str(v[1]) && d[2].1 == Json::Str(v[2]));
        },
        PluginMessage::HandleDeviceAdded { plugin_id, adapter_id, id, name, typ, properties, actions } => {
            let k = seq!["pluginId"@, "adapterId"@, "id"@, "name"@, "type"@, "properties"@, "actions"@];
            lemma_named_members(d, k);
            assert(k[0] == "pluginId"@ && k[1] == "adapterId"@ && k[2] == "id"@ && k[3] == "name"@);
            assert(k[4] == "type"@ && k[5] == "properties"@ && k[6] == "actions"@);
            let v = seq![plugin_id, adapter_id, id, name, typ];
            assert(d[0].1 == Json::Str(v[0]) && d[1].1 == Json::Str(v[1]) && d[2].1 == Json::Str(v[2]));
            assert(d[3].1 == Json::Str(v[3]) && d[4].1 == Json::Str(v[4]));
        },
        PluginMessage::HandleDeviceRemoved { plugin_id, adapter_id, id } => {
            let k = seq!["pluginId"@, "adapterId"@, "id"@];
            lemma_named_members(d, k);
            assert(k[0] == "pluginId"@ && k[1] == "adapterId"@ && k[2] == "id"@);
            let v = seq![plugin_id, adapter_id, id];
            assert(d[0].1 == Json::Str(v[0]) && d[1].1 == Json::Str(v[1]) && d[2].1 == Json::Str(v[2]));
        },
        PluginMessage::PropertyChanged { plugin_id, adapter_id, device_id, property } => {
            let k = seq!["pluginId"@, "adapterId"@, "deviceId"@, "property"@];
            lemma_named_members(d, k);
            assert(k[0] == "pluginId"@ && k[1] == "adapterId"@ && k[2] == "deviceId"@ && k[3] == "property"@);
            let v = seq![plugin_id, adapter_id, device_id];
            assert(d[0].1 == Json::Str(v[0]) && d[1].1 == Json::Str(v[1]) && d[2].1 == Json::Str(v[2]));
            lemma_property_round_trip(property, d[3].1);
        },
    }
}

impl PluginMessage {
    /// The event that tells the gateway that the plugin has unloaded, and the
    /// relay that it is time to close the channel.
    pub open spec fn is_shutdown(self) -> bool {
        self is PluginUnloaded
    }

    /// The envelope of the event.
    pub fn to_json(self) -> (r: Json)
        ensures
            plugin_json(self, r),
    {
        let mut d: Vec<(String, Json)> = Vec::new();
        match self {
            PluginMessage::PluginUnloaded { plugin_id } => {
                d.push(text_member("pluginId", plugin_id));
                envelope("pluginUnloaded", d)
            },
            PluginMessage::AdapterUnloaded { plugin_id, adapter_id } => {
                d.push(text_member("pluginId", plugin_id));
                d.push(text_member("adapterId", adapter_id));
                envelope("adapterUnloaded", d)
            },
            PluginMessage::AddAdapter { plugin_id, adapter_id, name } => {
                d.push(text_member("pluginId", plugin_id));
                d.push(text_member("adapterId", adapter_id));
                d.push(text_member("name", name));
                envelope("addAdapter", d)
            },
            PluginMessage::HandleDeviceAdded { plugin_id, adapter_id, id, name, typ, properties, actions } => {
                d.push(text_member("pluginId", plugin_id));
                d.push(text_member("adapterId", adapter_id));
                d.push(text_member("id", id));
                d.push(text_member("name", name));
                d.push(text_member("type", typ));
                d.push(("properties".to_string(), Json::Obj(properties)));
                d.push(("actions".to_string(), Json::Obj(actions)));
                envelope("handleDeviceAdded", d)
            },
            PluginMessage::HandleDeviceRemoved { plugin_id, adapter_id, id } => {
                d.push(text_member("pluginId", plugin_id));
                d.push(text_member("adapterId", adapter_id));
                d.push(text_member("id", id));
                envelope("handleDeviceRemoved", d)
            },
            PluginMessage::PropertyChanged { plugin_id, adapter_id, device_id, property } => {
                d.push(text_member("pluginId", plugin_id));
                d.push(text_member("adapterId", adapter_id));
                d.push(text_member("deviceId", device_id));
                d.push(("property".to_string(), property.to_json()));
                envelope("propertyChanged", d)
            },
        }
    }

    /// Reads an event from its envelope; members that the tag does not use
    /// are ignored.
    pub fn from_json(j: Json) -> (r: Option<PluginMessage>)
        ensures
            r == plugin_from_json(j),
    {
        let (tag, mut d) = match unwrap_envelope(j) {
            Some(parts) => parts,
            None => return None,
        };
        proof {
            lemma_wire_names();
        }
        let ghost d0 = d@;
        let p = take_text(&mut d, &"pluginId".to_string());
        let a = take_text(&mut d, &"adapterId".to_string());
        let ghost d2 = d@;
        let n = take_text(&mut d, &"name".to_string());
        let ghost d3 = d@;
        let i = take_text(&mut d, &"id".to_string());
        let ghost d4 = d@;
        let ty = take_text(&mut d, &"type".to_string());
        let ghost d5 = d@;
        let psj = take_member(&mut d, &"properties".to_string());
        let ghost d6 = d@;
        let acj = take_member(&mut d, &"actions".to_string());
        let ghost d7 = d@;
        let dv = take_text(&mut d, &"deviceId".to_string());
        let ghost d8 = d@;
        let pj = take_member(&mut d, &"property".to_string());
        assert(member(d2, "name"@) == member(d0, "name"@));
        assert(member(d3, "id"@) == member(d0, "id"@));
        assert(member(d4, "type"@) == member(d0, "type"@));
        assert(member(d5, "properties"@) == member(d0, "properties"@));
        assert(member(d6, "actions"@) == member(d0, "actions"@));
        assert(member(d7, "deviceId"@) == member(d0, "deviceId"@));
        assert(member(d8, "property"@) == member(d0, "property"@));
        let ps = match psj {
            Some(Json::Obj(v)) => Some(v),
            _ => None,
        };
        let acs = match acj {
            Some(Json::Obj(v)) => Some(v),
            _ => None,
        };
        let pr = match pj {
            Some(x) => Property::from_json(x),
            None => None,
        };
        if tag == "pluginUnloaded".to_string() {
            match p {
                Some(p) => Some(PluginMessage::PluginUnloaded { plugin_id: p }),
                _ => None,
            }
        } else if tag == "adapterUnloaded".to_string() {
            match (p, a) {
                (Some(p), Some(a)) => Some(PluginMessage::AdapterUnloaded { plugin_id: p, adapter_id: a }),
                _ => None,
            }
        } else if tag == "addAdapter".to_string() {
            match (p, a, n) {
                (Some(p), Some(a), Some(n)) => Some(
                    PluginMessage::AddAdapter { plugin_id: p, adapter_id: a, name: n },
                ),
                _ => None,
            }
        } else if tag == "handleDeviceAdded".to_string() {
            match (p, a, i, n, ty, ps, acs) {
                (Some(p), Some(a), Some(i), Some(n), Some(ty), Some(ps), Some(acs)) => Some(
                    PluginMessage::HandleDeviceAdded {
                        plugin_id: p,
                        adapter_id: a,
                        id: i,
                        name: n,
                        typ: ty,
                        properties: ps,
                        actions: acs,
                    },
                ),
                _ => None,
            }
        } else if tag == "handleDeviceRemoved".to_string() {
            match (p, a, i) {
                (Some(p), Some(a), Some(i)) => Some(
                    PluginMessage::HandleDeviceRemoved { plugin_id: p, adapter_id: a, id: i },
                ),
                _ => None,
            }
        } else if tag == "propertyChanged".to_string() {
            match (p, a, dv, pr) {
                (Some(p), Some(a), Some(dv), Some(pr)) => Some(
                    PluginMessage::PropertyChanged { plugin_id: p, adapter_id: a, device_id: dv, property: pr },
                ),
                _ => None,
            }
        } else {
            None
        }
    }

    /// The bytes of the event on the wire.
    pub fn encode(self) -> (r: Vec<u8>)
        ensures
            exists|j: Json| plugin_json(self, j) && r@ == json_text(j),
    {
        write_json(self.to_json())
    }

    /// Reads an event from the bytes of one frame; `None` where they are not
    /// JSON or describe no event.
    pub fn decode(b: &[u8]) -> (r: Option<PluginMessage>)
        ensures
            r == plugin_from_bytes(b@),
    {
        match read_json(b) {
            Some(j) => PluginMessage::from_json(j),
            None => None,
        }
    }
}

} // verus!
