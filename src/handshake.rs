use vstd::prelude::*;
use vstd::string::StringExecFns;

use crate::json::{
    json_parse, json_text, lemma_named_members, member, read_json, take_text, text_member,
    text_of, texts, write_json, Json,
};
use crate::message::{data_of, envelope, lemma_open_envelope, lemma_wire_names, open_envelope, unwrap_envelope};

verus! {

/// Where the gateway's persistent channels live.
pub const BASE_URL: &'static str = "ipc:///tmp";

/// The well-known address at which the gateway takes registrations.
pub const ADAPTER_MANAGER_URL: &'static str = "ipc:///tmp/gateway.addonManager";

/// The request that registers a plugin with the gateway.
#[derive(Debug, PartialEq)]
pub enum PluginRegisterMessage {
    RegisterPlugin { plugin_id: String },
}

/// The gateway's answer to a registration.
#[derive(Debug, PartialEq)]
pub enum GatewayRegisterMessage {
    RegisterPluginReply { plugin_id: String, ipc_base_addr: String },
}

/// `j` is the envelope written for the request `m`.
pub open spec fn register_json(m: PluginRegisterMessage, j: Json) -> bool {
    match m {
        PluginRegisterMessage::RegisterPlugin { plugin_id } => match data_of(j, "registerPlugin"@) {
            Some(d) => texts(d, seq!["pluginId"@], seq![plugin_id]),
            None => false,
        },
    }
}

/// The request that a JSON value describes.
pub open spec fn register_from_json(j: Json) -> Option<PluginRegisterMessage> {
    match open_envelope(j) {
        Some((tag, d)) => if tag == "registerPlugin"@ {
            match text_of(member(d, "pluginId"@)) {
                Some(p) => Some(PluginRegisterMessage::RegisterPlugin { plugin_id: p }),
                None => None,
            }
        } else {
            None
        },
        None => None,
    }
}

/// `j` is the envelope written for the reply `m`.
pub open spec fn reply_json(m: GatewayRegisterMessage, j: Json) -> bool {
    match m {
        GatewayRegisterMessage::RegisterPluginReply { plugin_id, ipc_base_addr } => match data_of(j, "registerPluginReply"@) {
            Some(d) => texts(d, seq!["pluginId"@, "ipcBaseAddr"@], seq![plugin_id, ipc_base_addr]),
            None => false,
        },
    }
}

/// The reply that a JSON value describes.
pub open spec fn reply_from_json(j: Json) -> Option<GatewayRegisterMessage> {
    match open_envelope(j) {
        Some((tag, d)) => if tag == "registerPluginReply"@ {
            match (text_of(member(d, "pluginId"@)), text_of(member(d, "ipcBaseAddr"@))) {
                (Some(p), Some(a)) => Some(GatewayRegisterMessage::RegisterPluginReply { plugin_id: p, ipc_base_addr: a }),
                _ => None,
            }
        } else {
            None
        },
        None => None,
    }
}

/// The reply that bytes describe.
pub open spec fn reply_from_bytes(b: Seq<u8>) -> Option<GatewayRegisterMessage> {
    match json_parse(b) {
        Some(j) => reply_from_json(j),
        None => None,
    }
}

/// Reading back the value written for a registration request gives the request.
pub proof fn lemma_register_round_trip(m: PluginRegisterMessage, j: Json)
    requires
        register_json(m, j),
    ensures
        register_from_json(j) == Some(m),
{
    lemma_wire_names();
    lemma_open_envelope(j, "registerPlugin"@);
    let d = data_of(j, "registerPlugin"@)->0;
    let PluginRegisterMessage::RegisterPlugin { plugin_id } = m;
    let k = seq!["pluginId"@];
    lemma_named_members(d, k);
    assert(k[0] == "pluginId"@);
    assert(d[0].1 == Json::Str(seq![plugin_id][0]));
}

/// Reading back the value written for a registration reply gives the reply.
pub proof fn lemma_reply_round_trip(m: GatewayRegisterMessage, j: Json)
    requires
        reply_json(m, j),
    ensures
        reply_from_json(j) == Some(m),
{
    lemma_wire_names();
    lemma_open_envelope(j, "registerPluginReply"@);
    let d = data_of(j, "registerPluginReply"@)->0;
    let GatewayRegisterMessage::RegisterPluginReply { plugin_id, ipc_base_addr } = m;
    let k = seq!["pluginId"@, "ipcBaseAddr"@];
    lemma_named_members(d, k);
    assert(k[0] == "pluginId"@ && k[1] == "ipcBaseAddr"@);
    let v = seq![plugin_id, ipc_base_addr];
    assert(d[0].1 == Json::Str(v[0]) && d[1].1 == Json::Str(v[1]));
}

impl PluginRegisterMessage {
    /// The envelope of the request.
    pub fn to_json(self) -> (r: Json)
        ensures
            register_json(self, r),
    {
        let PluginRegisterMessage::RegisterPlugin { plugin_id } = self;
        let mut d: Vec<(String, Json)> = Vec::new();
        d.push(text_member("pluginId", plugin_id));
        envelope("registerPlugin", d)
    }

    /// Reads a request from its envelope.
    pub fn from_json(j: Json) -> (r: Option<PluginRegisterMessage>)
        ensures
            r == register_from_json(j),
    {
        let (tag, mut d) = match unwrap_envelope(j) {
            Some(parts) => parts,
            None => return None,
        };
        if tag == "registerPlugin".to_string() {
            match take_text(&mut d, &"pluginId".to_string()) {
                Some(p) => Some(PluginRegisterMessage::RegisterPlugin { plugin_id: p }),
                None => None,
            }
        } else {
            None
        }
    }

    /// The bytes of the request on the wire.
    pub fn encode(self) -> (r: Vec<u8>)
        ensures
            exists|j: Json| register_json(self, j) && r@ == json_text(j),
    {
        write_json(self.to_json())
    }
}

impl GatewayRegisterMessage {
    /// The envelope of the reply.
    pub fn to_json(self) -> (r: Json)
        ensures
            reply_json(self, r),
    {
        let GatewayRegisterMessage::RegisterPluginReply { plugin_id, ipc_base_addr } = self;
        let mut d: Vec<(String, Json)> = Vec::new();
        d.push(text_member("pluginId", plugin_id));
        d.push(text_member("ipcBaseAddr", ipc_base_addr));
        envelope("registerPluginReply", d)
    }

    /// Reads a reply from its envelope; other members are ignored.
    pub fn from_json(j: Json) -> (r: Option<GatewayRegisterMessage>)
        ensures
            r == reply_from_json(j),
    {
        let (tag, mut d) = match unwrap_envelope(j) {
            Some(parts) => parts,
            None => return None,
        };
        proof {
            lemma_wire_names();
        }
        let p = take_text(&mut d, &"pluginId".to_string());
        let a = take_text(&mut d, &"ipcBaseAddr".to_string());
        if tag == "registerPluginReply".to_string() {
            match (p, a) {
                (Some(p), Some(a)) => Some(GatewayRegisterMessage::RegisterPluginReply { plugin_id: p, ipc_base_addr: a }),
                _ => None,
            }
        } else {
            None
        }
    }

    /// Reads a reply from the bytes that the gateway answered with.
    pub fn decode(b: &[u8]) -> (r: Option<GatewayRegisterMessage>)
        ensures
            r == reply_from_bytes(b@),
    {
        match read_json(b) {
            Some(j) => GatewayRegisterMessage::from_json(j),
            None => None,
        }
    }
}

/// The address `<base>/<name>` of a persistent channel.
pub open spec fn address_of(base: Seq<char>, name: Seq<char>) -> Seq<char> {
    base + seq!['/'] + name
}

/// The two strings with a slash between.
fn join_address(base: &str, name: &str) -> (r: String)
    ensures
        r@ == address_of(base@, name@),
{
    let r = base.to_string().concat("/").concat(name);
    proof {
        reveal_strlit("/");
    }
    r
}

/// The address of the persistent channel that a registration reply names,
/// under `base`.
pub fn channel_address(base: &str, reply: &GatewayRegisterMessage) -> (r: String)
    ensures
        match *reply {
            GatewayRegisterMessage::RegisterPluginReply { ipc_base_addr, .. } => r@ == address_of(base@, ipc_base_addr@),
        },
{
    match reply {
        GatewayRegisterMessage::RegisterPluginReply { ipc_base_addr, .. } => join_address(base, ipc_base_addr.as_str()),
    }
}

/// Why the handshake could not give a channel address.
#[derive(Debug, PartialEq)]
pub enum HandshakeError {
    /// The gateway answered with bytes that hold no registration reply.
    MalformedReply,
}

impl HandshakeError {
    /// A description of the error for logs.
    pub fn message(&self) -> (r: String)
        ensures
            match self {
                HandshakeError::MalformedReply => r@ == "malformed registration reply"@,
            },
    {
        match self {
            HandshakeError::MalformedReply => "malformed registration reply".to_string(),
        }
    }
}

#[verifier::external_type_specification]
#[verifier::external_body]
pub struct ExIoError(std::io::Error);

/// Relies on std::io::Error::other, which wraps a message in an I/O error of
/// kind `Other`.
#[verifier::external_body]
fn io_error_other(msg: String) -> std::io::Error {
    std::io::Error::other(msg)
}

/// The handshake error as an I/O error, so that it leaves startup the way
/// transport failures do.
pub fn to_io_error(err: HandshakeError) -> std::io::Error {
    io_error_other(err.message())
}

/// The address of the persistent channel from the bytes of the gateway's
/// reply, or `MalformedReply` where they hold no reply.
pub fn address_from_reply(base: &str, reply: &[u8]) -> (r: Result<String, HandshakeError>)
    ensures
        match reply_from_bytes(reply@) {
            Some(GatewayRegisterMessage::RegisterPluginReply { ipc_base_addr, .. }) => r is Ok && r->Ok_0@ == address_of(base@, ipc_base_addr@),
            None => r is Err,
        },
{
    match GatewayRegisterMessage::decode(reply) {
        Some(m) => Ok(channel_address(base, &m)),
        None => Err(HandshakeError::MalformedReply),
    }
}

} // verus!
