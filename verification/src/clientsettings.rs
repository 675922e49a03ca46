//! The client-settings records fetched over plain HTTP, their decoders
//! from the parsed JSON model, and the request URLs.  The HTTP calls
//! themselves live in the I/O shell; the shell hands the response text
//! in and takes typed records back.

use vstd::prelude::*;

use crate::json::{JsonValue, JsonView, json_of, lookup, lookup_spec, model_members};
use crate::payload::{field_string, spec_field_str};
use crate::text::{chars_to_string, push_str_chars};

verus! {

/// The version-two client-settings endpoint.
pub const URL_V2: &'static str = "https://clientsettings.roblox.com/v2";

/// The version-one client-settings endpoint.
pub const URL_V1: &'static str = "https://clientsettings.roblox.com/v1";

/// Why decoding a client-settings response failed.
#[derive(Clone, Copy, Debug, PartialEq, Eq, Structural)]
pub enum SettingsError {
    /// The response was not a document of the expected shape.
    Parse,
    /// No installer host reports full availability.
    NoPrimaryCdn,
}

/// The deployed client version for one binary type.
#[derive(Clone, Debug, PartialEq, Eq)]
pub struct ClientVersion {
    pub version: String,
    pub upload: String,
}

/// The mathematical shape of a client version record.
pub struct ClientVersionView {
    pub version: Seq<char>,
    pub upload: Seq<char>,
}

impl View for ClientVersion {
    type V = ClientVersionView;

    open spec fn view(&self) -> ClientVersionView {
        ClientVersionView { version: self.version@, upload: self.upload@ }
    }
}

/// The update channel the requesting user is on.
#[derive(Clone, Debug, PartialEq, Eq)]
pub struct UserChannel {
    pub name: String,
    pub token: Option<String>,
}

/// The mathematical shape of a user channel record.
pub struct UserChannelView {
    pub name: Seq<char>,
    pub token: Option<Seq<char>>,
}

impl View for UserChannel {
    type V = UserChannelView;

    open spec fn view(&self) -> UserChannelView {
        UserChannelView {
            name: self.name@,
            token: match self.token {
                Some(t) => Some(t@),
                None => None,
            },
        }
    }
}

/// The client version a parsed response stands for: an object with
/// `version` and `clientVersionUpload` string bindings.
pub open spec fn client_version_of_json(v: JsonView) -> Result<ClientVersionView, SettingsError> {
    match v {
        JsonView::Obj(fields) => match spec_field_str(fields, "version"@) {
            Err(_) => Err(SettingsError::Parse),
            Ok(version) => match spec_field_str(fields, "clientVersionUpload"@) {
                Err(_) => Err(SettingsError::Parse),
                Ok(upload) => Ok(ClientVersionView { version, upload }),
            },
        },
        _ => Err(SettingsError::Parse),
    }
}

/// Decodes a parsed response into a client version record, as
/// [`client_version_of_json`] says.
pub fn client_version_from_json(v: &JsonValue) -> (r: Result<ClientVersion, SettingsError>)
    ensures
        match r {
            Ok(p) => client_version_of_json(v@) == Ok::<_, SettingsError>(p@),
            Err(e) => client_version_of_json(v@) == Err::<ClientVersionView, _>(e),
        },
{
    match v {
        JsonValue::Obj(fields) => {
            let version = match field_string(fields, "version") {
                Ok(s) => s,
                Err(_) => {
                    return Err(SettingsError::Parse);
                },
            };
            let upload = match field_string(fields, "clientVersionUpload") {
                Ok(s) => s,
                Err(_) => {
                    return Err(SettingsError::Parse);
                },
            };
            Ok(ClientVersion { version, upload })
        },
        _ => Err(SettingsError::Parse),
    }
}

/// The user channel a parsed response stands for: an object with a
/// `channelName` string binding and an optional `token` string binding,
/// where an absent or null token means none.
pub open spec fn user_channel_of_json(v: JsonView) -> Result<UserChannelView, SettingsError> {
    match v {
        JsonView::Obj(fields) => match spec_field_str(fields, "channelName"@) {
            Err(_) => Err(SettingsError::Parse),
            Ok(name) => match lookup_spec(fields, "token"@) {
                None => Ok(UserChannelView { name, token: None }),
                Some(JsonView::Null) => Ok(UserChannelView { name, token: None }),
                Some(JsonView::Str(t)) => Ok(UserChannelView { name, token: Some(t) }),
                Some(_) => Err(SettingsError::Parse),
            },
        },
        _ => Err(SettingsError::Parse),
    }
}

/// Decodes a parsed response into a user channel record, as
/// [`user_channel_of_json`] says.
pub fn user_channel_from_json(v: &JsonValue) -> (r: Result<UserChannel, SettingsError>)
    ensures
        match r {
            Ok(p) => user_channel_of_json(v@) == Ok::<_, SettingsError>(p@),
            Err(e) => user_channel_of_json(v@) == Err::<UserChannelView, _>(e),
        },
{
    match v {
        JsonValue::Obj(fields) => {
            let name = match field_string(fields, "channelName") {
                Ok(s) => s,
                Err(_) => {
                    return Err(SettingsError::Parse);
                },
            };
            let token = match lookup(fields, "token") {
                None => None,
                Some(JsonValue::Null) => None,
                Some(JsonValue::Str(t)) => Some(t.clone()),
                Some(_) => {
                    return Err(SettingsError::Parse);
                },
            };
            Ok(UserChannel { name, token })
        },
        _ => Err(SettingsError::Parse),
    }
}

// ------------------------------------------------------------------
// Installer hosts.
// ------------------------------------------------------------------

/// An availability value: an unsigned integer that fits 32 bits.
pub open spec fn cdn_value_ok(x: JsonView) -> bool {
    x matches JsonView::UInt(u) && u <= u32::MAX
}

/// Every binding carries an availability percentage that fits an
/// unsigned 32-bit value.
pub open spec fn cdns_ok(fields: Seq<(Seq<char>, JsonView)>) -> bool {
    forall|j: int| 0 <= j < fields.len() ==> cdn_value_ok(#[trigger] fields[j].1)
}

/// Whether a binding's value is a well-formed availability value.
fn cdn_value_check(v: &JsonValue) -> (r: bool)
    ensures
        r == cdn_value_ok(v@),
{
    match v {
        JsonValue::UInt(u) => *u <= 0xffff_ffff,
        JsonValue::Null => false,
        JsonValue::Bool(_) => false,
        JsonValue::Str(_) => false,
        JsonValue::Arr(_) => false,
        JsonValue::Obj(_) => false,
        JsonValue::Other => false,
    }
}

/// Whether a value is exactly the full-availability percentage.
fn is_hundred(v: &JsonValue) -> (r: bool)
    ensures
        r == (v@ == JsonView::UInt(100u64)),
{
    match v {
        JsonValue::UInt(u) => *u == 100,
        JsonValue::Null => false,
        JsonValue::Bool(_) => false,
        JsonValue::Str(_) => false,
        JsonValue::Arr(_) => false,
        JsonValue::Obj(_) => false,
        JsonValue::Other => false,
    }
}

/// The first host reporting full availability, in the order the parser
/// hands the bindings out.
pub open spec fn first_primary(fields: Seq<(Seq<char>, JsonView)>) -> Result<
    Seq<char>,
    SettingsError,
>
    decreases fields.len(),
{
    if fields.len() == 0 {
        Err(SettingsError::NoPrimaryCdn)
    } else if fields[0].1 == JsonView::UInt(100u64) {
        Ok(fields[0].0)
    } else {
        first_primary(fields.drop_first())
    }
}

/// The installer host a parsed response stands for: among bindings from
/// host to availability percentage, the first fully available host; no
/// such host is its own failure.
pub open spec fn installer_cdn_of_json(v: JsonView) -> Result<Seq<char>, SettingsError> {
    match v {
        JsonView::Obj(fields) => if cdns_ok(fields) {
            first_primary(fields)
        } else {
            Err(SettingsError::Parse)
        },
        _ => Err(SettingsError::Parse),
    }
}

/// Picks the installer host from a parsed response, as
/// [`installer_cdn_of_json`] says.
pub fn installer_cdn_from_json(v: &JsonValue) -> (r: Result<String, SettingsError>)
    ensures
        match r {
            Ok(host) => installer_cdn_of_json(v@) == Ok::<_, SettingsError>(host@),
            Err(e) => installer_cdn_of_json(v@) == Err::<Seq<char>, _>(e),
        },
{
    match v {
        JsonValue::Obj(fields) => {
            let ghost fm = model_members(fields@);
            proof {
                crate::json::lemma_model_members(fields@);
            }
            let mut i: usize = 0;
            while i < fields.len()
                invariant
                    i <= fields.len(),
                    v@ == JsonView::Obj(fm),
                    fm == model_members(fields@),
                    fm.len() == fields@.len(),
                    forall|j: int| 0 <= j < fm.len() ==> fm[j] == (
                    #[trigger] fields@[j].0@,
                    fields@[j].1@,
                    ),
                    forall|j: int| 0 <= j < i ==> cdn_value_ok(#[trigger] fm[j].1),
                decreases fields.len() - i,
            {
                proof {
                    assert(fm[i as int] == (fields@[i as int].0@, fields@[i as int].1@));
                }
                if !cdn_value_check(&fields[i].1) {
                    proof {
                        assert(!cdn_value_ok(fm[i as int].1));
                        assert(!cdns_ok(fm));
                        assert(v@ == JsonView::Obj(fm));
                        assert(installer_cdn_of_json(v@) == Err::<Seq<char>, _>(
                            SettingsError::Parse,
                        ));
                    }
                    return Err(SettingsError::Parse);
                }
                i += 1;
            }
            proof {
                assert(cdns_ok(fm));
                assert(fm.skip(0) =~= fm);
            }
            pick_primary(fields, 0)
        },
        _ => Err(SettingsError::Parse),
    }
}

/// The first fully available host from position `i` on, as
/// [`first_primary`] says of the remaining bindings.
fn pick_primary(fields: &Vec<(String, JsonValue)>, i: usize) -> (r: Result<String, SettingsError>)
    requires
        i <= fields.len(),
    ensures
        match r {
            Ok(host) => first_primary(model_members(fields@).skip(i as int)) == Ok::<
                _,
                SettingsError,
            >(host@),
            Err(e) => first_primary(model_members(fields@).skip(i as int)) == Err::<Seq<char>, _>(
                e,
            ) && e == SettingsError::NoPrimaryCdn,
        },
    decreases fields.len() - i,
{
    proof {
        crate::json::lemma_model_members(fields@);
    }
    let ghost tail = model_members(fields@).skip(i as int);
    if i == fields.len() {
        proof {
            assert(tail.len() == 0);
        }
        return Err(SettingsError::NoPrimaryCdn);
    }
    proof {
        assert(tail[0] == model_members(fields@)[i as int]);
        assert(model_members(fields@)[i as int] == (fields@[i as int].0@, fields@[i as int].1@));
        assert(tail.drop_first() =~= model_members(fields@).skip(i + 1));
    }
    let hit = is_hundred(&fields[i].1);
    proof {
        assert(hit == (tail[0].1 == JsonView::UInt(100u64)));
    }
    if hit {
        Ok(fields[i].0.clone())
    } else {
        pick_primary(fields, i + 1)
    }
}

// ------------------------------------------------------------------
// Request URLs.
// ------------------------------------------------------------------

/// The client-version URL for a binary type, with an optional channel
/// segment.
pub open spec fn client_version_url_spec(binary_type: Seq<char>, channel: Option<Seq<char>>)
    -> Seq<char> {
    "https://clientsettings.roblox.com/v2/client-version/"@ + binary_type + (match channel {
        Some(c) => "/channel/"@ + c,
        None => Seq::empty(),
    })
}

/// Builds the client-version request URL.
pub fn client_version_url(binary_type: &str, channel: Option<&str>) -> (r: String)
    ensures
        r@ == client_version_url_spec(
            binary_type@,
            match channel {
                Some(c) => Some(c@),
                None => None,
            },
        ),
{
    let mut out: Vec<char> = Vec::new();
    push_str_chars(&mut out, "https://clientsettings.roblox.com/v2/client-version/");
    push_str_chars(&mut out, binary_type);
    match channel {
        Some(c) => {
            push_str_chars(&mut out, "/channel/");
            push_str_chars(&mut out, c);
        },
        None => {},
    }
    let r = chars_to_string(&out);
    proof {
        assert(r@ =~= client_version_url_spec(
            binary_type@,
            match channel {
                Some(c) => Some(c@),
                None => None,
            },
        ));
    }
    r
}

/// The user-channel URL, with an optional binary-type query.
pub open spec fn user_channel_url_spec(binary_type: Option<Seq<char>>) -> Seq<char> {
    "https://clientsettings.roblox.com/v2/client-version"@ + (match binary_type {
        Some(b) => "?binaryType="@ + b,
        None => Seq::empty(),
    })
}

/// Builds the user-channel request URL.
pub fn user_channel_url(binary_type: Option<&str>) -> (r: String)
    ensures
        r@ == user_channel_url_spec(
            match binary_type {
                Some(b) => Some(b@),
                None => None,
            },
        ),
{
    let mut out: Vec<char> = Vec::new();
    push_str_chars(&mut out, "https://clientsettings.roblox.com/v2/client-version");
    match binary_type {
        Some(b) => {
            push_str_chars(&mut out, "?binaryType=");
            push_str_chars(&mut out, b);
        },
        None => {},
    }
    let r = chars_to_string(&out);
    proof {
        assert(r@ =~= user_channel_url_spec(
            match binary_type {
                Some(b) => Some(b@),
                None => None,
            },
        ));
    }
    r
}

/// The installer-hosts request URL.
pub fn installer_cdns_url() -> (r: String)
    ensures
        r@ == "https://clientsettings.roblox.com/v1/installer-cdns"@,
{
    String::from_str("https://clientsettings.roblox.com/v1/installer-cdns")
}

} // verus!
