//! The provider-specific payload: resolved credentials, the outbound event
//! record with its hashed user data, and the exact JSON body text.

use sha2::{Digest, Sha256};
use vstd::prelude::*;
use vstd::string::StringExecFns;

use crate::data_collection::{Consent, Data, Dict, Event};
use crate::json::{
    entries_view, json_object, json_string, write_json_object, write_json_string, JsonV, JsonValue,
};
use crate::strutil::{dec_int, push_char, push_i64_dec, str_eq};
use vstd::seq_lib::lemma_concat_associative;

verus! {

/// What the SHA-256 digest of the input renders to in lowercase hex: the
/// one-way digest applied to every personally identifying field.
pub uninterp spec fn sha256_hex(s: Seq<char>) -> Seq<char>;

/// SHA256 hash value
///
/// This function is used to hash the value.
///
/// Relies on sha2::Sha256 together with the lowercase-hex formatting of its
/// digest: the result depends on the input characters alone.
#[verifier::external_body]
pub(crate) fn hash_value(input: &str) -> (r: String)
    ensures
        r@ == sha256_hex(input@),
{
    let mut hasher = Sha256::new();
    hasher.update(input.as_bytes());
    format!("{:x}", hasher.finalize())
}

/// The value of the last settings pair whose key matches, as a lookup in a
/// key-value map built from the pairs would find it.
pub open spec fn spec_lookup(s: Seq<(String, String)>, key: Seq<char>) -> Option<Seq<char>>
    decreases s.len(),
{
    if s.len() == 0 {
        None
    } else if s.last().0@ == key {
        Some(s.last().1@)
    } else {
        spec_lookup(s.drop_last(), key)
    }
}

fn dict_get(settings: &Dict, key: &str) -> (r: Option<String>)
    ensures
        match r {
            Some(v) => spec_lookup(settings@, key@) == Some(v@),
            None => spec_lookup(settings@, key@) is None,
        },
{
    let n = settings.len();
    let mut i: usize = n;
    proof {
        assert(settings@.take(n as int) =~= settings@);
    }
    while i > 0
        invariant
            i <= n,
            n == settings@.len(),
            spec_lookup(settings@, key@) == spec_lookup(settings@.take(i as int), key@),
        decreases i,
    {
        let j = i - 1;
        proof {
            assert(settings@.take(j as int + 1).drop_last() =~= settings@.take(j as int));
            assert(settings@.take(j as int + 1).last() == settings@[j as int]);
        }
        if str_eq(settings[j].0.as_str(), key) {
            return Some(settings[j].1.clone());
        }
        i = j;
    }
    proof {
        assert(settings@.take(0) =~= Seq::<(String, String)>::empty());
    }
    None
}

/// Ghost counterpart of `UserData`.
#[verifier::ext_equal]
pub ghost struct UserDataV {
    pub email: Option<Seq<char>>,
    pub phone_number: Option<Seq<char>>,
    pub first_name: Option<Seq<char>>,
    pub last_name: Option<Seq<char>>,
    pub date_of_birth: Option<Seq<char>>,
    pub gender: Option<Seq<char>>,
    pub city: Option<Seq<char>>,
    pub state: Option<Seq<char>>,
    pub zip_code: Option<Seq<char>>,
    pub country: Option<Seq<char>>,
    pub external_id: Option<Seq<char>>,
    pub client_ip_address: Option<Seq<char>>,
    pub client_user_agent: Option<Seq<char>>,
    pub sc_click_id: Option<Seq<char>>,
    pub sc_cookie1: Option<Seq<char>>,
}

/// The user data sent with an outbound event.
///
/// Identifying fields are one-way hashed before they are stored here; the
/// click and cookie identifiers and the client address fields pass through
/// verbatim.
#[derive(Debug)]
pub struct UserData {
    pub email: Option<String>,
    pub phone_number: Option<String>,
    pub first_name: Option<String>,
    pub last_name: Option<String>,
    pub date_of_birth: Option<String>,
    pub gender: Option<String>,
    pub city: Option<String>,
    pub state: Option<String>,
    pub zip_code: Option<String>,
    pub country: Option<String>,
    pub external_id: Option<String>,
    pub client_ip_address: Option<String>,
    pub client_user_agent: Option<String>,
    pub sc_click_id: Option<String>,
    pub sc_cookie1: Option<String>,
}

impl View for UserData {
    type V = UserDataV;

    open spec fn view(&self) -> UserDataV {
        UserDataV {
            email: self.email.deep_view(),
            phone_number: self.phone_number.deep_view(),
            first_name: self.first_name.deep_view(),
            last_name: self.last_name.deep_view(),
            date_of_birth: self.date_of_birth.deep_view(),
            gender: self.gender.deep_view(),
            city: self.city.deep_view(),
            state: self.state.deep_view(),
            zip_code: self.zip_code.deep_view(),
            country: self.country.deep_view(),
            external_id: self.external_id.deep_view(),
            client_ip_address: self.client_ip_address.deep_view(),
            client_user_agent: self.client_user_agent.deep_view(),
            sc_click_id: self.sc_click_id.deep_view(),
            sc_cookie1: self.sc_cookie1.deep_view(),
        }
    }
}

/// The user record with every field absent.
pub open spec fn empty_user_view() -> UserDataV {
    UserDataV {
        email: None,
        phone_number: None,
        first_name: None,
        last_name: None,
        date_of_birth: None,
        gender: None,
        city: None,
        state: None,
        zip_code: None,
        country: None,
        external_id: None,
        client_ip_address: None,
        client_user_agent: None,
        sc_click_id: None,
        sc_cookie1: None,
    }
}

impl Default for UserData {
    fn default() -> (r: Self)
        ensures
            r@ == empty_user_view(),
    {
        UserData {
            email: None,
            phone_number: None,
            first_name: None,
            last_name: None,
            date_of_birth: None,
            gender: None,
            city: None,
            state: None,
            zip_code: None,
            country: None,
            external_id: None,
            client_ip_address: None,
            client_user_agent: None,
            sc_click_id: None,
            sc_cookie1: None,
        }
    }
}

/// Dispatch of one user property into the user record: ten recognized keys
/// land as hashed fields, two as verbatim pass-through fields, and every
/// other key is ignored.
pub open spec fn apply_prop(u: UserDataV, key: Seq<char>, value: Seq<char>) -> UserDataV {
    if key == "email"@ {
        UserDataV { email: Some(sha256_hex(value)), ..u }
    } else if key == "phone_number"@ {
        UserDataV { phone_number: Some(sha256_hex(value)), ..u }
    } else if key == "first_name"@ {
        UserDataV { first_name: Some(sha256_hex(value)), ..u }
    } else if key == "last_name"@ {
        UserDataV { last_name: Some(sha256_hex(value)), ..u }
    } else if key == "gender"@ {
        UserDataV { gender: Some(sha256_hex(value)), ..u }
    } else if key == "date_of_birth"@ {
        UserDataV { date_of_birth: Some(sha256_hex(value)), ..u }
    } else if key == "city"@ {
        UserDataV { city: Some(sha256_hex(value)), ..u }
    } else if key == "state"@ {
        UserDataV { state: Some(sha256_hex(value)), ..u }
    } else if key == "zip_code"@ {
        UserDataV { zip_code: Some(sha256_hex(value)), ..u }
    } else if key == "country"@ {
        UserDataV { country: Some(sha256_hex(value)), ..u }
    } else if key == "sc_click_id"@ {
        UserDataV { sc_click_id: Some(value), ..u }
    } else if key == "sc_cookie1"@ {
        UserDataV { sc_cookie1: Some(value), ..u }
    } else {
        u
    }
}

/// The user record after dispatching every property, in order.
pub open spec fn apply_props(u: UserDataV, props: Seq<(String, String)>) -> UserDataV
    decreases props.len(),
{
    if props.len() == 0 {
        u
    } else {
        apply_prop(apply_props(u, props.drop_last()), props.last().0@, props.last().1@)
    }
}

fn apply_user_properties(user_data: &mut UserData, props: &Vec<(String, String)>)
    ensures
        final(user_data)@ == apply_props(old(user_data)@, props@),
{
    let n = props.len();
    let mut i: usize = 0;
    proof {
        assert(props@.take(0) =~= Seq::<(String, String)>::empty());
    }
    while i < n
        invariant
            n == props@.len(),
            i <= n,
            user_data@ == apply_props(old(user_data)@, props@.take(i as int)),
        decreases n - i,
    {
        proof {
            assert(props@.take(i as int + 1).drop_last() =~= props@.take(i as int));
            assert(props@.take(i as int + 1).last() == props@[i as int]);
        }
        let key = props[i].0.as_str();
        let value = props[i].1.as_str();
        if str_eq(key, "email") {
            user_data.email = Some(hash_value(value));
        } else if str_eq(key, "phone_number") {
            user_data.phone_number = Some(hash_value(value));
        } else if str_eq(key, "first_name") {
            user_data.first_name = Some(hash_value(value));
        } else if str_eq(key, "last_name") {
            user_data.last_name = Some(hash_value(value));
        } else if str_eq(key, "gender") {
            user_data.gender = Some(hash_value(value));
        } else if str_eq(key, "date_of_birth") {
            user_data.date_of_birth = Some(hash_value(value));
        } else if str_eq(key, "city") {
            user_data.city = Some(hash_value(value));
        } else if str_eq(key, "state") {
            user_data.state = Some(hash_value(value));
        } else if str_eq(key, "zip_code") {
            user_data.zip_code = Some(hash_value(value));
        } else if str_eq(key, "country") {
            user_data.country = Some(hash_value(value));
        } else if str_eq(key, "sc_click_id") {
            user_data.sc_click_id = Some(String::from_str(value));
        } else if str_eq(key, "sc_cookie1") {
            user_data.sc_cookie1 = Some(String::from_str(value));
        }
        i = i + 1;
    }
    proof {
        assert(props@.take(n as int) =~= props@);
    }
}

/// Ghost counterpart of `SnapchatEvent`.
#[verifier::ext_equal]
pub ghost struct SnapchatEventV {
    pub event_name: Seq<char>,
    pub event_time: i64,
    pub user_data: UserDataV,
    pub custom_data: Option<Seq<(Seq<char>, JsonV)>>,
    pub event_source_url: Option<Seq<char>>,
    pub event_id: Seq<char>,
    pub action_source: Seq<char>,
}

/// Snapchat Event
///
/// The event record sent to the Conversions API endpoint: the translated
/// name, the caller-supplied time and deduplication id, the hashed user
/// record, and the coerced custom data.
#[derive(Debug)]
pub struct SnapchatEvent {
    pub event_name: String,
    pub event_time: i64,
    pub user_data: UserData,
    pub custom_data: Option<Vec<(String, JsonValue)>>,
    pub event_source_url: Option<String>,
    pub event_id: String,
    pub action_source: String,
}

impl View for SnapchatEvent {
    type V = SnapchatEventV;

    open spec fn view(&self) -> SnapchatEventV {
        SnapchatEventV {
            event_name: self.event_name@,
            event_time: self.event_time,
            user_data: self.user_data@,
            custom_data: match self.custom_data {
                Some(m) => Some(entries_view(m@)),
                None => None,
            },
            event_source_url: self.event_source_url.deep_view(),
            event_id: self.event_id@,
            action_source: self.action_source@,
        }
    }
}

/// The properties the translation works from: the identity payload's own
/// properties when the event carries one, the context-level user properties
/// otherwise.
pub open spec fn effective_props(e: Event) -> Seq<(String, String)> {
    match e.data {
        Data::User(u) => u.properties@,
        _ => e.context.user.properties@,
    }
}

/// An explicit consent marker that is anything but granted blocks the event;
/// an absent marker does not.
pub open spec fn consent_blocked(e: Event) -> bool {
    match e.consent {
        Some(c) => c != Consent::Granted,
        None => false,
    }
}

/// The user record before property dispatch: client address and user agent
/// are always copied, the context user id is hashed when non-empty.
pub open spec fn initial_user_view(e: Event) -> UserDataV {
    UserDataV {
        external_id: if e.context.user.user_id@.len() > 0 {
            Some(sha256_hex(e.context.user.user_id@))
        } else {
            None
        },
        client_ip_address: Some(e.context.client.ip@),
        client_user_agent: Some(e.context.client.user_agent@),
        ..empty_user_view()
    }
}

/// The user record after the whole translation.
pub open spec fn translated_user(e: Event) -> UserDataV {
    apply_props(initial_user_view(e), effective_props(e))
}

/// Event translation succeeds exactly when consent does not block it, at
/// least one user property is available, and dispatch produced an email or a
/// phone number.
pub open spec fn spec_event_ok(e: Event) -> bool {
    &&& !consent_blocked(e)
    &&& effective_props(e).len() > 0
    &&& (translated_user(e).email is Some || translated_user(e).phone_number is Some)
}

/// The message of the first gate that fails.
pub open spec fn spec_event_err(e: Event) -> Seq<char> {
    if consent_blocked(e) {
        "Consent is not granted"@
    } else if effective_props(e).len() == 0 {
        "User properties are empty"@
    } else {
        "User properties must contain email or phone_number"@
    }
}

/// The translated event, before the caller fills in its custom data.
pub open spec fn spec_event(e: Event, name: Seq<char>) -> SnapchatEventV {
    SnapchatEventV {
        event_name: name,
        event_time: e.timestamp,
        user_data: translated_user(e),
        custom_data: Some(Seq::empty()),
        event_source_url: if e.context.page.url@.len() > 0 {
            Some(e.context.page.url@ + e.context.page.search@)
        } else {
            None
        },
        event_id: e.uuid@,
        action_source: "WEB"@,
    }
}

impl SnapchatEvent {
    /// Translates one generic event into an outbound event record with the
    /// given provider-side event name, or fails at the first gate that the
    /// event does not pass.
    pub fn new(edgee_event: &Event, event_name: &str) -> (r: Result<Self, String>)
        ensures
            r is Ok <==> spec_event_ok(*edgee_event),
            r matches Err(e) ==> e@ == spec_event_err(*edgee_event),
            r matches Ok(ev) ==> ev@ == spec_event(*edgee_event, event_name@),
    {
        // Default snapchat event
        let mut snapchat_event = SnapchatEvent {
            event_name: String::from_str(event_name),
            event_time: edgee_event.timestamp,
            event_id: edgee_event.uuid.clone(),
            event_source_url: None,
            user_data: UserData::default(),
            custom_data: Some(Vec::new()),
            action_source: String::from_str("WEB"),
        };
        // Set event source URL
        if !edgee_event.context.page.url.as_str().is_empty() {
            let mut document_location = edgee_event.context.page.url.clone();
            document_location.append(edgee_event.context.page.search.as_str());
            snapchat_event.event_source_url = Some(document_location);
        }
        // Set user data
        let mut user_data = UserData::default();
        user_data.client_ip_address = Some(edgee_event.context.client.ip.clone());
        user_data.client_user_agent = Some(edgee_event.context.client.user_agent.clone());
        // Set user IDs
        if !edgee_event.context.user.user_id.as_str().is_empty() {
            user_data.external_id = Some(
                hash_value(edgee_event.context.user.user_id.as_str()),
            );
        }
        let user_properties: &Vec<(String, String)> = match &edgee_event.data {
            Data::User(data) => &data.properties,
            _ => &edgee_event.context.user.properties,
        };
        let blocked = match edgee_event.consent {
            Some(Consent::Granted) => false,
            Some(_) => true,
            None => false,
        };
        if blocked {
            // Consent is not granted, so we don't send the event
            return Err(String::from_str("Consent is not granted"));
        }
        // You must provide at least one user property.
        if user_properties.is_empty() {
            return Err(String::from_str("User properties are empty"));
        }
        // Set user properties
        apply_user_properties(&mut user_data, user_properties);
        // Return an error if the user data has no matchable identity field.
        if user_data.email.is_none() && user_data.phone_number.is_none() {
            return Err(String::from_str("User properties must contain email or phone_number"));
        }
        snapchat_event.user_data = user_data;
        proof {
            assert(entries_view(Seq::<(String, JsonValue)>::empty()) =~= Seq::<
                (Seq<char>, JsonV),
            >::empty());
            assert(snapchat_event@ =~= spec_event(*edgee_event, event_name@));
        }
        Ok(snapchat_event)
    }
}

/// Ghost counterpart of `SnapchatPayload`.
#[verifier::ext_equal]
pub ghost struct SnapchatPayloadV {
    pub data: Seq<SnapchatEventV>,
    pub access_token: Seq<char>,
    pub pixel_id: Seq<char>,
    pub test_event_code: Option<Seq<char>>,
}

/// The outbound payload: the events to send, and the resolved credentials
/// that go into the URL but never into the serialized body.
#[derive(Debug)]
pub struct SnapchatPayload {
    pub data: Vec<SnapchatEvent>,
    pub access_token: String,
    pub pixel_id: String,
    pub test_event_code: Option<String>,
}

impl View for SnapchatPayload {
    type V = SnapchatPayloadV;

    open spec fn view(&self) -> SnapchatPayloadV {
        SnapchatPayloadV {
            data: self.data@.map_values(|e: SnapchatEvent| e@),
            access_token: self.access_token@,
            pixel_id: self.pixel_id@,
            test_event_code: self.test_event_code.deep_view(),
        }
    }
}

/// Both required credentials can be resolved from the settings.
pub open spec fn spec_config_ok(s: Seq<(String, String)>) -> bool {
    &&& spec_lookup(s, "snapchat_access_token"@) is Some
    &&& spec_lookup(s, "snapchat_pixel_id"@) is Some
}

/// The message naming the first missing credential.
pub open spec fn spec_config_err(s: Seq<(String, String)>) -> Seq<char> {
    if spec_lookup(s, "snapchat_access_token"@) is None {
        "Missing Snapchat Access Token"@
    } else {
        "Missing Snapchat Pixel ID"@
    }
}

/// The resolved configuration, with no events yet.
pub open spec fn spec_config(s: Seq<(String, String)>) -> SnapchatPayloadV {
    SnapchatPayloadV {
        data: Seq::empty(),
        access_token: spec_lookup(s, "snapchat_access_token"@)->0,
        pixel_id: spec_lookup(s, "snapchat_pixel_id"@)->0,
        test_event_code: spec_lookup(s, "snapchat_test_event_code"@),
    }
}

impl SnapchatPayload {
    /// Resolves the provider credentials from the settings collection, or
    /// fails naming the first missing required key.
    pub fn new(settings: Dict) -> (r: Result<Self, String>)
        ensures
            r is Ok <==> spec_config_ok(settings@),
            r matches Err(e) ==> e@ == spec_config_err(settings@),
            r matches Ok(p) ==> p@ == spec_config(settings@),
    {
        let access_token = match dict_get(&settings, "snapchat_access_token") {
            Some(key) => key,
            None => {
                return Err(String::from_str("Missing Snapchat Access Token"));
            },
        };
        let pixel_id = match dict_get(&settings, "snapchat_pixel_id") {
            Some(key) => key,
            None => {
                return Err(String::from_str("Missing Snapchat Pixel ID"));
            },
        };
        let test_event_code = dict_get(&settings, "snapchat_test_event_code");
        let payload = SnapchatPayload { data: Vec::new(), access_token, pixel_id, test_event_code };
        proof {
            assert(payload@.data =~= Seq::<SnapchatEventV>::empty());
            assert(payload@ =~= spec_config(settings@));
        }
        Ok(payload)
    }
}

/// One serialized member for an optional user field: absent fields are
/// omitted, present ones serialize as strings.
pub open spec fn opt_str_entry(k: Seq<char>, v: Option<Seq<char>>) -> Seq<(Seq<char>, JsonV)> {
    match v {
        Some(s) => seq![(k, JsonV::Str(s))],
        None => Seq::empty(),
    }
}

/// The serialized members of the user record, in wire order, under the
/// provider's short field names.
pub open spec fn user_data_entries(u: UserDataV) -> Seq<(Seq<char>, JsonV)> {
    opt_str_entry("em"@, u.email) + opt_str_entry("ph"@, u.phone_number) + opt_str_entry(
        "fn"@,
        u.first_name,
    ) + opt_str_entry("ln"@, u.last_name) + opt_str_entry("db"@, u.date_of_birth) + opt_str_entry(
        "ge"@,
        u.gender,
    ) + opt_str_entry("ct"@, u.city) + opt_str_entry("st"@, u.state) + opt_str_entry(
        "zp"@,
        u.zip_code,
    ) + opt_str_entry("country"@, u.country) + opt_str_entry("external_id"@, u.external_id)
        + opt_str_entry("client_ip_address"@, u.client_ip_address) + opt_str_entry(
        "client_user_agent"@,
        u.client_user_agent,
    ) + opt_str_entry("sc_click_id"@, u.sc_click_id) + opt_str_entry("sc_cookie1"@, u.sc_cookie1)
}

fn push_opt_entry(entries: &mut Vec<(String, JsonValue)>, key: &str, v: &Option<String>)
    ensures
        entries_view(final(entries)@) == entries_view(old(entries)@) + opt_str_entry(
            key@,
            v.deep_view(),
        ),
{
    match v {
        Some(s) => {
            entries.push((String::from_str(key), JsonValue::Str(s.clone())));
            proof {
                assert(entries_view(entries@) =~= entries_view(old(entries)@) + opt_str_entry(
                    key@,
                    v.deep_view(),
                ));
            }
        },
        None => {
            proof {
                assert(entries_view(entries@) =~= entries_view(old(entries)@) + opt_str_entry(
                    key@,
                    v.deep_view(),
                ));
            }
        },
    }
}

fn user_data_entry_list(u: &UserData) -> (r: Vec<(String, JsonValue)>)
    ensures
        entries_view(r@) == user_data_entries(u@),
{
    let mut entries: Vec<(String, JsonValue)> = Vec::new();
    proof {
        assert(entries_view(entries@) =~= Seq::<(Seq<char>, JsonV)>::empty());
        assert(Seq::<(Seq<char>, JsonV)>::empty() + opt_str_entry("em"@, u.email.deep_view())
            =~= opt_str_entry("em"@, u.email.deep_view()));
    }
    push_opt_entry(&mut entries, "em", &u.email);
    push_opt_entry(&mut entries, "ph", &u.phone_number);
    push_opt_entry(&mut entries, "fn", &u.first_name);
    push_opt_entry(&mut entries, "ln", &u.last_name);
    push_opt_entry(&mut entries, "db", &u.date_of_birth);
    push_opt_entry(&mut entries, "ge", &u.gender);
    push_opt_entry(&mut entries, "ct", &u.city);
    push_opt_entry(&mut entries, "st", &u.state);
    push_opt_entry(&mut entries, "zp", &u.zip_code);
    push_opt_entry(&mut entries, "country", &u.country);
    push_opt_entry(&mut entries, "external_id", &u.external_id);
    push_opt_entry(&mut entries, "client_ip_address", &u.client_ip_address);
    push_opt_entry(&mut entries, "client_user_agent", &u.client_user_agent);
    push_opt_entry(&mut entries, "sc_click_id", &u.sc_click_id);
    push_opt_entry(&mut entries, "sc_cookie1", &u.sc_cookie1);
    entries
}

/// The opening of one object member on the wire: the separator before it,
/// its key, and the colon.
pub open spec fn member_head(sep: char, k: Seq<char>) -> Seq<char> {
    seq![sep] + json_string(k) + seq![':']
}

/// The wire text of one outbound event: the fields in declaration order,
/// the two optional ones omitted when absent.
pub open spec fn json_event(ev: SnapchatEventV) -> Seq<char> {
    member_head('{', "event_name"@) + json_string(ev.event_name) + member_head(
        ',',
        "event_time"@,
    ) + dec_int(ev.event_time as int) + member_head(',', "user_data"@) + json_object(
        user_data_entries(ev.user_data),
    ) + (match ev.custom_data {
        Some(m) => member_head(',', "custom_data"@) + json_object(m),
        None => Seq::empty(),
    }) + (match ev.event_source_url {
        Some(u) => member_head(',', "event_source_url"@) + json_string(u),
        None => Seq::empty(),
    }) + member_head(',', "event_id"@) + json_string(ev.event_id) + member_head(
        ',',
        "action_source"@,
    ) + json_string(ev.action_source) + seq!['}']
}

fn write_member_head(out: &mut String, sep: char, key: &str)
    ensures
        final(out)@ == old(out)@ + member_head(sep, key@),
{
    push_char(out, sep);
    write_json_string(out, key);
    push_char(out, ':');
    proof {
        assert((old(out)@.push(sep) + json_string(key@)).push(':') =~= old(out)@ + member_head(
            sep,
            key@,
        ));
    }
}

fn write_event(out: &mut String, ev: &SnapchatEvent)
    ensures
        final(out)@ == old(out)@ + json_event(ev@),
{
    let ghost base = out@;
    write_member_head(out, '{', "event_name");
    let ghost acc = member_head('{', "event_name"@);
    write_json_string(out, ev.event_name.as_str());
    proof {
        lemma_concat_associative(base, acc, json_string(ev@.event_name));
    }
    let ghost acc = acc + json_string(ev@.event_name);
    write_member_head(out, ',', "event_time");
    proof {
        lemma_concat_associative(base, acc, member_head(',', "event_time"@));
    }
    let ghost acc = acc + member_head(',', "event_time"@);
    push_i64_dec(out, ev.event_time);
    proof {
        lemma_concat_associative(base, acc, dec_int(ev@.event_time as int));
    }
    let ghost acc = acc + dec_int(ev@.event_time as int);
    write_member_head(out, ',', "user_data");
    proof {
        lemma_concat_associative(base, acc, member_head(',', "user_data"@));
    }
    let ghost acc = acc + member_head(',', "user_data"@);
    let user_entries = user_data_entry_list(&ev.user_data);
    write_json_object(out, &user_entries);
    proof {
        lemma_concat_associative(base, acc, json_object(user_data_entries(ev@.user_data)));
    }
    let ghost acc = acc + json_object(user_data_entries(ev@.user_data));
    match &ev.custom_data {
        Some(m) => {
            write_member_head(out, ',', "custom_data");
            proof {
                lemma_concat_associative(base, acc, member_head(',', "custom_data"@));
            }
            write_json_object(out, m);
            proof {
                lemma_concat_associative(
                    base,
                    acc + member_head(',', "custom_data"@),
                    json_object(entries_view(m@)),
                );
                lemma_concat_associative(
                    acc,
                    member_head(',', "custom_data"@),
                    json_object(entries_view(m@)),
                );
            }
        },
        None => {
            proof {
                assert(acc + Seq::<char>::empty() =~= acc);
            }
        },
    }
    let ghost acc = acc + (match ev@.custom_data {
        Some(m) => member_head(',', "custom_data"@) + json_object(m),
        None => Seq::empty(),
    });
    match &ev.event_source_url {
        Some(u) => {
            write_member_head(out, ',', "event_source_url");
            proof {
                lemma_concat_associative(base, acc, member_head(',', "event_source_url"@));
            }
            write_json_string(out, u.as_str());
            proof {
                lemma_concat_associative(
                    base,
                    acc + member_head(',', "event_source_url"@),
                    json_string(u@),
                );
                lemma_concat_associative(acc, member_head(',', "event_source_url"@), json_string(u@));
            }
        },
        None => {
            proof {
                assert(acc + Seq::<char>::empty() =~= acc);
            }
        },
    }
    let ghost acc = acc + (match ev@.event_source_url {
        Some(u) => member_head(',', "event_source_url"@) + json_string(u),
        None => Seq::empty(),
    });
    write_member_head(out, ',', "event_id");
    proof {
        lemma_concat_associative(base, acc, member_head(',', "event_id"@));
    }
    let ghost acc = acc + member_head(',', "event_id"@);
    write_json_string(out, ev.event_id.as_str());
    proof {
        lemma_concat_associative(base, acc, json_string(ev@.event_id));
    }
    let ghost acc = acc + json_string(ev@.event_id);
    write_member_head(out, ',', "action_source");
    proof {
        lemma_concat_associative(base, acc, member_head(',', "action_source"@));
    }
    let ghost acc = acc + member_head(',', "action_source"@);
    write_json_string(out, ev.action_source.as_str());
    proof {
        lemma_concat_associative(base, acc, json_string(ev@.action_source));
    }
    let ghost acc = acc + json_string(ev@.action_source);
    push_char(out, '}');
    proof {
        assert((base + acc).push('}') =~= base + (acc + seq!['}']));
        assert(acc + seq!['}'] == json_event(ev@));
    }
}

/// The comma-joined wire texts of the events, in order.
pub open spec fn json_events(data: Seq<SnapchatEventV>) -> Seq<char>
    decreases data.len(),
{
    if data.len() == 0 {
        Seq::empty()
    } else if data.len() == 1 {
        json_event(data[0])
    } else {
        json_events(data.drop_last()) + seq![','] + json_event(data.last())
    }
}

/// The exact body text: the events under the single `data` key, the
/// credential fields deliberately excluded.
pub open spec fn json_payload(p: SnapchatPayloadV) -> Seq<char> {
    seq!['{'] + json_string("data"@) + seq![':'] + seq!['['] + json_events(p.data) + seq![']']
        + seq!['}']
}

/// Serializes the payload body.
pub fn serialize_payload(p: &SnapchatPayload) -> (r: String)
    ensures
        r@ == json_payload(p@),
{
    let mut out = String::new();
    push_char(&mut out, '{');
    write_json_string(&mut out, "data");
    push_char(&mut out, ':');
    push_char(&mut out, '[');
    let ghost head = seq!['{'] + json_string("data"@) + seq![':'] + seq!['['];
    proof {
        assert(out@ =~= head);
    }
    let n = p.data.len();
    let mut i: usize = 0;
    proof {
        assert(p@.data.take(0) =~= Seq::<SnapchatEventV>::empty());
    }
    while i < n
        invariant
            n == p.data.len(),
            p@.data.len() == n,
            i <= n,
            out@ == head + json_events(p@.data.take(i as int)),
            forall|j: int| 0 <= j < n ==> p@.data[j] == p.data@[j]@,
        decreases n - i,
    {
        proof {
            assert(p@.data.take(i as int + 1).drop_last() =~= p@.data.take(i as int));
            assert(p@.data.take(i as int + 1).last() == p@.data[i as int]);
        }
        if i > 0 {
            push_char(&mut out, ',');
        }
        write_event(&mut out, &p.data[i]);
        proof {
            assert(out@ =~= head + json_events(p@.data.take(i as int + 1)));
        }
        i = i + 1;
    }
    push_char(&mut out, ']');
    push_char(&mut out, '}');
    proof {
        assert(p@.data.take(n as int) =~= p@.data);
        assert(out@ =~= json_payload(p@));
    }
    out
}

} // verus!

