//! The generic event model that the host collection pipeline hands to the
//! component, and the request descriptor the component hands back.
//!
//! Every field is a plain value: the translation logic only ever reads
//! strings, integers and booleans out of these records.

use vstd::prelude::*;

verus! {

/// An ordered key-value settings collection.
pub type Dict = Vec<(String, String)>;

/// Tri-state consent marker attached to an event; `None` on the event means
/// the marker is absent.
#[derive(Clone, Copy, PartialEq, Eq, Structural, Debug)]
pub enum Consent {
    Pending,
    Granted,
    Denied,
}

#[derive(Clone, Copy, PartialEq, Eq, Structural, Debug)]
pub enum EventType {
    Page,
    Track,
    User,
}

#[derive(Clone, Copy, PartialEq, Eq, Structural, Debug)]
pub enum HttpMethod {
    Get,
    Put,
    Post,
    Delete,
}

/// Attributes of the page on which the event was collected.
#[derive(Clone)]
pub struct PageData {
    pub name: String,
    pub category: String,
    pub keywords: Vec<String>,
    pub title: String,
    pub url: String,
    pub path: String,
    pub search: String,
    pub referrer: String,
    pub properties: Vec<(String, String)>,
}

/// Attributes of a custom track event.
#[derive(Clone)]
pub struct TrackData {
    pub name: String,
    pub products: Vec<Vec<(String, String)>>,
    pub properties: Vec<(String, String)>,
}

/// Identity attributes of the visitor, as the host pipeline knows them.
#[derive(Clone)]
pub struct UserData {
    pub user_id: String,
    pub anonymous_id: String,
    pub edgee_id: String,
    pub properties: Vec<(String, String)>,
}

/// Attributes of the client that produced the event.
#[derive(Clone)]
pub struct Client {
    pub city: String,
    pub ip: String,
    pub locale: String,
    pub timezone: String,
    pub user_agent: String,
    pub user_agent_architecture: String,
    pub user_agent_bitness: String,
    pub user_agent_full_version_list: String,
    pub user_agent_version_list: String,
    pub user_agent_mobile: String,
    pub user_agent_model: String,
    pub os_name: String,
    pub os_version: String,
    pub screen_width: i32,
    pub screen_height: i32,
    pub continent: String,
    pub country_code: String,
    pub country_name: String,
    pub region: String,
}

#[derive(Clone)]
pub struct Campaign {
    pub name: String,
    pub source: String,
    pub medium: String,
    pub term: String,
    pub content: String,
    pub creative_format: String,
    pub marketing_tactic: String,
}

#[derive(Clone)]
pub struct Session {
    pub session_id: String,
    pub previous_session_id: String,
    pub session_count: i32,
    pub session_start: bool,
    pub first_seen: i64,
    pub last_seen: i64,
}

/// Everything the host pipeline knows around a single event.
#[derive(Clone)]
pub struct Context {
    pub page: PageData,
    pub user: UserData,
    pub client: Client,
    pub campaign: Campaign,
    pub session: Session,
}

/// The kind-specific part of an event.
#[derive(Clone)]
pub enum Data {
    Page(PageData),
    Track(TrackData),
    User(UserData),
}

/// One generic event, as handed over by the host pipeline.
#[derive(Clone)]
pub struct Event {
    pub uuid: String,
    pub timestamp: i64,
    pub timestamp_millis: i64,
    pub timestamp_micros: i64,
    pub event_type: EventType,
    pub data: Data,
    pub context: Context,
    pub consent: Option<Consent>,
}

/// The outbound HTTP request descriptor: the component only constructs it,
/// the host's transport layer performs the call.
#[derive(Clone)]
pub struct EdgeeRequest {
    pub method: HttpMethod,
    pub url: String,
    pub headers: Vec<(String, String)>,
    pub forward_client_headers: bool,
    pub body: String,
}

} // verus!
