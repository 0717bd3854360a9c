//! Event-translation adapter for a Conversions API endpoint: turns a generic
//! collection event plus a settings dictionary into the exact HTTP request
//! descriptor the provider expects.
//!
//! Three entry points mirror the three generic event kinds. Page and track
//! events are translated into one outbound event each; identity events are
//! deliberately unimplemented and always fail.

use vstd::prelude::*;
use vstd::seq_lib::lemma_concat_associative;
use vstd::string::StringExecFns;

pub mod data_collection;
pub mod json;
pub mod laws;
pub mod snapchat_payload;
pub mod strutil;

use crate::data_collection::{Data, Dict, EdgeeRequest, Event, HttpMethod, PageData, TrackData};
use crate::json::{
    entries_view, parse_value, spec_parse_value, upsert, upsert_entry, JsonV, JsonValue,
};
use crate::snapchat_payload::{
    json_payload, serialize_payload, spec_config, spec_config_err, spec_config_ok, spec_event,
    spec_event_err, spec_event_ok, SnapchatEvent, SnapchatEventV, SnapchatPayload,
    SnapchatPayloadV,
};

verus! {

/// A well-known page attribute is inserted only when it is non-empty.
pub open spec fn upsert_nonempty(
    m: Seq<(Seq<char>, JsonV)>,
    k: Seq<char>,
    v: Seq<char>,
) -> Seq<(Seq<char>, JsonV)> {
    if v.len() > 0 {
        upsert(m, k, spec_parse_value(v))
    } else {
        m
    }
}

/// The custom data after overlaying every property, in order, each value
/// coerced.
pub open spec fn fold_props(m: Seq<(Seq<char>, JsonV)>, props: Seq<(String, String)>) -> Seq<
    (Seq<char>, JsonV),
>
    decreases props.len(),
{
    if props.len() == 0 {
        m
    } else {
        upsert(
            fold_props(m, props.drop_last()),
            props.last().0@,
            spec_parse_value(props.last().1@),
        )
    }
}

/// Custom data of a page event: the non-empty well-known attributes first,
/// then the page properties, which may overwrite them on a name collision.
pub open spec fn page_custom_entries(d: PageData) -> Seq<(Seq<char>, JsonV)> {
    fold_props(
        upsert_nonempty(
            upsert_nonempty(
                upsert_nonempty(Seq::empty(), "page_name"@, d.name@),
                "page_category"@,
                d.category@,
            ),
            "page_title"@,
            d.title@,
        ),
        d.properties@,
    )
}

/// Custom data of a track event: purely the event's properties.
pub open spec fn track_custom_entries(d: TrackData) -> Seq<(Seq<char>, JsonV)> {
    fold_props(Seq::empty(), d.properties@)
}

fn fold_custom_props(m: &mut Vec<(String, JsonValue)>, props: &Vec<(String, String)>)
    ensures
        entries_view(final(m)@) == fold_props(entries_view(old(m)@), props@),
{
    let n = props.len();
    let mut i: usize = 0;
    proof {
        assert(props@.take(0) =~= Seq::<(String, String)>::empty());
    }
    while i < n
        invariant
            n == props@.len(),
            i <= n,
            entries_view(m@) == fold_props(entries_view(old(m)@), props@.take(i as int)),
        decreases n - i,
    {
        proof {
            assert(props@.take(i as int + 1).drop_last() =~= props@.take(i as int));
            assert(props@.take(i as int + 1).last() == props@[i as int]);
        }
        let value = parse_value(props[i].1.as_str());
        upsert_entry(m, props[i].0.as_str(), value);
        i = i + 1;
    }
    proof {
        assert(props@.take(n as int) =~= props@);
    }
}

fn build_page_custom_data(data: &PageData) -> (r: Vec<(String, JsonValue)>)
    ensures
        entries_view(r@) == page_custom_entries(*data),
{
    let mut custom_data: Vec<(String, JsonValue)> = Vec::new();
    proof {
        assert(entries_view(custom_data@) =~= Seq::<(Seq<char>, JsonV)>::empty());
    }
    if !data.name.as_str().is_empty() {
        let value = parse_value(data.name.as_str());
        upsert_entry(&mut custom_data, "page_name", value);
    }
    if !data.category.as_str().is_empty() {
        let value = parse_value(data.category.as_str());
        upsert_entry(&mut custom_data, "page_category", value);
    }
    if !data.title.as_str().is_empty() {
        let value = parse_value(data.title.as_str());
        upsert_entry(&mut custom_data, "page_title", value);
    }
    fold_custom_props(&mut custom_data, &data.properties);
    custom_data
}

/// The destination URL: base, destination id, and the access token as a
/// query parameter, with the test-event code appended when one was resolved.
pub open spec fn request_url(p: SnapchatPayloadV) -> Seq<char> {
    "https://tr.snapchat.com/v3/"@ + p.pixel_id + "/events?access_token="@ + p.access_token + (
    match p.test_event_code {
        Some(c) => "&test_event_code="@ + c,
        None => Seq::empty(),
    })
}

/// What the request descriptor built from a payload looks like: POST, the
/// destination URL, the single content-type header, and the exact body.
pub open spec fn request_matches(r: EdgeeRequest, p: SnapchatPayloadV) -> bool {
    &&& r.method == HttpMethod::Post
    &&& r.url@ == request_url(p)
    &&& r.headers@.len() == 1
    &&& r.headers@[0].0@ == "content-type"@
    &&& r.headers@[0].1@ == "application/json"@
    &&& r.forward_client_headers == true
    &&& r.body@ == json_payload(p)
}

/// Assembles the outbound request descriptor from a fully built payload.
pub fn build_edgee_request(snapchat_payload: SnapchatPayload) -> (r: EdgeeRequest)
    ensures
        request_matches(r, snapchat_payload@),
{
    let mut headers: Vec<(String, String)> = Vec::new();
    headers.push((String::from_str("content-type"), String::from_str("application/json")));
    let mut url = String::from_str("https://tr.snapchat.com/v3/");
    url.append(snapchat_payload.pixel_id.as_str());
    url.append("/events?access_token=");
    url.append(snapchat_payload.access_token.as_str());
    let ghost base = "https://tr.snapchat.com/v3/"@ + snapchat_payload@.pixel_id
        + "/events?access_token="@ + snapchat_payload@.access_token;
    match &snapchat_payload.test_event_code {
        Some(test_code) => {
            url.append("&test_event_code=");
            url.append(test_code.as_str());
            proof {
                lemma_concat_associative(base, "&test_event_code="@, test_code@);
            }
        },
        None => {
            proof {
                assert(base + Seq::<char>::empty() =~= base);
            }
        },
    }
    let body = serialize_payload(&snapchat_payload);
    let r = EdgeeRequest {
        method: HttpMethod::Post,
        url,
        headers,
        forward_client_headers: true,
        body,
    };
    proof {
        assert(r.headers@[0].0@ == "content-type"@);
        assert(r.headers@[0].1@ == "application/json"@);
    }
    r
}

/// Page translation succeeds exactly when the event carries page data, both
/// credentials resolve, and the event passes every translation gate.
pub open spec fn spec_page_ok(e: Event, s: Seq<(String, String)>) -> bool {
    &&& e.data is Page
    &&& spec_config_ok(s)
    &&& spec_event_ok(e)
}

/// The message of the first check that fails on the page path.
pub open spec fn spec_page_err(e: Event, s: Seq<(String, String)>) -> Seq<char> {
    if !(e.data is Page) {
        "Missing page data"@
    } else if !spec_config_ok(s) {
        spec_config_err(s)
    } else {
        spec_event_err(e)
    }
}

/// The payload a successful page translation produces.
pub open spec fn spec_page_payload(e: Event, s: Seq<(String, String)>) -> SnapchatPayloadV {
    SnapchatPayloadV {
        data: seq![
            SnapchatEventV {
                custom_data: Some(page_custom_entries(e.data->Page_0)),
                ..spec_event(e, "PAGE_VIEW"@)
            },
        ],
        ..spec_config(s)
    }
}

/// Track translation succeeds exactly when the event carries track data with
/// a non-empty name, both credentials resolve, and the event passes every
/// translation gate.
pub open spec fn spec_track_ok(e: Event, s: Seq<(String, String)>) -> bool {
    &&& e.data is Track
    &&& e.data->Track_0.name@.len() > 0
    &&& spec_config_ok(s)
    &&& spec_event_ok(e)
}

/// The message of the first check that fails on the track path.
pub open spec fn spec_track_err(e: Event, s: Seq<(String, String)>) -> Seq<char> {
    if !(e.data is Track) {
        "Missing track data"@
    } else if e.data->Track_0.name@.len() == 0 {
        "Track name is not set"@
    } else if !spec_config_ok(s) {
        spec_config_err(s)
    } else {
        spec_event_err(e)
    }
}

/// The payload a successful track translation produces.
pub open spec fn spec_track_payload(e: Event, s: Seq<(String, String)>) -> SnapchatPayloadV {
    SnapchatPayloadV {
        data: seq![
            SnapchatEventV {
                custom_data: Some(track_custom_entries(e.data->Track_0)),
                ..spec_event(e, e.data->Track_0.name@)
            },
        ],
        ..spec_config(s)
    }
}

/// The dispatch surface the host binds to: one stateless entry point per
/// generic event kind.
pub struct SnapchatComponent;

impl SnapchatComponent {
    /// Translates a page event into a request descriptor.
    pub fn page(edgee_event: Event, settings: Dict) -> (r: Result<EdgeeRequest, String>)
        ensures
            r is Ok <==> spec_page_ok(edgee_event, settings@),
            r matches Err(e) ==> e@ == spec_page_err(edgee_event, settings@),
            r matches Ok(req) ==> request_matches(req, spec_page_payload(edgee_event, settings@)),
    {
        let ghost s0 = settings@;
        match &edgee_event.data {
            Data::Page(data) => {
                let mut snapchat_payload = match SnapchatPayload::new(settings) {
                    Ok(p) => p,
                    Err(e) => {
                        return Err(e);
                    },
                };
                let mut event = match SnapchatEvent::new(&edgee_event, "PAGE_VIEW") {
                    Ok(ev) => ev,
                    Err(e) => {
                        return Err(e);
                    },
                };
                let custom_data = build_page_custom_data(data);
                event.custom_data = Some(custom_data);
                snapchat_payload.data.push(event);
                proof {
                    assert(snapchat_payload@.data =~= seq![event@]);
                    assert(snapchat_payload@ =~= spec_page_payload(edgee_event, s0));
                }
                Ok(build_edgee_request(snapchat_payload))
            },
            _ => Err(String::from_str("Missing page data")),
        }
    }

    /// Translates a custom track event into a request descriptor.
    pub fn track(edgee_event: Event, settings: Dict) -> (r: Result<EdgeeRequest, String>)
        ensures
            r is Ok <==> spec_track_ok(edgee_event, settings@),
            r matches Err(e) ==> e@ == spec_track_err(edgee_event, settings@),
            r matches Ok(req) ==> request_matches(req, spec_track_payload(edgee_event, settings@)),
    {
        let ghost s0 = settings@;
        match &edgee_event.data {
            Data::Track(data) => {
                if data.name.as_str().is_empty() {
                    return Err(String::from_str("Track name is not set"));
                }
                let mut snapchat_payload = match SnapchatPayload::new(settings) {
                    Ok(p) => p,
                    Err(e) => {
                        return Err(e);
                    },
                };
                let mut event = match SnapchatEvent::new(&edgee_event, data.name.as_str()) {
                    Ok(ev) => ev,
                    Err(e) => {
                        return Err(e);
                    },
                };
                let mut custom_data: Vec<(String, JsonValue)> = Vec::new();
                proof {
                    assert(entries_view(custom_data@) =~= Seq::<(Seq<char>, JsonV)>::empty());
                }
                fold_custom_props(&mut custom_data, &data.properties);
                event.custom_data = Some(custom_data);
                snapchat_payload.data.push(event);
                proof {
                    assert(snapchat_payload@.data =~= seq![event@]);
                    assert(snapchat_payload@ =~= spec_track_payload(edgee_event, s0));
                }
                Ok(build_edgee_request(snapchat_payload))
            },
            _ => Err(String::from_str("Missing track data")),
        }
    }

    /// Identity events are not translated by this component: every call
    /// fails with the same message, by design.
    pub fn user(_edgee_event: Event, _settings: Dict) -> (r: Result<EdgeeRequest, String>)
        ensures
            r is Err,
            r matches Err(e) ==> e@ == "User event not implemented for this component"@,
    {
        Err(String::from_str("User event not implemented for this component"))
    }
}

} // verus!
