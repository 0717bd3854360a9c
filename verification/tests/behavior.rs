use sha2::{Digest, Sha256};
use snapchat_capi::data_collection::{
    Campaign, Client, Consent, Context, Data, Event, EventType, PageData, Session, TrackData,
    UserData,
};
use snapchat_capi::SnapchatComponent;

fn plain_client() -> Client {
    Client {
        city: "".to_string(),
        ip: "1.2.3.4".to_string(),
        locale: "en".to_string(),
        timezone: "UTC".to_string(),
        user_agent: "UA".to_string(),
        user_agent_architecture: "".to_string(),
        user_agent_bitness: "".to_string(),
        user_agent_full_version_list: "".to_string(),
        user_agent_version_list: "".to_string(),
        user_agent_mobile: "".to_string(),
        user_agent_model: "".to_string(),
        os_name: "".to_string(),
        os_version: "".to_string(),
        screen_width: 0,
        screen_height: 0,
        continent: "".to_string(),
        country_code: "".to_string(),
        country_name: "".to_string(),
        region: "".to_string(),
    }
}

fn plain_campaign() -> Campaign {
    Campaign {
        name: "".to_string(),
        source: "".to_string(),
        medium: "".to_string(),
        term: "".to_string(),
        content: "".to_string(),
        creative_format: "".to_string(),
        marketing_tactic: "".to_string(),
    }
}

fn plain_session() -> Session {
    Session {
        session_id: "".to_string(),
        previous_session_id: "".to_string(),
        session_count: 1,
        session_start: true,
        first_seen: 0,
        last_seen: 0,
    }
}

fn plain_page_data() -> PageData {
    PageData {
        name: "".to_string(),
        category: "".to_string(),
        keywords: vec![],
        title: "".to_string(),
        url: "".to_string(),
        path: "".to_string(),
        search: "".to_string(),
        referrer: "".to_string(),
        properties: vec![],
    }
}

fn plain_context(user_props: Vec<(String, String)>) -> Context {
    Context {
        page: plain_page_data(),
        user: UserData {
            user_id: "".to_string(),
            anonymous_id: "".to_string(),
            edgee_id: "edgee".to_string(),
            properties: user_props,
        },
        client: plain_client(),
        campaign: plain_campaign(),
        session: plain_session(),
    }
}

fn page_event(data: PageData, user_props: Vec<(String, String)>) -> Event {
    Event {
        uuid: "id-1".to_string(),
        timestamp: 123,
        timestamp_millis: 123000,
        timestamp_micros: 123000000,
        event_type: EventType::Page,
        data: Data::Page(data),
        context: plain_context(user_props),
        consent: Some(Consent::Granted),
    }
}

fn track_event(data: TrackData, user_props: Vec<(String, String)>) -> Event {
    Event {
        uuid: "id-1".to_string(),
        timestamp: 123,
        timestamp_millis: 123000,
        timestamp_micros: 123000000,
        event_type: EventType::Track,
        data: Data::Track(data),
        context: plain_context(user_props),
        consent: Some(Consent::Granted),
    }
}

fn track_data(name: &str, properties: Vec<(String, String)>) -> TrackData {
    TrackData {
        name: name.to_string(),
        products: vec![],
        properties,
    }
}

fn email_props() -> Vec<(String, String)> {
    vec![("email".to_string(), "abc".to_string())]
}

fn plain_settings() -> Vec<(String, String)> {
    vec![
        ("snapchat_access_token".to_string(), "tok".to_string()),
        ("snapchat_pixel_id".to_string(), "pix".to_string()),
    ]
}

const SHA_ABC: &str = "ba7816bf8f01cfea414140de5dae2223b00361a396177a9cb410ff61f20015ad";

#[test]
fn exact_request_for_minimal_page_event() {
    let event = page_event(plain_page_data(), email_props());
    let result = SnapchatComponent::page(event, plain_settings());
    let request = result.unwrap();
    assert_eq!(request.url, "https://tr.snapchat.com/v3/pix/events?access_token=tok");
    assert_eq!(
        request.headers,
        vec![("content-type".to_string(), "application/json".to_string())]
    );
    assert!(request.forward_client_headers);
    let expected_body = format!(
        "{{\"data\":[{{\"event_name\":\"PAGE_VIEW\",\"event_time\":123,\
         \"user_data\":{{\"em\":\"{}\",\"client_ip_address\":\"1.2.3.4\",\
         \"client_user_agent\":\"UA\"}},\"custom_data\":{{}},\
         \"event_id\":\"id-1\",\"action_source\":\"WEB\"}}]}}",
        SHA_ABC
    );
    assert_eq!(request.body, expected_body);
}

#[test]
fn email_is_hashed_not_sent_in_clear() {
    let props = vec![("email".to_string(), "test@test.com".to_string())];
    let event = page_event(plain_page_data(), props);
    let request = SnapchatComponent::page(event, plain_settings()).unwrap();
    let expected = format!("{:x}", Sha256::digest(b"test@test.com"));
    assert!(request.body.contains(&format!("\"em\":\"{}\"", expected)));
    assert!(!request.body.contains("test@test.com"));
}

#[test]
fn coercion_of_custom_property_values() {
    let data = track_data(
        "buy",
        vec![
            ("p_true".to_string(), "true".to_string()),
            ("p_false".to_string(), "false".to_string()),
            ("p_int".to_string(), "10".to_string()),
            ("p_float".to_string(), "10.5".to_string()),
            ("p_neg".to_string(), "-3".to_string()),
            ("p_str".to_string(), "abc".to_string()),
        ],
    );
    let event = track_event(data, email_props());
    let request = SnapchatComponent::track(event, plain_settings()).unwrap();
    assert!(request.body.contains("\"p_true\":true"));
    assert!(request.body.contains("\"p_false\":false"));
    assert!(request.body.contains("\"p_int\":10,"));
    assert!(request.body.contains("\"p_float\":10.5"));
    assert!(request.body.contains("\"p_neg\":-3"));
    assert!(request.body.contains("\"p_str\":\"abc\""));
}

#[test]
fn translation_is_idempotent() {
    let data = track_data(
        "buy",
        vec![
            ("currency".to_string(), "USD".to_string()),
            ("amount".to_string(), "10".to_string()),
        ],
    );
    let event = track_event(data, email_props());
    let first = SnapchatComponent::track(event.clone(), plain_settings()).unwrap();
    let second = SnapchatComponent::track(event, plain_settings()).unwrap();
    assert_eq!(first.method, second.method);
    assert_eq!(first.url, second.url);
    assert_eq!(first.headers, second.headers);
    assert_eq!(first.body, second.body);
}

#[test]
fn page_home_scenario() {
    let mut data = plain_page_data();
    data.name = "Home".to_string();
    data.category = "".to_string();
    data.properties = vec![("currency".to_string(), "USD".to_string())];
    let event = page_event(data, email_props());
    let request = SnapchatComponent::page(event, plain_settings()).unwrap();
    assert!(request.body.contains("\"page_name\":\"Home\""));
    assert!(request.body.contains("\"currency\":\"USD\""));
    assert!(!request.body.contains("page_category"));
}

#[test]
fn track_empty_name_message() {
    let event = track_event(track_data("", vec![]), email_props());
    let result = SnapchatComponent::track(event, plain_settings());
    assert_eq!(result.err().unwrap(), "Track name is not set");
}

#[test]
fn missing_access_token_message() {
    let event = page_event(plain_page_data(), email_props());
    let settings: Vec<(String, String)> = vec![];
    let result = SnapchatComponent::page(event, settings);
    assert_eq!(result.err().unwrap(), "Missing Snapchat Access Token");
}

#[test]
fn missing_pixel_id_message() {
    let event = page_event(plain_page_data(), email_props());
    let settings = vec![("snapchat_access_token".to_string(), "tok".to_string())];
    let result = SnapchatComponent::page(event, settings);
    assert_eq!(result.err().unwrap(), "Missing Snapchat Pixel ID");
}

#[test]
fn page_called_with_track_data_fails() {
    let event = track_event(track_data("buy", vec![]), email_props());
    let result = SnapchatComponent::page(event, plain_settings());
    assert_eq!(result.err().unwrap(), "Missing page data");
}

#[test]
fn track_called_with_page_data_fails() {
    let event = page_event(plain_page_data(), email_props());
    let result = SnapchatComponent::track(event, plain_settings());
    assert_eq!(result.err().unwrap(), "Missing track data");
}

#[test]
fn insufficient_identity_message() {
    let props = vec![
        ("first_name".to_string(), "John".to_string()),
        ("city".to_string(), "Paris".to_string()),
    ];
    let event = track_event(track_data("buy", vec![]), props);
    let result = SnapchatComponent::track(event, plain_settings());
    assert_eq!(
        result.err().unwrap(),
        "User properties must contain email or phone_number"
    );
}

#[test]
fn consent_pending_blocks_translation() {
    let mut event = page_event(plain_page_data(), email_props());
    event.consent = Some(Consent::Pending);
    let result = SnapchatComponent::page(event, plain_settings());
    assert_eq!(result.err().unwrap(), "Consent is not granted");
}

#[test]
fn unknown_property_keys_are_dropped() {
    let props = vec![
        ("email".to_string(), "abc".to_string()),
        ("random_property".to_string(), "zzz".to_string()),
    ];
    let event = page_event(plain_page_data(), props);
    let request = SnapchatComponent::page(event, plain_settings()).unwrap();
    assert!(!request.body.contains("random_property"));
    assert!(!request.body.contains("zzz"));
}

#[test]
fn later_settings_value_wins() {
    let settings = vec![
        ("snapchat_access_token".to_string(), "first".to_string()),
        ("snapchat_pixel_id".to_string(), "pix".to_string()),
        ("snapchat_access_token".to_string(), "second".to_string()),
    ];
    let event = page_event(plain_page_data(), email_props());
    let request = SnapchatComponent::page(event, settings).unwrap();
    assert!(request.url.contains("access_token=second"));
}

#[test]
fn test_event_code_appended_to_url() {
    let mut settings = plain_settings();
    settings.push(("snapchat_test_event_code".to_string(), "abcd".to_string()));
    let event = page_event(plain_page_data(), email_props());
    let request = SnapchatComponent::page(event, settings).unwrap();
    assert_eq!(
        request.url,
        "https://tr.snapchat.com/v3/pix/events?access_token=tok&test_event_code=abcd"
    );
}

#[test]
fn string_values_are_escaped() {
    let data = track_data(
        "buy",
        vec![("msg".to_string(), "a\"b\\c\nd".to_string())],
    );
    let event = track_event(data, email_props());
    let request = SnapchatComponent::track(event, plain_settings()).unwrap();
    assert!(request.body.contains("\"msg\":\"a\\\"b\\\\c\\nd\""));
}

#[test]
fn control_characters_get_unicode_escapes() {
    let data = track_data(
        "buy",
        vec![
            ("ctl".to_string(), "x\u{1}y".to_string()),
            ("tab".to_string(), "a\tb".to_string()),
        ],
    );
    let event = track_event(data, email_props());
    let request = SnapchatComponent::track(event, plain_settings()).unwrap();
    assert!(request.body.contains("\"ctl\":\"x\\u0001y\""));
    assert!(request.body.contains("\"tab\":\"a\\tb\""));
}

#[test]
fn non_ascii_values_pass_through() {
    let data = track_data(
        "buy",
        vec![("uni".to_string(), "h\u{e9}llo".to_string())],
    );
    let event = track_event(data, email_props());
    let request = SnapchatComponent::track(event, plain_settings()).unwrap();
    assert!(request.body.contains("\"uni\":\"h\u{e9}llo\""));
}

#[test]
fn negative_event_time_serializes() {
    let mut event = track_event(track_data("buy", vec![]), email_props());
    event.timestamp = -5;
    let request = SnapchatComponent::track(event, plain_settings()).unwrap();
    assert!(request.body.contains("\"event_time\":-5"));
}

#[test]
fn custom_property_overwrites_well_known_key() {
    let mut data = plain_page_data();
    data.name = "Home".to_string();
    data.properties = vec![("page_name".to_string(), "Override".to_string())];
    let event = page_event(data, email_props());
    let request = SnapchatComponent::page(event, plain_settings()).unwrap();
    assert!(request.body.contains("\"page_name\":\"Override\""));
    assert!(!request.body.contains("\"page_name\":\"Home\""));
}

#[test]
fn event_source_url_concatenates_url_and_search() {
    let event0 = page_event(plain_page_data(), email_props());
    let mut event = event0;
    event.context.page.url = "https://example.com/p".to_string();
    event.context.page.search = "?q=1".to_string();
    let request = SnapchatComponent::page(event, plain_settings()).unwrap();
    assert!(request
        .body
        .contains("\"event_source_url\":\"https://example.com/p?q=1\""));
}

#[test]
fn context_user_id_is_hashed_into_external_id() {
    let mut event = page_event(plain_page_data(), email_props());
    event.context.user.user_id = "123".to_string();
    let request = SnapchatComponent::page(event, plain_settings()).unwrap();
    let expected = format!("{:x}", Sha256::digest(b"123"));
    assert!(request.body.contains(&format!("\"external_id\":\"{}\"", expected)));
}
