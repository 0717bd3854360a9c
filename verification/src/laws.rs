//! The general laws of the translation, stated and proved over the same
//! specification functions the executable contracts use.

use vstd::prelude::*;

use crate::data_collection::{Consent, EdgeeRequest, Event};
use crate::snapchat_payload::{
    apply_props, consent_blocked, effective_props, initial_user_view, spec_config_err,
    spec_config_ok, spec_event_err, spec_event_ok, spec_lookup, SnapchatPayloadV, UserDataV,
};
use crate::{request_matches, spec_page_ok, spec_track_ok};

verus! {

/// Some property in the set carries the given key.
pub open spec fn has_prop_key(props: Seq<(String, String)>, key: Seq<char>) -> bool {
    exists|i: int| 0 <= i < props.len() && props[i].0@ == key
}

proof fn lemma_has_key_unsnoc(props: Seq<(String, String)>, key: Seq<char>)
    requires
        props.len() > 0,
        props.last().0@ != key,
    ensures
        has_prop_key(props, key) <==> has_prop_key(props.drop_last(), key),
{
    if has_prop_key(props, key) {
        let i = choose|i: int| 0 <= i < props.len() && props[i].0@ == key;
        assert(i != props.len() - 1);
        assert(props.drop_last()[i] == props[i]);
        assert(has_prop_key(props.drop_last(), key));
    }
    if has_prop_key(props.drop_last(), key) {
        let i = choose|i: int| 0 <= i < props.drop_last().len() && props.drop_last()[i].0@ == key;
        assert(props[i] == props.drop_last()[i]);
        assert(has_prop_key(props, key));
    }
}

/// Property dispatch yields an email exactly when one was already present or
/// some property carries the `email` key.
proof fn lemma_apply_props_email(u: UserDataV, props: Seq<(String, String)>)
    ensures
        apply_props(u, props).email is Some <==> (u.email is Some || has_prop_key(
            props,
            "email"@,
        )),
    decreases props.len(),
{
    if props.len() == 0 {
    } else {
        let prefix = props.drop_last();
        lemma_apply_props_email(u, prefix);
        if props.last().0@ == "email"@ {
            assert(props[props.len() - 1].0@ == "email"@);
            assert(has_prop_key(props, "email"@));
        } else {
            lemma_has_key_unsnoc(props, "email"@);
            assert(apply_props(u, props).email == apply_props(u, prefix).email);
        }
    }
}

/// Property dispatch yields a phone number exactly when one was already
/// present or some property carries the `phone_number` key.
proof fn lemma_apply_props_phone(u: UserDataV, props: Seq<(String, String)>)
    ensures
        apply_props(u, props).phone_number is Some <==> (u.phone_number is Some || has_prop_key(
            props,
            "phone_number"@,
        )),
    decreases props.len(),
{
    reveal_strlit("email");
    reveal_strlit("phone_number");
    assert("email"@.len() == 5);
    assert("phone_number"@.len() == 12);
    if props.len() == 0 {
    } else {
        let prefix = props.drop_last();
        lemma_apply_props_phone(u, prefix);
        if props.last().0@ == "phone_number"@ {
            assert(props[props.len() - 1].0@ == "phone_number"@);
            assert(has_prop_key(props, "phone_number"@));
            assert(props.last().0@ != "email"@);
        } else {
            lemma_has_key_unsnoc(props, "phone_number"@);
            assert(apply_props(u, props).phone_number == apply_props(u, prefix).phone_number);
        }
    }
}

/// For all settings missing the access-token or the destination-identifier
/// key, config resolution fails, naming a missing credential; no entry point
/// can succeed on such settings.
pub proof fn law_missing_credential(e: Event, s: Seq<(String, String)>)
    requires
        spec_lookup(s, "snapchat_access_token"@) is None || spec_lookup(
            s,
            "snapchat_pixel_id"@,
        ) is None,
    ensures
        !spec_config_ok(s),
        spec_config_err(s) == "Missing Snapchat Access Token"@ || spec_config_err(s)
            == "Missing Snapchat Pixel ID"@,
        !spec_page_ok(e, s),
        !spec_track_ok(e, s),
{
}

/// For all events with consent explicitly set to denied, translation fails
/// with the consent message, whatever the settings and properties hold.
pub proof fn law_consent_denied(e: Event, s: Seq<(String, String)>)
    requires
        e.consent == Some(Consent::Denied),
    ensures
        !spec_event_ok(e),
        spec_event_err(e) == "Consent is not granted"@,
        !spec_page_ok(e, s),
        !spec_track_ok(e, s),
{
}

/// For all events with consent absent or granted and at least one property
/// under the `email` or `phone_number` key, translation passes every gate;
/// with resolvable credentials the matching entry point succeeds.
pub proof fn law_identity_present(e: Event, s: Seq<(String, String)>)
    requires
        e.consent is None || e.consent == Some(Consent::Granted),
        has_prop_key(effective_props(e), "email"@) || has_prop_key(
            effective_props(e),
            "phone_number"@,
        ),
    ensures
        spec_event_ok(e),
        spec_config_ok(s) && e.data is Page ==> spec_page_ok(e, s),
        spec_config_ok(s) && e.data is Track && e.data->Track_0.name@.len() > 0 ==> spec_track_ok(
            e,
            s,
        ),
{
    lemma_apply_props_email(initial_user_view(e), effective_props(e));
    lemma_apply_props_phone(initial_user_view(e), effective_props(e));
}

/// For all non-empty user-property sets lacking both the `email` and the
/// `phone_number` key, translation fails with the insufficient-identity
/// message, however many other identifying fields are present.
pub proof fn law_insufficient_identity(e: Event)
    requires
        !consent_blocked(e),
        effective_props(e).len() > 0,
        !has_prop_key(effective_props(e), "email"@),
        !has_prop_key(effective_props(e), "phone_number"@),
    ensures
        !spec_event_ok(e),
        spec_event_err(e) == "User properties must contain email or phone_number"@,
{
    lemma_apply_props_email(initial_user_view(e), effective_props(e));
    lemma_apply_props_phone(initial_user_view(e), effective_props(e));
}

/// Two request descriptors built for the same payload agree byte for byte:
/// with the caller-supplied inputs fixed, translation is deterministic.
pub proof fn law_deterministic_request(r1: EdgeeRequest, r2: EdgeeRequest, p: SnapchatPayloadV)
    requires
        request_matches(r1, p),
        request_matches(r2, p),
    ensures
        r1.method == r2.method,
        r1.url@ == r2.url@,
        r1.body@ == r2.body@,
        r1.forward_client_headers == r2.forward_client_headers,
        r1.headers@.len() == r2.headers@.len(),
        forall|i: int|
            0 <= i < r1.headers@.len() ==> r1.headers@[i].0@ == r2.headers@[i].0@
                && r1.headers@[i].1@ == r2.headers@[i].1@,
{
}

} // verus!
