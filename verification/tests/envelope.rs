use chrono::TimeZone;

use hook0_api::hook0_client::EventEventTypeCreated;
use hook0_api::hook0_client::EventOrganizationCreated;
use hook0_api::hook0_client::Hook0ClientEvent;
use hook0_api::ids::Uuid;
use hook0_api::time::Timestamp;

fn sample_time() -> Timestamp {
    Timestamp::new(2014, 7, 8, 9, 10, 11).unwrap()
}

fn org_created() -> EventOrganizationCreated {
    EventOrganizationCreated {
        organization_id: Uuid {
            value: 0x0001_0203_0405_0607_0809_0a0b_0c0d_0e0f,
        },
        name: "Acme".to_string(),
        created_at: sample_time(),
        created_by: Uuid {
            value: 0xffee_ddcc_bbaa_9988_7766_5544_3322_1100,
        },
    }
}

fn event_type_created() -> EventEventTypeCreated {
    EventEventTypeCreated {
        application_id: Uuid {
            value: 0xa1a2_a3a4_b1b2_c1c2_d1d2_e1e2_e3e4_e5e6,
        },
        service_name: "billing".to_string(),
        resource_type_name: "invoice".to_string(),
        verb_name: "created".to_string(),
        event_type_name: "invoice.created".to_string(),
        created_at: sample_time(),
        created_by: None,
    }
}

#[test]
fn uuid_rendering_matches_uuid_crate() {
    let raw: u128 = 0xa1a2_a3a4_b1b2_c1c2_d1d2_e1e2_e3e4_e5e6;
    let ours = Uuid { value: raw }.to_hyphenated_string();
    let theirs = uuid::Uuid::from_u128(raw).to_string();
    assert_eq!(ours, theirs);
    assert_eq!(ours, "a1a2a3a4-b1b2-c1c2-d1d2-e1e2e3e4e5e6");
}

#[test]
fn timestamp_rendering_matches_chrono_serde() {
    let ours = sample_time().to_rfc3339_string();
    let dt = chrono::Utc.with_ymd_and_hms(2014, 7, 8, 9, 10, 11).unwrap();
    let theirs = serde_json::to_value(&dt).unwrap();
    assert_eq!(theirs.as_str().unwrap(), ours);
    assert_eq!(ours, "2014-07-08T09:10:11Z");
}

#[test]
fn timestamp_new_rejects_impossible_instants() {
    assert!(Timestamp::new(2020, 2, 29, 0, 0, 0).is_some());
    assert!(Timestamp::new(2021, 2, 29, 0, 0, 0).is_none());
    assert!(Timestamp::new(1900, 2, 29, 0, 0, 0).is_none());
    assert!(Timestamp::new(2000, 2, 29, 0, 0, 0).is_some());
    assert!(Timestamp::new(2021, 4, 31, 0, 0, 0).is_none());
    assert!(Timestamp::new(2021, 13, 1, 0, 0, 0).is_none());
    assert!(Timestamp::new(2021, 1, 1, 24, 0, 0).is_none());
    assert!(Timestamp::new(2021, 1, 1, 0, 60, 0).is_none());
}

#[test]
fn event_types_are_nonempty_and_variant_specific() {
    let org_env = Hook0ClientEvent::from(org_created()).mk_hook0_event();
    let et_env = Hook0ClientEvent::from(event_type_created()).mk_hook0_event();
    assert_eq!(org_env.event_type, "api.organization.created");
    assert_eq!(et_env.event_type, "api.event_type.created");
    assert!(!org_env.event_type.is_empty());
    assert!(!et_env.event_type.is_empty());
    assert_ne!(org_env.event_type, et_env.event_type);
}

#[test]
fn conversion_is_deterministic() {
    let e = Hook0ClientEvent::EventTypeCreated(event_type_created());
    let first = e.clone().mk_hook0_event();
    let second = e.mk_hook0_event();
    assert_eq!(first, second);
    let o = Hook0ClientEvent::OrganizationCreated(org_created());
    assert_eq!(o.clone().mk_hook0_event(), o.mk_hook0_event());
}

#[test]
fn labels_by_variant() {
    let org_env = Hook0ClientEvent::from(org_created()).mk_hook0_event();
    assert!(org_env.labels.is_empty());
    let et = event_type_created();
    let expected_id = et.application_id.to_hyphenated_string();
    let et_env = Hook0ClientEvent::from(et).mk_hook0_event();
    assert_eq!(et_env.labels.len(), 1);
    assert_eq!(et_env.labels[0].0, "application_id");
    assert_eq!(et_env.labels[0].1, expected_id);
}

#[test]
fn occurred_at_by_variant() {
    let org_env = Hook0ClientEvent::from(org_created()).mk_hook0_event();
    assert!(org_env.occurred_at.is_none());
    let et_env = Hook0ClientEvent::from(event_type_created()).mk_hook0_event();
    assert_eq!(et_env.occurred_at, Some(sample_time()));
}

#[test]
fn metadata_tags_platform_version() {
    for env in [
        Hook0ClientEvent::from(org_created()).mk_hook0_event(),
        Hook0ClientEvent::from(event_type_created()).mk_hook0_event(),
    ] {
        assert!(!env.metadata.is_empty());
        assert!(env
            .metadata
            .iter()
            .any(|(k, v)| k == "hook0_version" && v == "0.1.0"));
    }
}

#[test]
fn event_id_left_unset() {
    let org_env = Hook0ClientEvent::from(org_created()).mk_hook0_event();
    let et_env = Hook0ClientEvent::from(event_type_created()).mk_hook0_event();
    assert!(org_env.event_id.is_none());
    assert!(et_env.event_id.is_none());
    assert_eq!(org_env.payload_content_type, "application/json");
    assert_eq!(et_env.payload_content_type, "application/json");
}

#[test]
fn event_type_created_scenario() {
    let env = Hook0ClientEvent::from(event_type_created()).mk_hook0_event();
    assert_eq!(env.event_type, "api.event_type.created");
    assert_eq!(
        env.labels,
        vec![(
            "application_id".to_string(),
            "a1a2a3a4-b1b2-c1c2-d1d2-e1e2e3e4e5e6".to_string()
        )]
    );
    assert_eq!(env.occurred_at, Some(sample_time()));
    let expected = "{\"application_id\":\"a1a2a3a4-b1b2-c1c2-d1d2-e1e2e3e4e5e6\",\
                    \"service_name\":\"billing\",\
                    \"resource_type_name\":\"invoice\",\
                    \"verb_name\":\"created\",\
                    \"event_type_name\":\"invoice.created\",\
                    \"created_at\":\"2014-07-08T09:10:11Z\",\
                    \"created_by\":null}";
    assert_eq!(env.payload.as_slice(), expected.as_bytes());
}

#[test]
fn org_created_payload_parses_as_json() {
    let e = org_created();
    let env = Hook0ClientEvent::from(e).mk_hook0_event();
    let v: serde_json::Value = serde_json::from_slice(&env.payload).unwrap();
    assert_eq!(
        v.get("organization_id").unwrap().as_str().unwrap(),
        "00010203-0405-0607-0809-0a0b0c0d0e0f"
    );
    assert_eq!(v.get("name").unwrap().as_str().unwrap(), "Acme");
    assert_eq!(
        v.get("created_at").unwrap().as_str().unwrap(),
        "2014-07-08T09:10:11Z"
    );
    assert_eq!(
        v.get("created_by").unwrap().as_str().unwrap(),
        "ffeeddcc-bbaa-9988-7766-554433221100"
    );
}

#[test]
fn payload_escaping_round_trips_through_serde_json() {
    let mut e = org_created();
    e.name = "a \"quoted\" \\ back\nslash\ttab\u{1}ctl é漢".to_string();
    let expected_name = e.name.clone();
    let env = Hook0ClientEvent::from(e).mk_hook0_event();
    let v: serde_json::Value = serde_json::from_slice(&env.payload).unwrap();
    assert_eq!(v.get("name").unwrap().as_str().unwrap(), expected_name);
    let text = String::from_utf8(env.payload.clone()).unwrap();
    assert!(text.contains("\\\"quoted\\\""));
    assert!(text.contains("\\n"));
    assert!(text.contains("\\t"));
    assert!(text.contains("\\u0001"));
}

#[test]
fn payload_matches_serde_json_encoder() {
    let e = event_type_created();
    let mut obj = serde_json::Map::new();
    obj.insert(
        "application_id".to_string(),
        serde_json::Value::String(e.application_id.to_hyphenated_string()),
    );
    obj.insert(
        "service_name".to_string(),
        serde_json::Value::String(e.service_name.clone()),
    );
    obj.insert(
        "resource_type_name".to_string(),
        serde_json::Value::String(e.resource_type_name.clone()),
    );
    obj.insert(
        "verb_name".to_string(),
        serde_json::Value::String(e.verb_name.clone()),
    );
    obj.insert(
        "event_type_name".to_string(),
        serde_json::Value::String(e.event_type_name.clone()),
    );
    obj.insert(
        "created_at".to_string(),
        serde_json::Value::String(e.created_at.to_rfc3339_string()),
    );
    obj.insert("created_by".to_string(), serde_json::Value::Null);
    let reference = serde_json::Value::Object(obj);
    let env = Hook0ClientEvent::from(e).mk_hook0_event();
    let ours: serde_json::Value = serde_json::from_slice(&env.payload).unwrap();
    assert_eq!(ours, reference);
}

#[test]
fn created_by_present_is_quoted() {
    let mut e = event_type_created();
    e.created_by = Some(Uuid { value: 5 });
    let env = Hook0ClientEvent::from(e).mk_hook0_event();
    let v: serde_json::Value = serde_json::from_slice(&env.payload).unwrap();
    assert_eq!(
        v.get("created_by").unwrap().as_str().unwrap(),
        "00000000-0000-0000-0000-000000000005"
    );
}
