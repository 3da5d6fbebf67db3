use serde_json::Value;
use video_stream_be::ids::RecordId;
use video_stream_be::metrics::{GeoLookupResult, RunnerEnvironment};
use video_stream_be::notes::{
    merge_notes, metadata_notes, number_or_null_value, playback_notes, put_if_absent, put_text,
    put_text_if_absent, text_or_null_value, Metadata, PlaybackFacts,
};

fn object(members: &[(&str, Value)]) -> serde_json::Map<String, Value> {
    let mut map = serde_json::Map::new();
    for (name, value) in members {
        map.insert(name.to_string(), value.clone());
    }
    map
}

fn text(s: &str) -> Value {
    Value::from(s)
}

fn no_facts() -> PlaybackFacts {
    PlaybackFacts {
        video_id: None,
        bandwidth_mbps: None,
        country: None,
        isp: None,
        device_type: None,
        client_ip: None,
        geo_lookup: None,
    }
}

fn empty_geo() -> GeoLookupResult {
    GeoLookupResult { country: None, region: None, city: None, latitude: None, longitude: None, timezone: None }
}

#[test]
fn members_are_put_or_kept() {
    let mut notes = serde_json::Map::new();
    put_if_absent(&mut notes, "a", Value::from(1u64));
    put_if_absent(&mut notes, "a", Value::from(2u64));
    put_text(&mut notes, "b", &Some("x \"quoted\"".to_string()));
    put_text(&mut notes, "b", &None);
    put_text(&mut notes, "b", &Some("y".to_string()));
    put_text_if_absent(&mut notes, "b", &Some("z".to_string()));
    put_text_if_absent(&mut notes, "c", &None);
    put_text_if_absent(&mut notes, "d", &Some("w".to_string()));
    assert_eq!(notes, object(&[("a", Value::from(1u64)), ("b", text("y")), ("d", text("w"))]));
}

#[test]
fn optional_values_are_written_or_null() {
    assert_eq!(text_or_null_value(&Some("a\nb".to_string())).to_string(), "\"a\\nb\"");
    assert_eq!(text_or_null_value(&None).to_string(), "null");
    assert_eq!(number_or_null_value(Some(0)).to_string(), "0");
    assert_eq!(number_or_null_value(Some(u64::MAX)).to_string(), "18446744073709551615");
    assert_eq!(number_or_null_value(None).to_string(), "null");
}

#[test]
fn lookup_is_an_object_of_what_was_found() {
    let geo = GeoLookupResult {
        country: Some("DE".to_string()),
        city: Some("Berlin".to_string()),
        timezone: Some("Europe/Berlin".to_string()),
        ..empty_geo()
    };
    assert_eq!(
        geo.to_object(),
        object(&[("country", text("DE")), ("city", text("Berlin")), ("timezone", text("Europe/Berlin"))])
    );
    assert!(empty_geo().to_object().is_empty());
}

#[test]
fn report_without_anything_has_no_notes() {
    assert!(playback_notes(Metadata::Absent, no_facts()).is_none());
    assert!(playback_notes(Metadata::Fields(serde_json::Map::new()), no_facts()).is_none());
    let facts = PlaybackFacts { geo_lookup: Some(empty_geo().to_object()), ..no_facts() };
    assert!(playback_notes(Metadata::Absent, facts).is_none());
}

#[test]
fn metadata_that_is_no_object_is_noted_as_payload() {
    let list = Value::from(vec![1u64, 2]);
    let notes = playback_notes(Metadata::Other(list.clone()), no_facts()).unwrap();
    assert_eq!(notes, object(&[("payload", list.clone())]));
    assert_eq!(metadata_notes(Metadata::Other(Value::Null)), object(&[("payload", Value::Null)]));
    let given = object(&[("a", Value::from(1u64)), ("b", text("x"))]);
    assert_eq!(metadata_notes(Metadata::Fields(given.clone())), given);
    assert!(metadata_notes(Metadata::Absent).is_empty());
}

#[test]
fn facts_yield_to_metadata_except_bandwidth_and_lookup() {
    let metadata = object(&[
        ("video_id", text("from-metadata")),
        ("bandwidth_mbps", Value::from(1u64)),
        ("country", text("AT")),
        ("geo_lookup", text("old")),
        ("custom", Value::from(true)),
    ]);
    let geo = GeoLookupResult { city: Some("Berlin".to_string()), ..empty_geo() };
    let facts = PlaybackFacts {
        video_id: Some(RecordId::new(7)),
        bandwidth_mbps: Some(Value::from(12.5)),
        country: Some("DE".to_string()),
        isp: Some("ISP".to_string()),
        device_type: Some("tv".to_string()),
        client_ip: Some("203.0.113.7".to_string()),
        geo_lookup: Some(geo.to_object()),
    };
    let notes = playback_notes(Metadata::Fields(metadata), facts).unwrap();
    let expected = object(&[
        ("video_id", text("from-metadata")),
        ("bandwidth_mbps", Value::from(12.5)),
        ("country", text("AT")),
        ("geo_lookup", Value::Object(object(&[("city", text("Berlin"))]))),
        ("custom", Value::from(true)),
        ("isp", text("ISP")),
        ("device_type", text("tv")),
        ("client_ip", text("203.0.113.7")),
    ]);
    assert_eq!(notes, expected);
}

#[test]
fn facts_are_noted_where_metadata_are_silent() {
    let facts = PlaybackFacts {
        video_id: Some(RecordId::new(7)),
        country: Some("DE".to_string()),
        ..no_facts()
    };
    let notes = playback_notes(Metadata::Absent, facts).unwrap();
    assert_eq!(
        notes,
        object(&[("video_id", text("00000000-0000-0000-0000-000000000007")), ("country", text("DE"))])
    );
    let facts = PlaybackFacts { geo_lookup: Some(serde_json::Map::new()), ..no_facts() };
    let given = object(&[("geo_lookup", Value::from(1u64))]);
    assert_eq!(playback_notes(Metadata::Fields(given.clone()), facts), Some(given));
}

#[test]
fn environment_is_noted_under_seven_names() {
    let env = RunnerEnvironment::new(Some("h".to_string()), None, None, Some("api".to_string()), None, 2, 99);
    let expected = object(&[
        ("hostname", text("h")),
        ("region", Value::Null),
        ("service_name", text("api")),
        ("cpu_brand", Value::Null),
        ("total_memory_bytes", Value::from(2048u64)),
        ("boot_time", Value::from(99u64)),
        ("rust_version", text("1.2.3")),
    ]);
    assert_eq!(env.base_environment("1.2.3"), expected);
}

#[test]
fn context_counts_over_the_environment() {
    let env = RunnerEnvironment::new(Some("h".to_string()), None, None, None, None, 0, 0);
    let base = env.base_environment("1.0.0");
    let context = object(&[("port", Value::from(8080u64)), ("hostname", text("other"))]);
    let notes = env.ensure_context("1.0.0", Metadata::Fields(context));
    assert_eq!(notes.len(), 8);
    assert_eq!(notes.get("port"), Some(&Value::from(8080u64)));
    assert_eq!(notes.get("hostname"), Some(&text("other")));
    assert_eq!(notes.get("rust_version"), Some(&text("1.0.0")));
    for (name, value) in base.iter() {
        if name != "hostname" {
            assert_eq!(notes.get(name), Some(value));
        }
    }
    let notes = env.ensure_context("1.0.0", Metadata::Other(Value::from(5u64)));
    assert_eq!(notes.get("payload"), Some(&Value::from(5u64)));
    assert_eq!(notes.len(), 8);
    assert_eq!(env.ensure_context("1.0.0", Metadata::Absent), base);
    let notes =
        env.create_benchmark_run("1.0.0", Metadata::Fields(object(&[("cpu_model", text("x"))])));
    assert_eq!(notes.get("cpu_model"), Some(&text("x")));
    assert_eq!(notes.len(), 8);
}

#[test]
fn merging_prefers_what_is_added() {
    let base = object(&[("a", Value::from(1u64)), ("keep", text("k"))]);
    let extra = object(&[("a", Value::from(2u64)), ("b", Value::from(3u64)), ("c", Value::Null)]);
    let merged = merge_notes(base.clone(), Metadata::Fields(extra));
    assert_eq!(
        merged,
        object(&[("a", Value::from(2u64)), ("keep", text("k")), ("b", Value::from(3u64)), ("c", Value::Null)])
    );
    assert_eq!(merge_notes(base.clone(), Metadata::Fields(serde_json::Map::new())), base);
    assert_eq!(merge_notes(base.clone(), Metadata::Absent), base);
}
