//! The notes of a benchmark run: a JSON object that is put together from
//! what a report brings along, what is known of it and where the service
//! runs.

use crate::ids::RecordId;
use crate::json::{
    has_member, has_no_members, json_members, json_text, new_object, no_members, null_value,
    object_json, object_value, set_member, take_members, text_json, text_value, unsigned_value,
    JsonObject, JsonValue, Members,
};
use crate::metrics::{GeoLookupResult, RunnerEnvironment};
use crate::text::decimal;
use vstd::prelude::*;

verus! {

/// What a report brings along as metadata.
pub enum Metadata {
    /// Nothing.
    Absent,
    /// An object.
    Fields(JsonObject),
    /// Any other value.
    Other(JsonValue),
}

/// What the metadata of a report note: the members of an object as they
/// are, any other value under `payload`.
pub open spec fn metadata_members(metadata: Metadata) -> Members {
    match metadata {
        Metadata::Absent => no_members(),
        Metadata::Fields(object) => json_members(object),
        Metadata::Other(value) => no_members().insert("payload"@, json_text(value)),
    }
}

/// `members` with `text` under `name`, where there is a text.
pub open spec fn noted(members: Members, name: Seq<char>, text: Option<Seq<char>>) -> Members {
    match text {
        Some(t) => members.insert(name, t),
        None => members,
    }
}

/// `members` with `text` under `name`, where there is a text and nothing
/// stands under the name yet.
pub open spec fn noted_if_absent(members: Members, name: Seq<char>, text: Option<Seq<char>>)
    -> Members {
    if members.contains_key(name) {
        members
    } else {
        noted(members, name, text)
    }
}

/// The JSON text of an optional text, where there is one.
pub open spec fn optional_text(text: Option<String>) -> Option<Seq<char>> {
    match text {
        Some(t) => Some(text_json(t@)),
        None => None,
    }
}

/// The JSON text of an optional text: `null` where there is none.
pub open spec fn text_or_null(text: Option<String>) -> Seq<char> {
    match text {
        Some(t) => text_json(t@),
        None => "null"@,
    }
}

/// The JSON text of an optional number: `null` where there is none.
pub open spec fn number_or_null(number: Option<u64>) -> Seq<char> {
    match number {
        Some(n) => decimal(n as int),
        None => "null"@,
    }
}

/// Notes `value` under `name` unless something is noted under it already.
pub fn put_if_absent(notes: &mut JsonObject, name: &str, value: JsonValue)
    ensures
        json_members(*final(notes)) == noted_if_absent(
            json_members(*old(notes)),
            name@,
            Some(json_text(value)),
        ),
{
    if !has_member(notes, name) {
        set_member(notes, name, value);
    }
}

/// Notes a text under `name`, where there is one.
pub fn put_text(notes: &mut JsonObject, name: &str, text: &Option<String>)
    ensures
        json_members(*final(notes)) == noted(json_members(*old(notes)), name@, optional_text(*text)),
{
    match text {
        Some(t) => {
            set_member(notes, name, text_value(t.as_str()));
        },
        None => {},
    }
}

/// Notes a text under `name`, where there is one and nothing is noted
/// under the name yet.
pub fn put_text_if_absent(notes: &mut JsonObject, name: &str, text: &Option<String>)
    ensures
        json_members(*final(notes)) == noted_if_absent(
            json_members(*old(notes)),
            name@,
            optional_text(*text),
        ),
{
    match text {
        Some(t) => {
            put_if_absent(notes, name, text_value(t.as_str()));
        },
        None => {},
    }
}

/// What a lookup found, each field that says something under its name.
pub open spec fn geo_members(geo: GeoLookupResult) -> Members {
    let country = noted(no_members(), "country"@, optional_text(geo.country));
    let region = noted(country, "region"@, optional_text(geo.region));
    let city = noted(region, "city"@, optional_text(geo.city));
    let latitude = noted(city, "latitude"@, optional_text(geo.latitude));
    let longitude = noted(latitude, "longitude"@, optional_text(geo.longitude));
    noted(longitude, "timezone"@, optional_text(geo.timezone))
}

impl GeoLookupResult {
    /// The object of what the lookup found.
    pub fn to_object(&self) -> (object: JsonObject)
        ensures
            json_members(object) == geo_members(*self),
    {
        let mut object = new_object();
        put_text(&mut object, "country", &self.country);
        put_text(&mut object, "region", &self.region);
        put_text(&mut object, "city", &self.city);
        put_text(&mut object, "latitude", &self.latitude);
        put_text(&mut object, "longitude", &self.longitude);
        put_text(&mut object, "timezone", &self.timezone);
        object
    }
}

/// What a playback report states besides its metadata.
pub struct PlaybackFacts {
    pub video_id: Option<RecordId>,
    /// The bandwidth, as the number it came as.
    pub bandwidth_mbps: Option<JsonValue>,
    pub country: Option<String>,
    pub isp: Option<String>,
    pub device_type: Option<String>,
    pub client_ip: Option<String>,
    /// The object of what was looked up for the address of the client.
    pub geo_lookup: Option<JsonObject>,
}

/// The JSON text of the id of a video, where there is one.
pub open spec fn id_text(id: Option<RecordId>) -> Option<Seq<char>> {
    match id {
        Some(i) => Some(text_json(i.text())),
        None => None,
    }
}

/// The JSON text of a value, where there is one.
pub open spec fn value_text(value: Option<JsonValue>) -> Option<Seq<char>> {
    match value {
        Some(v) => Some(json_text(v)),
        None => None,
    }
}

/// The JSON text of a lookup that found something.
pub open spec fn lookup_text(geo_lookup: Option<JsonObject>) -> Option<Seq<char>> {
    match geo_lookup {
        Some(object) => if json_members(object) == no_members() {
            None
        } else {
            Some(object_json(object))
        },
        None => None,
    }
}

/// The members of the notes of a playback report. The metadata come
/// first. The id of the video, the country, the provider, the kind of
/// device and the address of the client are noted where the metadata note
/// nothing under these names; the bandwidth and a lookup that found
/// something are noted in any case.
pub open spec fn playback_members(metadata: Metadata, facts: PlaybackFacts) -> Members {
    let given = metadata_members(metadata);
    let video = noted_if_absent(given, "video_id"@, id_text(facts.video_id));
    let bandwidth = noted(video, "bandwidth_mbps"@, value_text(facts.bandwidth_mbps));
    let country = noted_if_absent(bandwidth, "country"@, optional_text(facts.country));
    let isp = noted_if_absent(country, "isp"@, optional_text(facts.isp));
    let device = noted_if_absent(isp, "device_type"@, optional_text(facts.device_type));
    let client = noted_if_absent(device, "client_ip"@, optional_text(facts.client_ip));
    noted(client, "geo_lookup"@, lookup_text(facts.geo_lookup))
}

/// The object that the metadata of a report start the notes with.
pub fn metadata_notes(metadata: Metadata) -> (notes: JsonObject)
    ensures
        json_members(notes) == metadata_members(metadata),
{
    match metadata {
        Metadata::Absent => new_object(),
        Metadata::Fields(object) => object,
        Metadata::Other(value) => {
            let mut notes = new_object();
            set_member(&mut notes, "payload", value);
            notes
        },
    }
}

/// The notes of the benchmark run of a playback report, or none where
/// nothing at all is noted.
pub fn playback_notes(metadata: Metadata, facts: PlaybackFacts) -> (r: Option<JsonObject>)
    ensures
        match r {
            Some(notes) => json_members(notes) == playback_members(metadata, facts)
                && json_members(notes) != no_members(),
            None => playback_members(metadata, facts) == no_members(),
        },
{
    let mut notes = metadata_notes(metadata);
    match facts.video_id {
        Some(id) => {
            let text = id.to_string();
            put_if_absent(&mut notes, "video_id", text_value(text.as_str()));
        },
        None => {},
    }
    match facts.bandwidth_mbps {
        Some(value) => {
            set_member(&mut notes, "bandwidth_mbps", value);
        },
        None => {},
    }
    put_text_if_absent(&mut notes, "country", &facts.country);
    put_text_if_absent(&mut notes, "isp", &facts.isp);
    put_text_if_absent(&mut notes, "device_type", &facts.device_type);
    put_text_if_absent(&mut notes, "client_ip", &facts.client_ip);
    match facts.geo_lookup {
        Some(object) => {
            if !has_no_members(&object) {
                set_member(&mut notes, "geo_lookup", object_value(object));
            }
        },
        None => {},
    }
    if has_no_members(&notes) {
        None
    } else {
        Some(notes)
    }
}

/// Where the service runs and in which version, each under its name,
/// absent values noted as `null`.
pub open spec fn environment_members(env: RunnerEnvironment, version: Seq<char>) -> Members {
    no_members().insert("hostname"@, text_json(env.hostname@)).insert(
        "region"@,
        text_or_null(env.region),
    ).insert("service_name"@, text_or_null(env.service_name)).insert(
        "cpu_brand"@,
        text_or_null(env.cpu_brand),
    ).insert("total_memory_bytes"@, number_or_null(env.total_memory_bytes)).insert(
        "boot_time"@,
        number_or_null(env.boot_time),
    ).insert("rust_version"@, text_json(version))
}

/// `base` with what `extra` notes added: under a name that both note,
/// `extra` counts.
pub open spec fn merged_members(base: Members, extra: Metadata) -> Members {
    match extra {
        Metadata::Absent => base,
        Metadata::Fields(object) => base.union_prefer_right(json_members(object)),
        Metadata::Other(value) => base.insert("payload"@, json_text(value)),
    }
}

/// The value for an optional text.
pub fn text_or_null_value(text: &Option<String>) -> (value: JsonValue)
    ensures
        json_text(value) == text_or_null(*text),
{
    match text {
        Some(t) => text_value(t.as_str()),
        None => null_value(),
    }
}

/// The value for an optional number.
pub fn number_or_null_value(number: Option<u64>) -> (value: JsonValue)
    ensures
        json_text(value) == number_or_null(number),
{
    match number {
        Some(n) => unsigned_value(n),
        None => null_value(),
    }
}

/// Whether one of `members[from..]` bears the name `name`.
pub open spec fn named_from(members: Seq<(String, JsonValue)>, from: int, name: Seq<char>) -> bool {
    exists|j: int| from <= j < members.len() && (#[trigger] members[j]).0@ == name
}

/// Adds to `base` what `extra` notes: under a name that both note, `extra`
/// counts.
pub fn merge_notes(base: JsonObject, extra: Metadata) -> (notes: JsonObject)
    ensures
        json_members(notes) == merged_members(json_members(base), extra),
{
    let mut notes = base;
    match extra {
        Metadata::Absent => {},
        Metadata::Other(value) => {
            set_member(&mut notes, "payload", value);
        },
        Metadata::Fields(object) => {
            let ghost given = json_members(object);
            let ghost before = json_members(base);
            let mut members = take_members(object);
            let ghost all = members@;
            while members.len() > 0
                invariant
                    members@.len() <= all.len(),
                    members@ == all.take(members@.len() as int),
                    forall|i: int|
                        0 <= i < all.len() ==> given.contains_key((#[trigger] all[i]).0@)
                            && given[all[i].0@] == json_text(all[i].1),
                    forall|k: Seq<char>|
                        json_members(notes).contains_key(k) <==> before.contains_key(k)
                            || named_from(all, members@.len() as int, k),
                    forall|k: Seq<char>|
                        named_from(all, members@.len() as int, k) ==> json_members(notes)[k]
                            == given[k],
                    forall|k: Seq<char>|
                        before.contains_key(k) && !named_from(all, members@.len() as int, k)
                            ==> json_members(notes)[k] == before[k],
                decreases members.len(),
            {
                let ghost n = members@.len() as int;
                let ghost old_notes = json_members(notes);
                let last = members.pop();
                match last {
                    Some((name, value)) => {
                        assert(all[n - 1] == (name, value));
                        set_member(&mut notes, name.as_str(), value);
                        proof {
                            assert forall|k: Seq<char>| named_from(all, n - 1, k) <==> named_from(
                                all,
                                n,
                                k,
                            ) || k == name@ by {
                                if named_from(all, n - 1, k) {
                                    let j = choose|j: int|
                                        n - 1 <= j < all.len() && (#[trigger] all[j]).0@ == k;
                                    if j >= n {
                                        assert(named_from(all, n, k));
                                    }
                                }
                                if named_from(all, n, k) {
                                    let j = choose|j: int|
                                        n <= j < all.len() && (#[trigger] all[j]).0@ == k;
                                    assert(n - 1 <= j < all.len() && all[j].0@ == k);
                                }
                                if k == name@ {
                                    assert(all[n - 1].0@ == k);
                                }
                            }
                        }
                    },
                    None => {},
                }
            }
            proof {
                assert forall|k: Seq<char>| named_from(all, 0, k) <==> given.contains_key(k) by {
                    if named_from(all, 0, k) {
                        let j = choose|j: int| 0 <= j < all.len() && (#[trigger] all[j]).0@ == k;
                        assert(given.contains_key(all[j].0@));
                    }
                    if given.contains_key(k) {
                        let j = choose|j: int| 0 <= j < all.len() && (#[trigger] all[j]).0@ == k;
                        assert(0 <= j < all.len() && all[j].0@ == k);
                    }
                }
                assert(json_members(notes) =~= before.union_prefer_right(given));
            }
        },
    }
    notes
}

impl RunnerEnvironment {
    /// The notes that every benchmark run starts from: where the service
    /// runs and in which version.
    pub fn base_environment(&self, version: &str) -> (notes: JsonObject)
        ensures
            json_members(notes) == environment_members(*self, version@),
    {
        let mut notes = new_object();
        set_member(&mut notes, "hostname", text_value(self.hostname.as_str()));
        set_member(&mut notes, "region", text_or_null_value(&self.region));
        set_member(&mut notes, "service_name", text_or_null_value(&self.service_name));
        set_member(&mut notes, "cpu_brand", text_or_null_value(&self.cpu_brand));
        set_member(&mut notes, "total_memory_bytes", number_or_null_value(self.total_memory_bytes));
        set_member(&mut notes, "boot_time", number_or_null_value(self.boot_time));
        set_member(&mut notes, "rust_version", text_value(version));
        notes
    }

    /// The context of a startup report: the environment, and over it what
    /// the report brings along.
    pub fn ensure_context(&self, version: &str, context: Metadata) -> (notes: JsonObject)
        ensures
            json_members(notes) == merged_members(environment_members(*self, version@), context),
    {
        merge_notes(self.base_environment(version), context)
    }

    /// The notes of a benchmark run: the environment, and over it the
    /// notes that the run was started with.
    pub fn create_benchmark_run(&self, version: &str, notes: Metadata) -> (merged: JsonObject)
        ensures
            json_members(merged) == merged_members(environment_members(*self, version@), notes),
    {
        merge_notes(self.base_environment(version), notes)
    }
}

} // verus!
