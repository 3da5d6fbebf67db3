//! Rules of the metrics routes: what counts as an unknown place, which
//! texts may be an address, and which statuses of a route are shown.

use crate::text::{
    chars_of, eq_ignoring_ascii_case, first_segment, first_segment_end,
    range_eq_ignoring_ascii_case, slice_of, strip_both, strip_bounds, text_of, text_of_range,
    trimmed, Strip,
};
use vstd::prelude::*;

verus! {

/// A field of a lookup without the whitespace and the quotes around it.
pub open spec fn geo_field_text(value: Seq<char>) -> Seq<char> {
    trimmed(strip_both(trimmed(value), Strip::Char('"')))
}

/// What a field of a lookup says: nothing where it is empty or `null` in
/// any case, once whitespace and quotes around it are taken off.
pub open spec fn geo_field(value: Seq<char>) -> Option<Seq<char>> {
    let text = geo_field_text(value);
    if text.len() == 0 || eq_ignoring_ascii_case(text, "null"@) {
        None
    } else {
        Some(text)
    }
}

/// Whether a country says nothing: it is empty, `unknown` or `null` in any
/// case, once the whitespace around it is taken off.
pub open spec fn country_unknown(value: Seq<char>) -> bool {
    let text = trimmed(value);
    text.len() == 0 || eq_ignoring_ascii_case(text, "unknown"@) || eq_ignoring_ascii_case(
        text,
        "null"@,
    )
}

/// What a field of a lookup says.
pub fn normalize_geo_field(value: String) -> (field: Option<String>)
    ensures
        match field {
            Some(text) => geo_field(value@) == Some(text@),
            None => geo_field(value@) is None,
        },
{
    let all = chars_of(value.as_str());
    let (from, to) = strip_bounds(&all, Strip::Whitespace);
    let outer = slice_of(&all, from, to);
    let (from, to) = strip_bounds(&outer, Strip::Char('"'));
    let unquoted = slice_of(&outer, from, to);
    let (from, to) = strip_bounds(&unquoted, Strip::Whitespace);
    if from == to || range_eq_ignoring_ascii_case(&unquoted, from, to, "null") {
        None
    } else {
        Some(text_of_range(&unquoted, from, to))
    }
}

/// Whether a country says nothing.
pub fn is_unknown_country(value: &str) -> (unknown: bool)
    ensures
        unknown == country_unknown(value@),
{
    let all = chars_of(value);
    let (from, to) = strip_bounds(&all, Strip::Whitespace);
    from == to || range_eq_ignoring_ascii_case(&all, from, to, "unknown")
        || range_eq_ignoring_ascii_case(&all, from, to, "null")
}

/// Whether the country of a playback report has to be looked up: it names
/// none, or one that says nothing.
pub fn needs_country(country: &Option<String>) -> (needed: bool)
    ensures
        needed == match *country {
            Some(c) => country_unknown(c@),
            None => true,
        },
{
    match country {
        Some(c) => is_unknown_country(c.as_str()),
        None => true,
    }
}

/// What a lookup of an address found.
#[derive(Debug)]
pub struct GeoLookupResult {
    pub country: Option<String>,
    pub region: Option<String>,
    pub city: Option<String>,
    pub latitude: Option<String>,
    pub longitude: Option<String>,
    pub timezone: Option<String>,
}

/// Whether `field` holds what the text `value` of a lookup says.
pub open spec fn holds_field(field: Option<String>, value: Seq<char>) -> bool {
    match field {
        Some(text) => geo_field(value) == Some(text@),
        None => geo_field(value) is None,
    }
}

impl GeoLookupResult {
    /// The result of a lookup, each field normalized on its own.
    pub fn from_fields(
        country: String,
        region: String,
        city: String,
        latitude: String,
        longitude: String,
        timezone: String,
    ) -> (geo: GeoLookupResult)
        ensures
            holds_field(geo.country, country@),
            holds_field(geo.region, region@),
            holds_field(geo.city, city@),
            holds_field(geo.latitude, latitude@),
            holds_field(geo.longitude, longitude@),
            holds_field(geo.timezone, timezone@),
    {
        GeoLookupResult {
            country: normalize_geo_field(country),
            region: normalize_geo_field(region),
            city: normalize_geo_field(city),
            latitude: normalize_geo_field(latitude),
            longitude: normalize_geo_field(longitude),
            timezone: normalize_geo_field(timezone),
        }
    }
}

/// The texts of a raw address that may denote one.
pub struct AddressCandidates {
    /// The raw text without surrounding whitespace: an address with a
    /// port, or a bare address.
    pub whole: String,
    /// What stands between a leading `[` and the first `]`.
    pub bracketed: Option<String>,
}

/// What stands between a leading `[` and the first `]` after it, or the
/// end of the text.
pub open spec fn bracketed_part(text: Seq<char>) -> Option<Seq<char>> {
    if text.len() > 0 && text[0] == '[' {
        Some(first_segment(text.drop_first(), ']'))
    } else {
        None
    }
}

/// The texts of `raw` that may denote an address: none where `raw` is
/// blank.
pub fn normalize_ip(raw: &str) -> (candidates: Option<AddressCandidates>)
    ensures
        match candidates {
            None => trimmed(raw@).len() == 0,
            Some(c) => {
                &&& trimmed(raw@).len() > 0
                &&& c.whole@ == trimmed(raw@)
                &&& match c.bracketed {
                    Some(inner) => bracketed_part(trimmed(raw@)) == Some(inner@),
                    None => bracketed_part(trimmed(raw@)) is None,
                }
            },
        },
{
    let all = chars_of(raw);
    let (from, to) = strip_bounds(&all, Strip::Whitespace);
    if from == to {
        return None;
    }
    let text = slice_of(&all, from, to);
    let bracketed = if text[0] == '[' {
        let rest = slice_of(&text, 1, text.len());
        assert(rest@ == text@.drop_first());
        let end = first_segment_end(&rest, ']');
        Some(text_of_range(&rest, 0, end))
    } else {
        None
    };
    Some(AddressCandidates { whole: text_of(&text), bracketed })
}

/// The first address of a list of forwarding proxies: what precedes the
/// first comma.
pub fn first_forwarded(forwarded_for: &str) -> (first: String)
    ensures
        first@ == first_segment(forwarded_for@, ','),
{
    let all = chars_of(forwarded_for);
    let end = first_segment_end(&all, ',');
    text_of_range(&all, 0, end)
}

/// How often one status was answered.
#[derive(Debug, Clone)]
pub struct ApiStatusBreakdown {
    pub status: String,
    pub sample_count: i64,
}

/// How often one route answered one status.
pub struct StatusRow {
    pub route: String,
    pub method: String,
    pub status: String,
    pub sample_count: i64,
}

/// A status and its count, as plain values.
pub type StatusCount = (Seq<char>, i64);

/// The statuses and counts of a list of breakdowns.
pub open spec fn counts_of(items: Seq<ApiStatusBreakdown>) -> Seq<StatusCount> {
    Seq::new(items.len(), |i: int| (items[i].status@, items[i].sample_count))
}

/// The statuses and counts of the rows of one route and method, in the
/// order of the rows.
pub open spec fn route_counts(rows: Seq<StatusRow>, route: Seq<char>, method: Seq<char>) -> Seq<
    StatusCount,
>
    decreases rows.len(),
{
    if rows.len() == 0 {
        Seq::empty()
    } else {
        let before = route_counts(rows.drop_last(), route, method);
        let row = rows.last();
        if row.route@ == route && row.method@ == method {
            before.push((row.status@, row.sample_count))
        } else {
            before
        }
    }
}

/// Where a count goes into a list ordered from the highest count down:
/// behind every count that is at least as high.
pub open spec fn insertion_point(sorted: Seq<StatusCount>, count: i64) -> int
    decreases sorted.len(),
{
    if sorted.len() == 0 || sorted[0].1 < count {
        0
    } else {
        1 + insertion_point(sorted.drop_first(), count)
    }
}

/// `items` ordered from the highest count down, equal counts in the order
/// in which they came.
pub open spec fn by_count_descending(items: Seq<StatusCount>) -> Seq<StatusCount>
    decreases items.len(),
{
    if items.len() == 0 {
        Seq::empty()
    } else {
        let sorted = by_count_descending(items.drop_last());
        sorted.insert(insertion_point(sorted, items.last().1), items.last())
    }
}

/// The first `n` of `items`, or all of them where there are fewer.
pub open spec fn at_most(items: Seq<StatusCount>, n: int) -> Seq<StatusCount> {
    if items.len() <= n {
        items
    } else {
        items.take(n)
    }
}

/// The three most frequent statuses of one route and method.
pub open spec fn top_counts(rows: Seq<StatusRow>, route: Seq<char>, method: Seq<char>) -> Seq<
    StatusCount,
> {
    at_most(by_count_descending(route_counts(rows, route, method)), 3)
}

/// The insertion point lies within the list, behind counts that are at
/// least as high and in front of a lower one.
pub proof fn lemma_insertion_point(sorted: Seq<StatusCount>, count: i64, p: int)
    requires
        0 <= p <= sorted.len(),
        forall|j: int| 0 <= j < p ==> sorted[j].1 >= count,
        p == sorted.len() || sorted[p].1 < count,
    ensures
        insertion_point(sorted, count) == p,
    decreases p,
{
    if p > 0 {
        let rest = sorted.drop_first();
        assert forall|j: int| 0 <= j < p - 1 implies rest[j].1 >= count by {
            assert(rest[j] == sorted[j + 1]);
        }
        lemma_insertion_point(rest, count, p - 1);
    }
}

/// Whether the counts of `items` never rise from one to the next.
pub open spec fn descending(items: Seq<StatusCount>) -> bool {
    forall|i: int, j: int| 0 <= i < j < items.len() ==> items[i].1 >= items[j].1
}

/// The insertion point is an index of the list or its length, with no
/// lower count in front of it and no higher or equal one at it.
pub proof fn lemma_insertion_point_bounds(sorted: Seq<StatusCount>, count: i64)
    ensures
        0 <= insertion_point(sorted, count) <= sorted.len(),
        forall|j: int| 0 <= j < insertion_point(sorted, count) ==> sorted[j].1 >= count,
        insertion_point(sorted, count) < sorted.len() ==> sorted[insertion_point(
            sorted,
            count,
        )].1 < count,
    decreases sorted.len(),
{
    if sorted.len() == 0 || sorted[0].1 < count {
    } else {
        let rest = sorted.drop_first();
        lemma_insertion_point_bounds(rest, count);
        let p = insertion_point(rest, count);
        assert forall|j: int| 0 <= j < p + 1 implies sorted[j].1 >= count by {
            if j > 0 {
                assert(sorted[j] == rest[j - 1]);
            }
        }
        if p + 1 < sorted.len() {
            assert(sorted[p + 1] == rest[p]);
        }
    }
}

/// Ordering by count keeps every item and leaves the counts descending.
pub proof fn lemma_by_count_descending(items: Seq<StatusCount>)
    ensures
        by_count_descending(items).len() == items.len(),
        descending(by_count_descending(items)),
        by_count_descending(items).to_multiset() == items.to_multiset(),
    decreases items.len(),
{
    broadcast use vstd::seq_lib::group_seq_properties;

    if items.len() > 0 {
        let shorter = items.drop_last();
        lemma_by_count_descending(shorter);
        let sorted = by_count_descending(shorter);
        let item = items.last();
        let p = insertion_point(sorted, item.1);
        lemma_insertion_point_bounds(sorted, item.1);
        let result = sorted.insert(p, item);
        assert forall|i: int, j: int| 0 <= i < j < result.len() implies result[i].1
            >= result[j].1 by {
            if j < p {
                assert(result[i] == sorted[i] && result[j] == sorted[j]);
            } else if j == p {
                assert(result[i] == sorted[i]);
            } else if i < p {
                assert(result[i] == sorted[i] && result[j] == sorted[j - 1]);
                if p < sorted.len() {
                    assert(sorted[i].1 >= item.1);
                }
            } else if i == p {
                assert(result[j] == sorted[j - 1]);
                assert(sorted[p].1 < item.1);
                if j - 1 > p {
                    assert(sorted[p].1 >= sorted[j - 1].1);
                }
            } else {
                assert(result[i] == sorted[i - 1] && result[j] == sorted[j - 1]);
            }
        }
        assert(items == shorter.push(item));
        vstd::seq_lib::to_multiset_insert(sorted, p, item);
        vstd::seq_lib::to_multiset_build(shorter, item);
    }
}

/// The three most frequent statuses of the route `route` and the method
/// `method` among `rows`, the most frequent first; statuses that are
/// equally frequent stand in the order of their rows.
pub fn top_statuses(rows: &Vec<StatusRow>, route: &str, method: &str) -> (top: Vec<
    ApiStatusBreakdown,
>)
    ensures
        counts_of(top@) == top_counts(rows@, route@, method@),
        top@.len() <= 3,
{
    let mut sorted: Vec<ApiStatusBreakdown> = Vec::new();
    let mut i: usize = 0;
    assert(rows@.take(0) == Seq::<StatusRow>::empty());
    assert(counts_of(sorted@) =~= Seq::<StatusCount>::empty());
    while i < rows.len()
        invariant
            i <= rows.len(),
            counts_of(sorted@) == by_count_descending(
                route_counts(rows@.take(i as int), route@, method@),
            ),
        decreases rows.len() - i,
    {
        let row = &rows[i];
        let ghost before = route_counts(rows@.take(i as int), route@, method@);
        proof {
            let upto = rows@.take(i + 1);
            assert(upto.drop_last() == rows@.take(i as int));
            assert(upto.last() == *row);
        }
        if crate::text::text_eq(row.route.as_str(), route) && crate::text::text_eq(
            row.method.as_str(),
            method,
        ) {
            let mut p: usize = 0;
            while p < sorted.len() && sorted[p].sample_count >= row.sample_count
                invariant
                    p <= sorted.len(),
                    forall|j: int| 0 <= j < p ==> sorted@[j].sample_count >= row.sample_count,
                decreases sorted.len() - p,
            {
                p += 1;
            }
            proof {
                let counts = counts_of(sorted@);
                assert forall|j: int| 0 <= j < p implies counts[j].1 >= row.sample_count by {
                    assert(counts[j].1 == sorted@[j].sample_count);
                }
                lemma_insertion_point(counts, row.sample_count, p as int);
                assert(before.push((row.status@, row.sample_count)).drop_last() == before);
            }
            let ghost old_counts = counts_of(sorted@);
            sorted.insert(
                p,
                ApiStatusBreakdown { status: row.status.clone(), sample_count: row.sample_count },
            );
            assert(counts_of(sorted@) =~= old_counts.insert(
                p as int,
                (row.status@, row.sample_count),
            ));
        }
        i += 1;
    }
    assert(rows@.take(rows.len() as int) == rows@);
    let ghost all = counts_of(sorted@);
    if sorted.len() > 3 {
        sorted.truncate(3);
        assert(counts_of(sorted@) =~= all.take(3));
    }
    sorted
}

/// Where the service runs, as far as it is known.
#[derive(Debug, Clone)]
pub struct RunnerEnvironment {
    pub hostname: String,
    pub region: Option<String>,
    pub service_name: Option<String>,
    pub cpu_brand: Option<String>,
    pub total_memory_bytes: Option<u64>,
    /// When the machine was started, in seconds since the epoch.
    pub boot_time: Option<u64>,
}

/// A text, unless there is none or it is empty.
pub open spec fn non_empty(text: Option<String>) -> Option<String> {
    match text {
        Some(t) => if t@.len() > 0 {
            Some(t)
        } else {
            None
        },
        None => None,
    }
}

/// The first of two values that is there.
pub open spec fn first_of(a: Option<String>, b: Option<String>) -> Option<String> {
    match a {
        Some(_) => a,
        None => b,
    }
}

impl RunnerEnvironment {
    /// The environment from what was found: the host is `unknown-host`
    /// unless it is named, the region is the first of two that is given,
    /// the brand of the processor counts only where it is not empty, and
    /// the memory, which is found in units of 1024 bytes, is kept in bytes.
    pub fn new(
        hostname: Option<String>,
        region: Option<String>,
        fallback_region: Option<String>,
        service_name: Option<String>,
        cpu_brand: Option<String>,
        total_memory: u64,
        boot_seconds: u64,
    ) -> (env: RunnerEnvironment)
        requires
            total_memory * 1024 <= u64::MAX,
        ensures
            match hostname {
                Some(name) => env.hostname == name,
                None => env.hostname@ == "unknown-host"@,
            },
            env.region == first_of(region, fallback_region),
            env.service_name == service_name,
            env.cpu_brand == non_empty(cpu_brand),
            env.total_memory_bytes == Some((total_memory * 1024) as u64),
            env.boot_time == Some(boot_seconds),
    {
        RunnerEnvironment {
            hostname: match hostname {
                Some(name) => name,
                None => "unknown-host".to_owned(),
            },
            region: match region {
                Some(r) => Some(r),
                None => fallback_region,
            },
            service_name,
            cpu_brand: match cpu_brand {
                Some(brand) => if brand.as_str().unicode_len() > 0 {
                    Some(brand)
                } else {
                    None
                },
                None => None,
            },
            total_memory_bytes: Some(total_memory * 1024),
            boot_time: Some(boot_seconds),
        }
    }

    /// The processor model of a benchmark run: the one that its notes
    /// state, else the brand of this machine.
    pub fn cpu_model(&self, stated: Option<String>) -> (model: Option<String>)
        ensures
            model == first_of(stated, self.cpu_brand),
    {
        match stated {
            Some(model) => Some(model),
            None => crate::intake::clone_text(&self.cpu_brand),
        }
    }
}

} // verus!
