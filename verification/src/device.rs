use vstd::prelude::*;

use crate::sorted::{increasing_u16, increasing_u32, insert_sorted_u16, insert_sorted_u32};
use crate::text::{contains_seq, lowercase, text_contains, to_lower};

verus! {

/// How a device is connected.
#[derive(Debug, Clone, Copy, PartialEq, Eq, Structural)]
pub enum DeviceType {
    /// Wired (USB, 3.5 mm, built-in sound card, ...).
    Wired,
    /// Bluetooth.
    Bluetooth,
    /// Network audio (AirPlay, DLNA, Chromecast, ...).
    Network,
    /// Not recognised.
    Unknown,
}

/// What is known of an audio device.
#[derive(Debug, Clone)]
pub struct DeviceInfo {
    /// Display name.
    pub name: String,
    /// Supported sample rates in Hz, ascending and without repeats.
    pub sample_rates: Vec<u32>,
    /// Supported channel counts, ascending and without repeats.
    pub channels: Vec<u16>,
    /// Supported sample formats ("f32", "i16", ...), without repeats.
    pub formats: Vec<String>,
    /// How the device is connected.
    pub device_type: DeviceType,
}

/// The plain content of a `DeviceInfo`.
pub struct DeviceInfoView {
    /// Display name.
    pub name: Seq<char>,
    /// Supported sample rates.
    pub sample_rates: Seq<u32>,
    /// Supported channel counts.
    pub channels: Seq<u16>,
    /// Supported formats.
    pub formats: Seq<Seq<char>>,
    /// Connection type.
    pub device_type: DeviceType,
}

impl View for DeviceInfo {
    type V = DeviceInfoView;

    open spec fn view(&self) -> DeviceInfoView {
        DeviceInfoView {
            name: self.name@,
            sample_rates: self.sample_rates@,
            channels: self.channels@,
            formats: string_views(self.formats@),
            device_type: self.device_type,
        }
    }
}

impl DeviceInfo {
    /// A copy of the description.
    pub fn duplicate(&self) -> (r: DeviceInfo)
        ensures
            r@ == self@,
    {
        let formats = copy_strings(&self.formats);
        let sample_rates = copy_u32s(&self.sample_rates);
        let channels = copy_u16s(&self.channels);
        DeviceInfo { name: self.name.clone(), sample_rates, channels, formats, device_type: self.device_type }
    }
}

/// A copy of a list of strings.
fn copy_strings(v: &Vec<String>) -> (r: Vec<String>)
    ensures
        string_views(r@) == string_views(v@),
        r@.len() == v@.len(),
{
    let mut r: Vec<String> = Vec::new();
    let mut i: usize = 0;
    while i < v.len()
        invariant
            i <= v@.len(),
            r@.len() == i,
            forall|k: int| 0 <= k < i ==> #[trigger] r@[k]@ == v@[k]@,
        decreases v@.len() - i,
    {
        r.push(v[i].clone());
        i = i + 1;
    }
    assert(string_views(r@) =~= string_views(v@));
    r
}

/// A copy of a list of numbers.
fn copy_u32s(v: &Vec<u32>) -> (r: Vec<u32>)
    ensures
        r@ == v@,
{
    let mut r: Vec<u32> = Vec::new();
    let mut i: usize = 0;
    while i < v.len()
        invariant
            i <= v@.len(),
            r@ == v@.subrange(0, i as int),
        decreases v@.len() - i,
    {
        r.push(v[i]);
        i = i + 1;
        assert(r@ =~= v@.subrange(0, i as int));
    }
    assert(r@ =~= v@);
    r
}

/// A copy of a list of numbers.
fn copy_u16s(v: &Vec<u16>) -> (r: Vec<u16>)
    ensures
        r@ == v@,
{
    let mut r: Vec<u16> = Vec::new();
    let mut i: usize = 0;
    while i < v.len()
        invariant
            i <= v@.len(),
            r@ == v@.subrange(0, i as int),
        decreases v@.len() - i,
    {
        r.push(v[i]);
        i = i + 1;
        assert(r@ =~= v@.subrange(0, i as int));
    }
    assert(r@ =~= v@);
    r
}

/// One supported stream configuration range of a device, as the audio
/// backend reports it.
#[derive(Debug, Clone)]
pub struct ConfigRange {
    /// Lowest sample rate of the range, in Hz.
    pub min_sample_rate: u32,
    /// Highest sample rate of the range, in Hz.
    pub max_sample_rate: u32,
    /// Channel count of the range.
    pub channels: u16,
    /// Sample format of the range, as text.
    pub format: String,
}

/// The device type that a name indicates: Bluetooth keywords first, then
/// network keywords, otherwise wired. Matching ignores case.
pub open spec fn device_type_of(name: Seq<char>) -> DeviceType {
    let lower = lowercase(name);
    if contains_seq(lower, "bluetooth"@) || contains_seq(lower, "蓝牙"@) {
        DeviceType::Bluetooth
    } else if contains_seq(lower, "network"@) || contains_seq(lower, "airplay"@) || contains_seq(
        lower,
        "dlna"@,
    ) || contains_seq(lower, "chromecast"@) || contains_seq(lower, "网络"@) {
        DeviceType::Network
    } else {
        DeviceType::Wired
    }
}

/// Detects a device's connection type from its name by keywords:
/// "bluetooth"/"蓝牙" give Bluetooth; "network", "airplay", "dlna",
/// "chromecast" or "网络" give Network; anything else is Wired.
pub fn detect_device_type(name: &str) -> (t: DeviceType)
    ensures
        t == device_type_of(name@),
{
    let lower = to_lower(name);
    let l = lower.as_str();
    if text_contains(l, "bluetooth") || text_contains(l, "蓝牙") {
        return DeviceType::Bluetooth;
    }
    if text_contains(l, "network") || text_contains(l, "airplay") || text_contains(l, "dlna")
        || text_contains(l, "chromecast") || text_contains(l, "网络") {
        return DeviceType::Network;
    }
    DeviceType::Wired
}

/// The ranges that describe a device: its input ranges, or its output
/// ranges where it reports no input range.
pub open spec fn effective_ranges(inputs: Seq<ConfigRange>, outputs: Seq<ConfigRange>) -> Seq<ConfigRange> {
    if inputs.len() > 0 { inputs } else { outputs }
}

/// `r` is one of the end points of some range.
pub open spec fn is_reported_rate(ranges: Seq<ConfigRange>, r: u32) -> bool {
    exists|k: int| 0 <= k < ranges.len() && #[trigger] range_has_rate(ranges[k], r)
}

/// `r` is one of the end points of the range.
pub open spec fn range_has_rate(c: ConfigRange, r: u32) -> bool {
    c.min_sample_rate == r || c.max_sample_rate == r
}

/// `c` is the channel count of some range.
pub open spec fn is_reported_channels(ranges: Seq<ConfigRange>, c: u16) -> bool {
    exists|k: int| 0 <= k < ranges.len() && #[trigger] range_has_channels(ranges[k], c)
}

/// `c` is the channel count of the range.
pub open spec fn range_has_channels(r: ConfigRange, c: u16) -> bool {
    r.channels == c
}

proof fn lemma_reported_push(pre: Seq<ConfigRange>, c: ConfigRange)
    ensures
        forall|r: u32| is_reported_rate(pre.push(c), r) <==> (is_reported_rate(pre, r) || r == c.min_sample_rate || r == c.max_sample_rate),
        forall|h: u16| is_reported_channels(pre.push(c), h) <==> (is_reported_channels(pre, h) || h == c.channels),
{
    let post = pre.push(c);
    assert forall|k: int| 0 <= k < pre.len() implies #[trigger] post[k] == pre[k] by {
        assert(post[k] == pre[k]);
    }
    assert(post[pre.len() as int] == c);
    assert forall|r: u32| is_reported_rate(post, r) <==> (is_reported_rate(pre, r) || r == c.min_sample_rate || r == c.max_sample_rate) by {
        if is_reported_rate(post, r) {
            let k = choose|k: int| 0 <= k < post.len() && #[trigger] range_has_rate(post[k], r);
            if k < pre.len() {
                assert(range_has_rate(pre[k], r));
            }
        }
        if is_reported_rate(pre, r) {
            let k = choose|k: int| 0 <= k < pre.len() && #[trigger] range_has_rate(pre[k], r);
            assert(range_has_rate(post[k], r));
        }
        if r == c.min_sample_rate || r == c.max_sample_rate {
            assert(range_has_rate(post[pre.len() as int], r));
        }
    }
    assert forall|h: u16| is_reported_channels(post, h) <==> (is_reported_channels(pre, h) || h == c.channels) by {
        if is_reported_channels(post, h) {
            let k = choose|k: int| 0 <= k < post.len() && #[trigger] range_has_channels(post[k], h);
            if k < pre.len() {
                assert(range_has_channels(pre[k], h));
            }
        }
        if is_reported_channels(pre, h) {
            let k = choose|k: int| 0 <= k < pre.len() && #[trigger] range_has_channels(pre[k], h);
            assert(range_has_channels(post[k], h));
        }
        if h == c.channels {
            assert(range_has_channels(post[pre.len() as int], h));
        }
    }
}

/// The texts of a sequence in order of first occurrence, each once.
pub open spec fn first_occurrences(s: Seq<Seq<char>>) -> Seq<Seq<char>>
    decreases s.len(),
{
    if s.len() == 0 {
        Seq::empty()
    } else {
        let prefix = first_occurrences(s.drop_last());
        if prefix.contains(s.last()) { prefix } else { prefix.push(s.last()) }
    }
}

/// The format texts of the ranges, in range order.
pub open spec fn range_formats(ranges: Seq<ConfigRange>) -> Seq<Seq<char>> {
    ranges.map_values(|r: ConfigRange| r.format@)
}

/// The views of a list of strings.
pub open spec fn string_views(v: Seq<String>) -> Seq<Seq<char>> {
    v.map_values(|s: String| s@)
}

/// Whether a list of strings holds one with the given text.
fn holds_text(v: &Vec<String>, s: &String) -> (r: bool)
    ensures
        r == string_views(v@).contains(s@),
{
    let mut i: usize = 0;
    while i < v.len()
        invariant
            i <= v@.len(),
            forall|j: int| 0 <= j < i ==> v@[j]@ != s@,
        decreases v@.len() - i,
    {
        if v[i] == *s {
            assert(string_views(v@)[i as int] == s@);
            return true;
        }
        i = i + 1;
    }
    assert forall|j: int| 0 <= j < string_views(v@).len() implies string_views(v@)[j] != s@ by {
        assert(string_views(v@)[j] == v@[j]@);
    }
    false
}

/// Builds a device's description from the configuration ranges that the
/// backend reports: sample rates (both ends of each range) and channel
/// counts sorted without repeats, formats without repeats in order of first
/// occurrence. The input ranges are used; where there are none, the output
/// ranges are.
pub fn build_device_info(
    name: String,
    input_ranges: &Vec<ConfigRange>,
    output_ranges: &Vec<ConfigRange>,
    device_type: DeviceType,
) -> (info: DeviceInfo)
    ensures
        info.name == name,
        info.device_type == device_type,
        increasing_u32(info.sample_rates@),
        forall|r: u32| info.sample_rates@.contains(r) <==> is_reported_rate(effective_ranges(input_ranges@, output_ranges@), r),
        increasing_u16(info.channels@),
        forall|c: u16| info.channels@.contains(c) <==> is_reported_channels(effective_ranges(input_ranges@, output_ranges@), c),
        string_views(info.formats@) == first_occurrences(range_formats(effective_ranges(input_ranges@, output_ranges@))),
        input_ranges@.len() > 0 ==> {
            &&& forall|r: u32| info.sample_rates@.contains(r) <==> is_reported_rate(input_ranges@, r)
            &&& forall|c: u16| info.channels@.contains(c) <==> is_reported_channels(input_ranges@, c)
            &&& string_views(info.formats@) == first_occurrences(range_formats(input_ranges@))
        },
        input_ranges@.len() == 0 ==> {
            &&& forall|r: u32| info.sample_rates@.contains(r) <==> is_reported_rate(output_ranges@, r)
            &&& forall|c: u16| info.channels@.contains(c) <==> is_reported_channels(output_ranges@, c)
            &&& string_views(info.formats@) == first_occurrences(range_formats(output_ranges@))
        },
{
    let ranges = if input_ranges.len() > 0 { input_ranges } else { output_ranges };
    let ghost rs = effective_ranges(input_ranges@, output_ranges@);
    assert(ranges@ == rs);
    let mut sample_rates: Vec<u32> = Vec::new();
    let mut channels: Vec<u16> = Vec::new();
    let mut formats: Vec<String> = Vec::new();
    let mut i: usize = 0;
    while i < ranges.len()
        invariant
            ranges@ == rs,
            i <= rs.len(),
            increasing_u32(sample_rates@),
            forall|r: u32| sample_rates@.contains(r) <==> is_reported_rate(rs.subrange(0, i as int), r),
            increasing_u16(channels@),
            forall|c: u16| channels@.contains(c) <==> is_reported_channels(rs.subrange(0, i as int), c),
            string_views(formats@) == first_occurrences(range_formats(rs.subrange(0, i as int))),
        decreases rs.len() - i,
    {
        let cfg = &ranges[i];
        let ghost pre = rs.subrange(0, i as int);
        let ghost post = rs.subrange(0, i + 1);
        assert(post =~= pre.push(*cfg));
        let ghost sr0 = sample_rates@;
        insert_sorted_u32(&mut sample_rates, cfg.min_sample_rate);
        let ghost sr1 = sample_rates@;
        if cfg.max_sample_rate != cfg.min_sample_rate {
            insert_sorted_u32(&mut sample_rates, cfg.max_sample_rate);
        }
        proof {
            lemma_reported_push(pre, *cfg);
            assert forall|r: u32| sample_rates@.contains(r) <==> is_reported_rate(post, r) by {
                assert(sr0.contains(r) <==> is_reported_rate(pre, r));
                assert(sr1.contains(r) <==> (sr0.contains(r) || r == cfg.min_sample_rate));
                assert(sample_rates@.contains(r) <==> (sr1.contains(r) || r == cfg.max_sample_rate));
                assert(is_reported_rate(pre.push(*cfg), r) <==> (is_reported_rate(pre, r) || r == cfg.min_sample_rate || r == cfg.max_sample_rate));
            }
        }
        insert_sorted_u16(&mut channels, cfg.channels);
        assert(range_formats(post).drop_last() =~= range_formats(pre));
        assert(range_formats(post).last() == cfg.format@);
        if !holds_text(&formats, &cfg.format) {
            let f = cfg.format.clone();
            formats.push(f);
            assert(string_views(formats@) =~= first_occurrences(range_formats(pre)).push(cfg.format@));
        }
        i = i + 1;
    }
    assert(rs.subrange(0, rs.len() as int) =~= rs);
    DeviceInfo { name, sample_rates, channels, formats, device_type }
}

/// `name` matches `query` when its lower-case form contains the query's
/// lower-case form.
pub open spec fn name_matches(name: Seq<char>, query: Seq<char>) -> bool {
    contains_seq(lowercase(name), lowercase(query))
}

/// Whether a device name matches a query (case-insensitive substring).
pub fn device_name_matches(name: &str, query: &str) -> (r: bool)
    ensures
        r == name_matches(name@, query@),
{
    let n = to_lower(name);
    let q = to_lower(query);
    text_contains(n.as_str(), q.as_str())
}

/// The index of the first name that matches the query, if any. This is how
/// an input or loopback device is picked by name.
pub fn find_device_by_name(names: &Vec<String>, query: &str) -> (r: Option<usize>)
    ensures
        match r {
            Some(i) => {
                &&& i < names@.len()
                &&& name_matches(names@[i as int]@, query@)
                &&& forall|j: int| 0 <= j < i ==> !name_matches(#[trigger] names@[j]@, query@)
            },
            None => forall|j: int| 0 <= j < names@.len() ==> !name_matches(#[trigger] names@[j]@, query@),
        },
{
    let mut i: usize = 0;
    while i < names.len()
        invariant
            i <= names@.len(),
            forall|j: int| 0 <= j < i ==> !name_matches(#[trigger] names@[j]@, query@),
        decreases names@.len() - i,
    {
        if device_name_matches(names[i].as_str(), query) {
            return Some(i);
        }
        i = i + 1;
    }
    None
}

/// The first index not yet chosen whose name matches the query.
pub open spec fn first_unchosen_match(names: Seq<Seq<char>>, query: Seq<char>, chosen: Seq<usize>) -> Option<int> {
    if exists|j: int|
        0 <= j < names.len() && !chosen.contains(j as usize) && name_matches(names[j], query)
            && forall|k: int| 0 <= k < j ==> !(!chosen.contains(k as usize) && name_matches(names[k], query)) {
        Some(choose|j: int|
            0 <= j < names.len() && !chosen.contains(j as usize) && name_matches(names[j], query)
                && forall|k: int| 0 <= k < j ==> !(!chosen.contains(k as usize) && name_matches(names[k], query)))
    } else {
        None
    }
}

/// Whether `x` is in the list.
fn holds_index(v: &Vec<usize>, x: usize) -> (r: bool)
    ensures
        r == v@.contains(x),
{
    let mut i: usize = 0;
    while i < v.len()
        invariant
            i <= v@.len(),
            forall|k: int| 0 <= k < i ==> v@[k] != x,
        decreases v@.len() - i,
    {
        if v[i] == x {
            return true;
        }
        i = i + 1;
    }
    false
}

/// The first index not in `chosen` whose name matches the query.
fn first_free_match(names: &Vec<String>, query: &str, chosen: &Vec<usize>) -> (r: Option<usize>)
    ensures
        r matches Some(j) ==> first_unchosen_match(string_views(names@), query@, chosen@) == Some(j as int),
        r is None ==> first_unchosen_match(string_views(names@), query@, chosen@) is None,
{
    let ghost nv = string_views(names@);
    let mut j: usize = 0;
    while j < names.len()
        invariant
            nv == string_views(names@),
            j <= names@.len(),
            forall|k: int| 0 <= k < j ==> !(!chosen@.contains(k as usize) && #[trigger] name_matches(nv[k], query@)),
        decreases names@.len() - j,
    {
        assert(nv[j as int] == names@[j as int]@);
        if !holds_index(chosen, j) && device_name_matches(names[j].as_str(), query) {
            let ghost w = choose|w: int|
                0 <= w < nv.len() && !chosen@.contains(w as usize) && name_matches(nv[w], query@)
                    && forall|k: int| 0 <= k < w ==> !(!chosen@.contains(k as usize) && name_matches(nv[k], query@));
            assert(0 <= j < nv.len() && !chosen@.contains(j) && name_matches(nv[j as int], query@)
                && forall|k: int| 0 <= k < j ==> !(!chosen@.contains(k as usize) && name_matches(nv[k], query@)));
            assert(w == j) by {
                if w < j {
                } else if w > j {
                }
            }
            return Some(j);
        }
        j = j + 1;
    }
    assert(!exists|k: int| 0 <= k < nv.len() && !chosen@.contains(k as usize) && name_matches(nv[k], query@)) by {
        assert forall|k: int| 0 <= k < nv.len() implies !(!chosen@.contains(k as usize) && name_matches(nv[k], query@)) by {
            assert(name_matches(nv[k], query@) == name_matches(nv[k], query@));
        }
    }
    None
}

/// The devices picked for a list of queries: for each query in turn, the
/// first device not picked yet whose name matches it (queries that match
/// nothing pick nothing).
pub open spec fn picked_for_queries(names: Seq<Seq<char>>, queries: Seq<Seq<char>>) -> Seq<usize>
    decreases queries.len(),
{
    if queries.len() == 0 {
        Seq::empty()
    } else {
        let before = picked_for_queries(names, queries.drop_last());
        match first_unchosen_match(names, queries.last(), before) {
            Some(j) => before.push(j as usize),
            None => before,
        }
    }
}

/// The output devices to use, as indices into `names`: every device when no
/// name is given; otherwise, for each query in turn, the first device not
/// picked yet whose name matches it.
pub open spec fn output_selection(names: Seq<Seq<char>>, queries: Seq<Seq<char>>) -> Seq<usize> {
    if queries.len() == 0 {
        Seq::new(names.len(), |i: int| i as usize)
    } else {
        picked_for_queries(names, queries)
    }
}

/// Whether a name matches at least one of the queries.
pub open spec fn matches_some_query(name: Seq<char>, queries: Seq<Seq<char>>) -> bool {
    exists|q: int| 0 <= q < queries.len() && name_matches(name, #[trigger] queries[q])
}

/// Every pick is a device index, no device is picked twice, and each
/// picked device's name matches one of the queries; there are at most as
/// many picks as queries.
pub open spec fn picks_are_sound(names: Seq<Seq<char>>, queries: Seq<Seq<char>>, picked: Seq<usize>) -> bool {
    &&& picked.len() <= queries.len()
    &&& forall|k: int| 0 <= k < picked.len() ==> (#[trigger] picked[k] as int) < names.len()
    &&& forall|a: int, b: int| 0 <= a < b < picked.len() ==> picked[a] != picked[b]
    &&& forall|k: int| 0 <= k < picked.len() ==> matches_some_query(names[#[trigger] picked[k] as int], queries)
}

proof fn lemma_picked_for_queries_sound(names: Seq<Seq<char>>, queries: Seq<Seq<char>>)
    requires
        names.len() <= usize::MAX,
    ensures
        picks_are_sound(names, queries, picked_for_queries(names, queries)),
    decreases queries.len(),
{
    if queries.len() > 0 {
        let qs = queries.drop_last();
        lemma_picked_for_queries_sound(names, qs);
        let before = picked_for_queries(names, qs);
        let last = queries.last();
        assert forall|n: Seq<char>| matches_some_query(n, qs) implies matches_some_query(n, queries) by {
            let q = choose|q: int| 0 <= q < qs.len() && name_matches(n, #[trigger] qs[q]);
            assert(queries[q] == qs[q]);
        }
        match first_unchosen_match(names, last, before) {
            Some(j) => {
                assert(0 <= j < names.len() && !before.contains(j as usize) && name_matches(names[j], last));
                let after = before.push(j as usize);
                assert(after == picked_for_queries(names, queries));
                assert forall|a: int, b: int| 0 <= a < b < after.len() implies after[a] != after[b] by {
                    if b == before.len() {
                        assert(after[a] == before[a]);
                        if after[a] == after[b] {
                            assert(before.contains(j as usize));
                        }
                    }
                }
                assert(queries[queries.len() - 1] == last);
                assert(matches_some_query(names[j], queries));
                assert forall|k: int| 0 <= k < after.len() implies matches_some_query(names[#[trigger] after[k] as int], queries) by {
                    if k < before.len() {
                        assert(after[k] == before[k]);
                    } else {
                        assert(after[k] as int == j);
                    }
                }
                assert forall|k: int| 0 <= k < after.len() implies (#[trigger] after[k] as int) < names.len() by {
                    if k < before.len() {
                        assert(after[k] == before[k]);
                    }
                }
            },
            None => {},
        }
    }
}

/// Selecting outputs never picks a device twice and only picks listed
/// devices; with requested names, every picked device matches one of them
/// and there are at most as many devices as names.
pub proof fn lemma_output_selection_sound(names: Seq<Seq<char>>, queries: Seq<Seq<char>>)
    requires
        names.len() <= usize::MAX,
    ensures
        forall|k: int| 0 <= k < output_selection(names, queries).len() ==> (#[trigger] output_selection(names, queries)[k] as int) < names.len(),
        forall|a: int, b: int| 0 <= a < b < output_selection(names, queries).len() ==> output_selection(names, queries)[a] != output_selection(names, queries)[b],
        queries.len() == 0 ==> output_selection(names, queries).len() == names.len(),
        queries.len() > 0 ==> picks_are_sound(names, queries, output_selection(names, queries)),
{
    if queries.len() > 0 {
        lemma_picked_for_queries_sound(names, queries);
    }
}

/// Picks the output devices for the requested names (see `output_selection`).
/// An empty result means that no device was found.
pub fn select_output_indices(names: &Vec<String>, queries: &Vec<String>) -> (picked: Vec<usize>)
    ensures
        picked@ == output_selection(string_views(names@), string_views(queries@)),
{
    let ghost nv = string_views(names@);
    let ghost qv = string_views(queries@);
    let mut picked: Vec<usize> = Vec::new();
    if queries.len() == 0 {
        let mut i: usize = 0;
        while i < names.len()
            invariant
                i <= names@.len(),
                picked@ =~= Seq::new(i as nat, |k: int| k as usize),
            decreases names@.len() - i,
        {
            picked.push(i);
            i = i + 1;
        }
        return picked;
    }
    let mut q: usize = 0;
    while q < queries.len()
        invariant
            nv == string_views(names@),
            qv == string_views(queries@),
            q <= queries@.len(),
            picked@ == picked_for_queries(nv, qv.subrange(0, q as int)),
        decreases queries@.len() - q,
    {
        let ghost pre = qv.subrange(0, q as int);
        let ghost post = qv.subrange(0, q + 1);
        assert(post.drop_last() =~= pre);
        assert(post.last() == queries@[q as int]@);
        let query = queries[q].as_str();
        match first_free_match(names, query, &picked) {
            Some(j) => {
                picked.push(j);
            },
            None => {},
        }
        q = q + 1;
    }
    assert(qv.subrange(0, queries@.len() as int) =~= qv);
    picked
}

/// A device is described by its input ranges whenever it reports any; its
/// output ranges count only when it reports no input range.
pub proof fn lemma_input_ranges_take_precedence(inputs: Seq<ConfigRange>, outputs: Seq<ConfigRange>)
    ensures
        inputs.len() > 0 ==> effective_ranges(inputs, outputs) == inputs,
        inputs.len() == 0 ==> effective_ranges(inputs, outputs) == outputs,
        forall|r: u32| inputs.len() > 0 ==> (is_reported_rate(effective_ranges(inputs, outputs), r) <==> is_reported_rate(inputs, r)),
        forall|c: u16| inputs.len() > 0 ==> (is_reported_channels(effective_ranges(inputs, outputs), c) <==> is_reported_channels(inputs, c)),
{
}

} // verus!
