//! Disk I/O counters from `/proc/diskstats`, and the usage figures derived
//! from two successive readings.

use vstd::prelude::*;
use vstd::pervasive::arbitrary;
use crate::text::{
    chars_of, field_spans, fields, has_prefix, parse_u64, parse_unsigned, parse_unsigned_in,
    parse_usize, starts_with, trim, trimmed,
};
use std::time::{Duration, Instant};

pub use crate::classes::block::superblock::{FileSystem, ProbeError, UuidBytes};

verus! {

#[verifier::external_type_specification]
#[verifier::external_body]
pub struct ExInstant(std::time::Instant);

/// Reads the monotonic clock with `std::time::Instant::now`. The reading
/// depends on the time at which it is taken, so nothing is stated of it.
#[verifier::external_body]
fn instant_now() -> (r: Instant) {
    Instant::now()
}

/// What `later.duration_since(earlier)` gives for two readings of the
/// clock: the time from `earlier` to `later`, zero when `earlier` is the
/// later one. It depends on the two readings alone.
pub uninterp spec fn time_between(later: Instant, earlier: Instant) -> Duration;

/// The whole milliseconds in a duration, as `Duration::as_millis` counts
/// them.
pub uninterp spec fn whole_millis(d: Duration) -> u128;

/// `std::time::Instant::duration_since`; its result is named, not stated.
#[verifier::external_body]
fn duration_since(later: &Instant, earlier: &Instant) -> (r: Duration)
    ensures
        r == time_between(*later, *earlier),
{
    later.duration_since(*earlier)
}

/// `std::time::Duration::as_millis`; its result is named, not stated.
#[verifier::external_body]
fn as_millis(d: &Duration) -> (r: u128)
    ensures
        r == whole_millis(*d),
{
    d.as_millis()
}

/// One line of `/proc/diskstats`: the counters of one block device, and
/// when they were read.
#[derive(Copy, Clone, Debug)]
pub struct DiskStats {
    pub major: u32,
    pub minor: u32,
    pub reads_completed: u64,
    pub reads_merged: u64,
    pub sectors_read: u64,
    pub ms_reading: u64,
    pub writes_completed: u64,
    pub writes_merged: u64,
    pub sectors_written: u64,
    pub ms_writing: u64,
    pub io_in_progress: u64,
    pub ms_io: u64,
    pub weighted_ms_io: u64,
    pub discards_completed: Option<u64>,
    pub discards_merged: Option<u64>,
    pub sectors_discarded: Option<u64>,
    pub ms_discarding: Option<u64>,
    pub flush_requests: Option<u64>,
    pub ms_flushing: Option<u64>,
    pub timestamp: Instant,
}

/// The counters of a [`DiskStats`], without the time of reading.
#[derive(Copy, Clone, Debug, PartialEq, Eq)]
pub struct DiskCounters {
    pub major: u32,
    pub minor: u32,
    pub reads_completed: u64,
    pub reads_merged: u64,
    pub sectors_read: u64,
    pub ms_reading: u64,
    pub writes_completed: u64,
    pub writes_merged: u64,
    pub sectors_written: u64,
    pub ms_writing: u64,
    pub io_in_progress: u64,
    pub ms_io: u64,
    pub weighted_ms_io: u64,
    pub discards_completed: Option<u64>,
    pub discards_merged: Option<u64>,
    pub sectors_discarded: Option<u64>,
    pub ms_discarding: Option<u64>,
    pub flush_requests: Option<u64>,
    pub ms_flushing: Option<u64>,
}

impl View for DiskStats {
    type V = DiskCounters;

    open spec fn view(&self) -> DiskCounters {
        DiskCounters {
            major: self.major,
            minor: self.minor,
            reads_completed: self.reads_completed,
            reads_merged: self.reads_merged,
            sectors_read: self.sectors_read,
            ms_reading: self.ms_reading,
            writes_completed: self.writes_completed,
            writes_merged: self.writes_merged,
            sectors_written: self.sectors_written,
            ms_writing: self.ms_writing,
            io_in_progress: self.io_in_progress,
            ms_io: self.ms_io,
            weighted_ms_io: self.weighted_ms_io,
            discards_completed: self.discards_completed,
            discards_merged: self.discards_merged,
            sectors_discarded: self.sectors_discarded,
            ms_discarding: self.ms_discarding,
            flush_requests: self.flush_requests,
            ms_flushing: self.ms_flushing,
        }
    }
}

/// Read and write rates of a disk, and its totals, in sectors.
#[derive(Copy, Clone, Debug, PartialEq, Eq)]
pub struct DiskUsage {
    pub recently_read: u64,
    pub recently_writen: u64,
    pub total_read: u64,
    pub total_writen: u64,
}

/// A field of a diskstats line read as a `u64`.
pub open spec fn field_u64(f: Seq<char>) -> Option<u64> {
    match parse_unsigned(f, u64::MAX as nat) {
        Some(v) => Some(v as u64),
        None => None,
    }
}

/// A field of a diskstats line read as a `u32`.
pub open spec fn field_u32(f: Seq<char>) -> Option<u32> {
    match parse_unsigned(f, u32::MAX as nat) {
        Some(v) => Some(v as u32),
        None => None,
    }
}

/// The counters that the fields of a diskstats line give: the line needs at
/// least 14 fields; fields 0 and 1 are the `u32` device numbers, field 2 the
/// name, fields 3 to 13 the base counters. The six extended counters (fields
/// 14 to 19) are read one by one when the line has at least 20 fields, and
/// are absent otherwise.
pub open spec fn line_counters(p: Seq<Seq<char>>) -> Option<DiskCounters> {
    if p.len() < 14 || field_u32(p[0]) is None || field_u32(p[1]) is None || field_u64(p[3]) is None
        || field_u64(p[4]) is None || field_u64(p[5]) is None || field_u64(p[6]) is None
        || field_u64(p[7]) is None || field_u64(p[8]) is None || field_u64(p[9]) is None
        || field_u64(p[10]) is None || field_u64(p[11]) is None || field_u64(p[12]) is None
        || field_u64(p[13]) is None {
        None
    } else {
        let ext = p.len() >= 20;
        Some(
            DiskCounters {
                major: field_u32(p[0])->0,
                minor: field_u32(p[1])->0,
                reads_completed: field_u64(p[3])->0,
                reads_merged: field_u64(p[4])->0,
                sectors_read: field_u64(p[5])->0,
                ms_reading: field_u64(p[6])->0,
                writes_completed: field_u64(p[7])->0,
                writes_merged: field_u64(p[8])->0,
                sectors_written: field_u64(p[9])->0,
                ms_writing: field_u64(p[10])->0,
                io_in_progress: field_u64(p[11])->0,
                ms_io: field_u64(p[12])->0,
                weighted_ms_io: field_u64(p[13])->0,
                discards_completed: if ext { field_u64(p[14]) } else { None },
                discards_merged: if ext { field_u64(p[15]) } else { None },
                sectors_discarded: if ext { field_u64(p[16]) } else { None },
                ms_discarding: if ext { field_u64(p[17]) } else { None },
                flush_requests: if ext { field_u64(p[18]) } else { None },
                ms_flushing: if ext { field_u64(p[19]) } else { None },
            },
        )
    }
}

/// What a line of `/proc/diskstats` holds: the device name and its
/// counters, or nothing for a line that does not have that form.
pub open spec fn parsed_line(line: Seq<char>) -> Option<(Seq<char>, DiskCounters)> {
    match line_counters(fields(line)) {
        Some(c) => Some((fields(line)[2], c)),
        None => None,
    }
}

fn field_u64_at(cs: &Vec<char>, spans: &Vec<(usize, usize)>, k: usize) -> (r: Option<u64>)
    requires
        k < spans@.len(),
        spans@[k as int].0 <= spans@[k as int].1 <= cs@.len(),
    ensures
        r == field_u64(cs@.subrange(spans@[k as int].0 as int, spans@[k as int].1 as int)),
{
    let (a, b) = spans[k];
    parse_unsigned_in(cs, a, b, u64::MAX)
}

fn field_u32_at(cs: &Vec<char>, spans: &Vec<(usize, usize)>, k: usize) -> (r: Option<u32>)
    requires
        k < spans@.len(),
        spans@[k as int].0 <= spans@[k as int].1 <= cs@.len(),
    ensures
        r == field_u32(cs@.subrange(spans@[k as int].0 as int, spans@[k as int].1 as int)),
{
    let (a, b) = spans[k];
    match parse_unsigned_in(cs, a, b, u32::MAX as u64) {
        Some(v) => Some(v as u32),
        None => None,
    }
}

/// The entry for `k` in a list of named entries: the first one with that
/// name.
pub open spec fn lookup(s: Seq<(String, DiskStats)>, k: Seq<char>) -> Option<DiskStats>
    decreases s.len(),
{
    if s.len() == 0 {
        None
    } else {
        match lookup(s.drop_last(), k) {
            Some(v) => Some(v),
            None => if s.last().0@ == k {
                Some(s.last().1)
            } else {
                None
            },
        }
    }
}

/// A list of named entries as a map from names to entries.
pub open spec fn as_map(s: Seq<(String, DiskStats)>) -> Map<Seq<char>, DiskStats> {
    Map::new(|k: Seq<char>| lookup(s, k) is Some, |k: Seq<char>| lookup(s, k)->0)
}

/// The counters of each entry of a map.
pub open spec fn counters_of(m: Map<Seq<char>, DiskStats>) -> Map<Seq<char>, DiskCounters> {
    m.map_values(|d: DiskStats| d@)
}

/// The views of a list of lines.
pub open spec fn line_views(lines: Seq<String>) -> Seq<Seq<char>> {
    lines.map_values(|l: String| l@)
}

/// Some line of `lines` names the device `n`.
pub open spec fn names_device(lines: Seq<Seq<char>>, n: Seq<char>) -> bool {
    exists|j: int| 0 <= j < lines.len() && (#[trigger] parsed_line(lines[j]) matches Some((k, _)) && k == n)
}

/// The counters after each line of `lines` has been taken in turn, starting
/// from `(current, previous)`: a line that names a device replaces its
/// current counters, and the counters that it replaces become the device's
/// previous ones; other lines change nothing.
pub open spec fn reload_counters(
    current: Map<Seq<char>, DiskCounters>,
    previous: Map<Seq<char>, DiskCounters>,
    lines: Seq<Seq<char>>,
) -> (Map<Seq<char>, DiskCounters>, Map<Seq<char>, DiskCounters>)
    decreases lines.len(),
{
    if lines.len() == 0 {
        (current, previous)
    } else {
        let (c, p) = reload_counters(current, previous, lines.drop_last());
        match parsed_line(lines.last()) {
            Some((n, x)) => (
                c.insert(n, x),
                if c.contains_key(n) {
                    p.insert(n, c[n])
                } else {
                    p
                },
            ),
            None => (c, p),
        }
    }
}

/// The counters `c`, read at clock reading `t`.
pub open spec fn stamped(c: DiskCounters, t: Instant) -> DiskStats {
    DiskStats {
        major: c.major,
        minor: c.minor,
        reads_completed: c.reads_completed,
        reads_merged: c.reads_merged,
        sectors_read: c.sectors_read,
        ms_reading: c.ms_reading,
        writes_completed: c.writes_completed,
        writes_merged: c.writes_merged,
        sectors_written: c.sectors_written,
        ms_writing: c.ms_writing,
        io_in_progress: c.io_in_progress,
        ms_io: c.ms_io,
        weighted_ms_io: c.weighted_ms_io,
        discards_completed: c.discards_completed,
        discards_merged: c.discards_merged,
        sectors_discarded: c.sectors_discarded,
        ms_discarding: c.ms_discarding,
        flush_requests: c.flush_requests,
        ms_flushing: c.ms_flushing,
        timestamp: t,
    }
}

/// The entries after each line of `lines` has been taken in turn, starting
/// from `(current, previous)`, line `j` read at clock reading `stamps[j]`:
/// a line that names a device makes its counters, with that reading, the
/// device's current entry, and the entry it replaces, reading included,
/// becomes the device's previous one; other lines change nothing.
pub open spec fn reload_entries(
    current: Map<Seq<char>, DiskStats>,
    previous: Map<Seq<char>, DiskStats>,
    lines: Seq<Seq<char>>,
    stamps: Seq<Instant>,
) -> (Map<Seq<char>, DiskStats>, Map<Seq<char>, DiskStats>)
    decreases lines.len(),
{
    if lines.len() == 0 {
        (current, previous)
    } else {
        let (c, p) = reload_entries(current, previous, lines.drop_last(), stamps.drop_last());
        match parsed_line(lines.last()) {
            Some((n, x)) => (
                c.insert(n, stamped(x, stamps.last())),
                if c.contains_key(n) {
                    p.insert(n, c[n])
                } else {
                    p
                },
            ),
            None => (c, p),
        }
    }
}

pub open spec fn sat_sub(a: u64, b: u64) -> u64 {
    if a >= b {
        (a - b) as u64
    } else {
        0
    }
}

/// Sectors per second, in thousands, over `ms` milliseconds: the increase
/// of the counter, divided by `ms` and then by 1000, rounding down.
pub open spec fn rate(now: u64, before: u64, ms: u128) -> u64 {
    (((sat_sub(now, before) as u128) / ms) / 1000) as u64
}

/// The usage of a disk whose latest counters are `cur`, given its previous
/// ones, if any, and the milliseconds between the two readings.
pub open spec fn usage_spec(cur: DiskStats, prev: Option<DiskStats>, ms: u128) -> DiskUsage {
    match prev {
        Some(p) => DiskUsage {
            recently_read: rate(cur.sectors_read, p.sectors_read, ms),
            recently_writen: rate(cur.sectors_written, p.sectors_written, ms),
            total_read: cur.sectors_read,
            total_writen: cur.sectors_written,
        },
        None => DiskUsage {
            recently_read: 0,
            recently_writen: 0,
            total_read: cur.sectors_read,
            total_writen: cur.sectors_written,
        },
    }
}

/// The whole milliseconds between the readings `earlier` and `later`, as
/// their clock readings give them.
pub open spec fn elapsed_ms(later: DiskStats, earlier: DiskStats) -> u128 {
    whole_millis(time_between(later.timestamp, earlier.timestamp))
}

/// The usage of a disk from its latest counters and its previous ones, if
/// any, over the whole milliseconds between the two readings.
pub open spec fn disk_usage_spec(cur: DiskStats, prev: Option<DiskStats>) -> DiskUsage {
    match prev {
        None => usage_spec(cur, None, 0),
        Some(p) => usage_spec(cur, Some(p), elapsed_ms(cur, p)),
    }
}

proof fn lemma_lookup_absent(s: Seq<(String, DiskStats)>, k: Seq<char>)
    requires
        forall|j: int| 0 <= j < s.len() ==> (#[trigger] s[j]).0@ != k,
    ensures
        lookup(s, k) is None,
    decreases s.len(),
{
    if s.len() > 0 {
        lemma_lookup_absent(s.drop_last(), k);
    }
}

proof fn lemma_lookup_first(s: Seq<(String, DiskStats)>, k: Seq<char>, i: int)
    requires
        0 <= i < s.len(),
        s[i].0@ == k,
        forall|j: int| 0 <= j < i ==> (#[trigger] s[j]).0@ != k,
    ensures
        lookup(s, k) == Some(s[i].1),
    decreases s.len(),
{
    if i == s.len() - 1 {
        lemma_lookup_absent(s.drop_last(), k);
    } else {
        lemma_lookup_first(s.drop_last(), k, i);
    }
}

proof fn lemma_lookup_update(s: Seq<(String, DiskStats)>, i: int, x: (String, DiskStats), k: Seq<char>)
    requires
        0 <= i < s.len(),
        x.0@ == s[i].0@,
        forall|j: int| 0 <= j < i ==> (#[trigger] s[j]).0@ != s[i].0@,
    ensures
        lookup(s.update(i, x), k) == if k == x.0@ {
            Some(x.1)
        } else {
            lookup(s, k)
        },
    decreases s.len(),
{
    let t = s.update(i, x);
    if i == s.len() - 1 {
        assert(t.drop_last() =~= s.drop_last());
        if k == x.0@ {
            lemma_lookup_absent(s.drop_last(), k);
        }
    } else {
        assert(t.drop_last() =~= s.drop_last().update(i, x));
        lemma_lookup_update(s.drop_last(), i, x, k);
    }
}

/// Position of the first entry named `name`.
fn find_entry(entries: &Vec<(String, DiskStats)>, name: &String) -> (r: Option<usize>)
    ensures
        match r {
            Some(i) => {
                &&& i < entries@.len()
                &&& entries@[i as int].0@ == name@
                &&& forall|j: int| 0 <= j < i ==> (#[trigger] entries@[j]).0@ != name@
                &&& lookup(entries@, name@) == Some(entries@[i as int].1)
            },
            None => lookup(entries@, name@) is None,
        },
{
    let n = entries.len();
    let mut i: usize = 0;
    while i < n
        invariant
            n == entries@.len(),
            i <= n,
            forall|j: int| 0 <= j < i ==> (#[trigger] entries@[j]).0@ != name@,
        decreases n - i,
    {
        if entries[i].0 == *name {
            proof {
                lemma_lookup_first(entries@, name@, i as int);
            }
            return Some(i);
        }
        i = i + 1;
    }
    proof {
        lemma_lookup_absent(entries@, name@);
    }
    None
}

/// Sets the entry named `name` to `ds`, and gives back the one it replaced.
fn insert_entry(entries: &mut Vec<(String, DiskStats)>, name: String, ds: DiskStats) -> (r: Option<
    DiskStats,
>)
    ensures
        r == lookup(old(entries)@, name@),
        as_map(final(entries)@) == as_map(old(entries)@).insert(name@, ds),
{
    let ghost k = name@;
    let found = find_entry(entries, &name);
    match found {
        Some(i) => {
            let prev = entries[i].1;
            proof {
                assert forall|key: Seq<char>|
                    #![trigger lookup(entries@.update(i as int, (name, ds)), key)]
                    true implies lookup(entries@.update(i as int, (name, ds)), key) == if key == k {
                    Some(ds)
                } else {
                    lookup(entries@, key)
                } by {
                    lemma_lookup_update(entries@, i as int, (name, ds), key);
                }
            }
            let ghost before = entries@;
            entries.set(i, (name, ds));
            assert(as_map(entries@) =~= as_map(before).insert(k, ds)) by {
                assert(entries@ == before.update(i as int, (name, ds)));
            }
            Some(prev)
        },
        None => {
            let ghost before = entries@;
            entries.push((name, ds));
            assert(entries@.drop_last() =~= before);
            assert(as_map(entries@) =~= as_map(before).insert(k, ds));
            None
        },
    }
}

/// The latest and the previous counters of each disk, by name.
#[derive(Debug)]
pub struct DiskStatsMap {
    current_stats: Vec<(String, DiskStats)>,
    previous_stats: Vec<(String, DiskStats)>,
}

impl Default for DiskStatsMap {
    fn default() -> (r: Self)
        ensures
            r.current() == Map::<Seq<char>, DiskStats>::empty(),
            r.previous() == Map::<Seq<char>, DiskStats>::empty(),
    {
        let r = DiskStatsMap { current_stats: Vec::new(), previous_stats: Vec::new() };
        assert(r.current() =~= Map::<Seq<char>, DiskStats>::empty());
        assert(r.previous() =~= Map::<Seq<char>, DiskStats>::empty());
        r
    }
}

impl DiskStatsMap {
    /// The latest counters of each disk.
    pub closed spec fn current(&self) -> Map<Seq<char>, DiskStats> {
        as_map(self.current_stats@)
    }

    /// The counters that the latest ones replaced, for each disk that has
    /// been read more than once.
    pub closed spec fn previous(&self) -> Map<Seq<char>, DiskStats> {
        as_map(self.previous_stats@)
    }

    /// Reads one line of `/proc/diskstats`: the device name and its
    /// counters, stamped with the time of reading; `None` for a line without
    /// the fields that [`parsed_line`] asks for.
    pub fn parse_line(line: &str) -> (r: Option<(String, DiskStats)>)
        ensures
            match r {
                Some((n, ds)) => parsed_line(line@) == Some((n@, ds@)),
                None => parsed_line(line@) is None,
            },
    {
        let cs = chars_of(line);
        let spans = field_spans(&cs);
        let ghost p = fields(line@);
        if spans.len() < 14 {
            return None;
        }
        assert forall|k: int| 0 <= k < spans@.len() implies cs@.subrange(
            (#[trigger] spans@[k]).0 as int,
            spans@[k].1 as int,
        ) == p[k] by {}
        let major = match field_u32_at(&cs, &spans, 0) {
            Some(v) => v,
            None => return None,
        };
        let minor = match field_u32_at(&cs, &spans, 1) {
            Some(v) => v,
            None => return None,
        };
        let (na, nb) = spans[2];
        let name = line.substring_char(na, nb).to_owned();
        let reads_completed = match field_u64_at(&cs, &spans, 3) {
            Some(v) => v,
            None => return None,
        };
        let reads_merged = match field_u64_at(&cs, &spans, 4) {
            Some(v) => v,
            None => return None,
        };
        let sectors_read = match field_u64_at(&cs, &spans, 5) {
            Some(v) => v,
            None => return None,
        };
        let ms_reading = match field_u64_at(&cs, &spans, 6) {
            Some(v) => v,
            None => return None,
        };
        let writes_completed = match field_u64_at(&cs, &spans, 7) {
            Some(v) => v,
            None => return None,
        };
        let writes_merged = match field_u64_at(&cs, &spans, 8) {
            Some(v) => v,
            None => return None,
        };
        let sectors_written = match field_u64_at(&cs, &spans, 9) {
            Some(v) => v,
            None => return None,
        };
        let ms_writing = match field_u64_at(&cs, &spans, 10) {
            Some(v) => v,
            None => return None,
        };
        let io_in_progress = match field_u64_at(&cs, &spans, 11) {
            Some(v) => v,
            None => return None,
        };
        let ms_io = match field_u64_at(&cs, &spans, 12) {
            Some(v) => v,
            None => return None,
        };
        let weighted_ms_io = match field_u64_at(&cs, &spans, 13) {
            Some(v) => v,
            None => return None,
        };
        let (
            discards_completed,
            discards_merged,
            sectors_discarded,
            ms_discarding,
            flush_requests,
            ms_flushing,
        ) = if spans.len() >= 20 {
            (
                field_u64_at(&cs, &spans, 14),
                field_u64_at(&cs, &spans, 15),
                field_u64_at(&cs, &spans, 16),
                field_u64_at(&cs, &spans, 17),
                field_u64_at(&cs, &spans, 18),
                field_u64_at(&cs, &spans, 19),
            )
        } else {
            (None, None, None, None, None, None)
        };
        let ds = DiskStats {
            major,
            minor,
            reads_completed,
            reads_merged,
            sectors_read,
            ms_reading,
            writes_completed,
            writes_merged,
            sectors_written,
            ms_writing,
            io_in_progress,
            ms_io,
            weighted_ms_io,
            discards_completed,
            discards_merged,
            sectors_discarded,
            ms_discarding,
            flush_requests,
            ms_flushing,
            timestamp: instant_now(),
        };
        assert(ds@ == line_counters(p)->0);
        Some((name, ds))
    }

    /// Builds the map from the lines of `/proc/diskstats`: each line that
    /// names a device sets its counters, a later line for the same device
    /// replacing an earlier one; no previous counters are kept.
    pub fn parse(lines: &Vec<String>) -> (r: Self)
        ensures
            counters_of(r.current()) == reload_counters(
                Map::empty(),
                Map::empty(),
                line_views(lines@),
            ).0,
            r.previous() == Map::<Seq<char>, DiskStats>::empty(),
            exists|stamps: Seq<Instant>|
                stamps.len() == lines@.len() && r.current() == (#[trigger] reload_entries(
                    Map::empty(),
                    Map::empty(),
                    line_views(lines@),
                    stamps,
                )).0,
    {
        let mut stat_map: Vec<(String, DiskStats)> = Vec::new();
        let ghost mut stamps: Seq<Instant> = Seq::empty();
        let n = lines.len();
        let ghost views = line_views(lines@);
        assert(as_map(stat_map@) =~= Map::<Seq<char>, DiskStats>::empty());
        assert(counters_of(Map::<Seq<char>, DiskStats>::empty()) =~= Map::<
            Seq<char>,
            DiskCounters,
        >::empty());
        assert(views.take(0) =~= Seq::<Seq<char>>::empty());
        for i in 0..n
            invariant
                n == lines@.len(),
                views == line_views(lines@),
                counters_of(as_map(stat_map@)) == reload_counters(
                    Map::empty(),
                    Map::empty(),
                    views.take(i as int),
                ).0,
                stamps.len() == i,
                as_map(stat_map@) == reload_entries(
                    Map::empty(),
                    Map::empty(),
                    views.take(i as int),
                    stamps,
                ).0,
        {
            assert(views.take(i + 1).drop_last() =~= views.take(i as int));
            assert(views.take(i + 1).last() == lines@[i as int]@);
            let ghost before = as_map(stat_map@);
            let ghost earlier = stamps;
            if let Some((name, ds)) = Self::parse_line(lines[i].as_str()) {
                insert_entry(&mut stat_map, name, ds);
                assert(counters_of(as_map(stat_map@)) =~= counters_of(before).insert(name@, ds@));
                proof {
                    stamps = stamps.push(ds.timestamp);
                    assert(stamped(ds@, ds.timestamp) == ds);
                }
            } else {
                proof {
                    stamps = stamps.push(arbitrary());
                }
            }
            assert(stamps.drop_last() =~= earlier);
        }
        assert(views.take(n as int) =~= views);
        assert(stamps.len() == lines@.len());
        let r = DiskStatsMap { current_stats: stat_map, previous_stats: Vec::new() };
        assert(r.previous() =~= Map::<Seq<char>, DiskStats>::empty());
        r
    }

    /// Takes one more line of `/proc/diskstats`: when it names a device, its
    /// counters become the device's current ones, and the counters they
    /// replace, if any, become its previous ones. A line that names no
    /// device changes nothing.
    pub fn reload_line(&mut self, line: &str)
        ensures
            match parsed_line(line@) {
                Some((n, c)) => {
                    &&& final(self).current().contains_key(n)
                    &&& final(self).current()[n]@ == c
                    &&& final(self).current() == old(self).current().insert(
                        n,
                        final(self).current()[n],
                    )
                    &&& final(self).previous() == if old(self).current().contains_key(n) {
                        old(self).previous().insert(n, old(self).current()[n])
                    } else {
                        old(self).previous()
                    }
                },
                None => {
                    &&& final(self).current() == old(self).current()
                    &&& final(self).previous() == old(self).previous()
                },
            },
    {
        if let Some((name, ds)) = Self::parse_line(line) {
            let key = name.clone();
            let replaced = insert_entry(&mut self.current_stats, name, ds);
            if let Some(old_value) = replaced {
                insert_entry(&mut self.previous_stats, key, old_value);
            }
        }
    }

    /// Takes the lines of a new reading of `/proc/diskstats`, one after the
    /// other, as [`DiskStatsMap::reload_line`] does. The entries of devices
    /// that no line names stay as they were.
    pub fn reload(&mut self, lines: &Vec<String>)
        ensures
            (counters_of(final(self).current()), counters_of(final(self).previous()))
                == reload_counters(
                counters_of(old(self).current()),
                counters_of(old(self).previous()),
                line_views(lines@),
            ),
            forall|n: Seq<char>|
                !names_device(line_views(lines@), n) ==> {
                    &&& #[trigger] final(self).current().get(n) == old(self).current().get(n)
                    &&& final(self).previous().get(n) == old(self).previous().get(n)
                },
            old(self).current().dom().subset_of(final(self).current().dom()),
            old(self).previous().dom().subset_of(old(self).current().dom())
                ==> final(self).previous().dom().subset_of(final(self).current().dom()),
            exists|stamps: Seq<Instant>|
                stamps.len() == lines@.len() && (final(self).current(), final(self).previous())
                    == #[trigger] reload_entries(
                    old(self).current(),
                    old(self).previous(),
                    line_views(lines@),
                    stamps,
                ),
    {
        let n = lines.len();
        let ghost views = line_views(lines@);
        let ghost c0 = counters_of(self.current());
        let ghost p0 = counters_of(self.previous());
        let ghost cur0 = self.current();
        let ghost prev0 = self.previous();
        let ghost mut stamps: Seq<Instant> = Seq::empty();
        assert(views.take(0) =~= Seq::<Seq<char>>::empty());
        for i in 0..n
            invariant
                n == lines@.len(),
                views == line_views(lines@),
                stamps.len() == i,
                (self.current(), self.previous()) == reload_entries(
                    cur0,
                    prev0,
                    views.take(i as int),
                    stamps,
                ),
                (counters_of(self.current()), counters_of(self.previous())) == reload_counters(
                    c0,
                    p0,
                    views.take(i as int),
                ),
                forall|m: Seq<char>|
                    !names_device(views.take(i as int), m) ==> {
                        &&& #[trigger] self.current().get(m) == cur0.get(m)
                        &&& self.previous().get(m) == prev0.get(m)
                    },
        {
            assert(views.take(i + 1).drop_last() =~= views.take(i as int));
            assert(views.take(i + 1).last() == lines@[i as int]@);
            let ghost cur = self.current();
            let ghost prev = self.previous();
            self.reload_line(lines[i].as_str());
            proof {
                let ghost before = stamps;
                let t = match parsed_line(lines@[i as int]@) {
                    Some((k, c)) => self.current()[k].timestamp,
                    None => arbitrary(),
                };
                stamps = stamps.push(t);
                assert(stamps.drop_last() =~= before);
                match parsed_line(lines@[i as int]@) {
                    Some((k, c)) => {
                        assert(stamped(c, t) == self.current()[k]);
                        assert(self.current() =~= cur.insert(k, stamped(c, t)));
                    },
                    None => {},
                }
                assert forall|m: Seq<char>| !names_device(views.take(i + 1), m) implies {
                    &&& #[trigger] self.current().get(m) == cur0.get(m)
                    &&& self.previous().get(m) == prev0.get(m)
                } by {
                    assert forall|j: int| 0 <= j < i implies !(#[trigger] parsed_line(
                        views.take(i as int)[j],
                    ) matches Some((k, _)) && k == m) by {
                        assert(views.take(i as int)[j] == views.take(i + 1)[j]);
                        if parsed_line(views.take(i as int)[j]) matches Some((k, _)) && k == m {
                            assert(names_device(views.take(i + 1), m));
                        }
                    }
                    if parsed_line(views.take(i + 1)[i as int]) matches Some((k, _)) && k == m {
                        assert(names_device(views.take(i + 1), m));
                    }
                    assert(!names_device(views.take(i as int), m));
                    assert(cur.get(m) == cur0.get(m));
                    assert(prev.get(m) == prev0.get(m));
                    assert(views.take(i + 1)[i as int] == lines@[i as int]@);
                    match parsed_line(lines@[i as int]@) {
                        Some((k, c)) => {
                            assert(k != m);
                            assert(self.current().get(m) == cur.get(m));
                            assert(self.previous().get(m) == prev.get(m));
                        },
                        None => {},
                    }
                }
                match parsed_line(lines@[i as int]@) {
                    Some((k, c)) => {
                        assert(counters_of(self.current()) =~= counters_of(cur).insert(k, c));
                        if cur.contains_key(k) {
                            assert(counters_of(self.previous()) =~= counters_of(prev).insert(
                                k,
                                counters_of(cur)[k],
                            ));
                        }
                    },
                    None => {},
                }
            }
        }
        assert(views.take(n as int) =~= views);
        assert(stamps.len() == lines@.len());
        proof {
            law_reload_keeps_names(cur0, prev0, views, stamps);
        }
    }

    /// The latest counters of the disk called `name`.
    pub fn get(&self, name: &str) -> (r: Option<DiskStats>)
        ensures
            r == self.current().get(name@),
    {
        let key = name.to_owned();
        match find_entry(&self.current_stats, &key) {
            Some(i) => Some(self.current_stats[i].1),
            None => None,
        }
    }

    /// The usage of the disk called `name`, for readings `elapsed_ms`
    /// milliseconds apart: `None` when the disk has no current counters;
    /// zero rates when it has no previous ones.
    pub fn usage_after(&self, name: &str, elapsed_ms: u128) -> (r: Option<DiskUsage>)
        requires
            self.current().contains_key(name@) && self.previous().contains_key(name@) ==> elapsed_ms
                > 0,
        ensures
            r == match self.current().get(name@) {
                Some(cur) => Some(usage_spec(cur, self.previous().get(name@), elapsed_ms)),
                None => None,
            },
    {
        let key = name.to_owned();
        let cur = match find_entry(&self.current_stats, &key) {
            Some(i) => self.current_stats[i].1,
            None => return None,
        };
        match find_entry(&self.previous_stats, &key) {
            Some(j) => {
                let prev = self.previous_stats[j].1;
                Some(usage_between(&cur, &prev, elapsed_ms))
            },
            None => Some(
                DiskUsage {
                    recently_read: 0,
                    recently_writen: 0,
                    total_read: cur.sectors_read,
                    total_writen: cur.sectors_written,
                },
            ),
        }
    }

    /// Whether the usage of the disk called `name` can be computed: when it
    /// has both current and previous counters, their readings must be at
    /// least a whole millisecond apart, for the rates divide by that time.
    pub open spec fn usage_defined(&self, name: Seq<char>) -> bool {
        self.current().contains_key(name) && self.previous().contains_key(name) ==> elapsed_ms(
            self.current()[name],
            self.previous()[name],
        ) > 0
    }

    /// The usage of the disk called `name`: `None` when it has no current
    /// counters; zero rates when it has no previous ones; otherwise the
    /// rates over the whole milliseconds between the two readings, which
    /// must be at least one.
    pub fn get_disk_usage(&self, name: &str) -> (r: Option<DiskUsage>)
        requires
            self.usage_defined(name@),
        ensures
            r == match self.current().get(name@) {
                None => None,
                Some(cur) => Some(disk_usage_spec(cur, self.previous().get(name@))),
            },
    {
        let key = name.to_owned();
        let elapsed = match find_entry(&self.current_stats, &key) {
            None => return None,
            Some(i) => match find_entry(&self.previous_stats, &key) {
                None => 0,
                Some(j) => {
                    let span = duration_since(
                        &self.current_stats[i].1.timestamp,
                        &self.previous_stats[j].1.timestamp,
                    );
                    as_millis(&span)
                },
            },
        };
        self.usage_after(name, elapsed)
    }

    /// The usage of the disk called `name`, where it can be computed:
    /// `None` when the disk has current and previous counters read within
    /// the same millisecond; otherwise what
    /// [`DiskStatsMap::get_disk_usage`] gives.
    pub fn checked_disk_usage(&self, name: &str) -> (r: Option<Option<DiskUsage>>)
        ensures
            r is None <==> !self.usage_defined(name@),
            r matches Some(u) ==> u == match self.current().get(name@) {
                None => None,
                Some(cur) => Some(disk_usage_spec(cur, self.previous().get(name@))),
            },
    {
        let key = name.to_owned();
        if let Some(i) = find_entry(&self.current_stats, &key) {
            if let Some(j) = find_entry(&self.previous_stats, &key) {
                let span = duration_since(
                    &self.current_stats[i].1.timestamp,
                    &self.previous_stats[j].1.timestamp,
                );
                if as_millis(&span) == 0 {
                    return None;
                }
            }
        }
        Some(self.get_disk_usage(name))
    }
}

/// Total, free and used space of a file system, in bytes.
#[derive(Copy, Clone, Debug, PartialEq, Eq)]
pub struct SpaceInfo {
    pub total_space: u64,
    pub free_space: u64,
    pub used_space: u64,
}

/// The space of a mounted file system from what `statvfs` reports for it:
/// the fragment size, the number of blocks and the number of free blocks.
/// `None` when a product overflows a `u64`, or when more blocks are free
/// than there are.
pub fn space_from_statvfs(fragment_size: u64, blocks: u64, free_blocks: u64) -> (r: Option<
    SpaceInfo,
>)
    ensures
        match r {
            Some(info) => {
                &&& info.total_space == blocks * fragment_size
                &&& info.free_space == free_blocks * fragment_size
                &&& info.used_space == info.total_space - info.free_space
            },
            None => blocks * fragment_size > u64::MAX || free_blocks * fragment_size > u64::MAX
                || free_blocks * fragment_size > blocks * fragment_size,
        },
{
    let total_space = match blocks.checked_mul(fragment_size) {
        Some(v) => v,
        None => return None,
    };
    let free_space = match free_blocks.checked_mul(fragment_size) {
        Some(v) => v,
        None => return None,
    };
    if free_space > total_space {
        return None;
    }
    Some(SpaceInfo { total_space, free_space, used_space: total_space - free_space })
}

/// A number read from a sysfs value, or 0 where it is not one.
pub open spec fn number_or_zero(s: Seq<char>) -> nat {
    match parse_unsigned(trimmed(s), u64::MAX as nat) {
        Some(v) => v,
        None => 0,
    }
}

/// The space of a device that is not mounted: its size in sectors times
/// its hardware sector size, as its `size` and `queue/hw_sector_size`
/// attributes give them (a value that is not a number counts as 0), or 0
/// where either attribute could not be read; nothing free or used. `None`
/// when the product overflows a `u64`.
pub fn fallback_space_info(sectors: Option<String>, sector_size: Option<String>) -> (r: Option<
    SpaceInfo,
>)
    ensures
        match (sectors, sector_size) {
            (Some(a), Some(b)) => match r {
                Some(info) => number_or_zero(a@) * number_or_zero(b@) <= u64::MAX && info == (SpaceInfo {
                    total_space: (number_or_zero(a@) * number_or_zero(b@)) as u64,
                    free_space: 0,
                    used_space: 0,
                }),
                None => number_or_zero(a@) * number_or_zero(b@) > u64::MAX,
            },
            _ => r == Some(SpaceInfo { total_space: 0, free_space: 0, used_space: 0 }),
        },
{
    let total_space = match (sectors, sector_size) {
        (Some(a), Some(b)) => {
            let count = match parse_u64(trim(a.as_str()).as_str()) {
                Some(v) => v,
                None => 0,
            };
            let size = match parse_u64(trim(b.as_str()).as_str()) {
                Some(v) => v,
                None => 0,
            };
            match count.checked_mul(size) {
                Some(v) => v,
                None => return None,
            }
        },
        _ => 0,
    };
    Some(SpaceInfo { total_space, free_space: 0, used_space: 0 })
}

/// The kind of a disk, as the prefix of its kernel name tells.
#[derive(Copy, Clone, Debug, PartialEq, Eq, Structural)]
pub enum DiskType {
    Emmc,
    Nvme,
    Scsi,
    Test,
    Unknown,
    Virtual,
    Optical,
    Ide,
}

/// The kind of the disk called `name`: "sd" SCSI/SATA, "nvme" NVMe, "vd"
/// virtio, "hd" IDE, "mmcblk" eMMC/SD card, "sr" optical, tried in that
/// order; anything else unknown.
pub open spec fn disk_type_of(name: Seq<char>) -> DiskType {
    if has_prefix(name, "sd"@) {
        DiskType::Scsi
    } else if has_prefix(name, "nvme"@) {
        DiskType::Nvme
    } else if has_prefix(name, "vd"@) {
        DiskType::Virtual
    } else if has_prefix(name, "hd"@) {
        DiskType::Ide
    } else if has_prefix(name, "mmcblk"@) {
        DiskType::Emmc
    } else if has_prefix(name, "sr"@) {
        DiskType::Optical
    } else {
        DiskType::Unknown
    }
}

impl DiskType {
    /// The kind of the disk called `name`.
    pub fn from_name(name: &str) -> (r: DiskType)
        ensures
            r == disk_type_of(name@),
    {
        if starts_with(name, "sd") {
            DiskType::Scsi
        } else if starts_with(name, "nvme") {
            DiskType::Nvme
        } else if starts_with(name, "vd") {
            DiskType::Virtual
        } else if starts_with(name, "hd") {
            DiskType::Ide
        } else if starts_with(name, "mmcblk") {
            DiskType::Emmc
        } else if starts_with(name, "sr") {
            DiskType::Optical
        } else {
            DiskType::Unknown
        }
    }
}

/// What comparing the two texts as paths with `std::path::Path`'s `==`
/// gives: a comparison of their components.
pub uninterp spec fn same_path(a: Seq<char>, b: Seq<char>) -> bool;

/// Compares two paths with `std::path::Path`'s `==`, which compares their
/// components. What the comparison gives is only named: its rules on
/// separators and `.` components are not written out here.
#[verifier::external_body]
fn paths_equal(a: &str, b: &str) -> (r: bool)
    ensures
        r == same_path(a@, b@),
{
    std::path::Path::new(a) == std::path::Path::new(b)
}

/// Where a line of `/proc/mounts` says `device` is mounted: its second
/// field, when the line has at least two fields and its first is the same
/// path as `device`.
pub open spec fn mount_in_line(line: Seq<char>, device: Seq<char>) -> Option<Seq<char>> {
    let f = fields(line);
    if f.len() >= 2 && same_path(f[0], device) {
        Some(f[1])
    } else {
        None
    }
}

/// Where the line `line` of `/proc/mounts` says `device` is mounted, if it
/// speaks of `device`.
pub fn mount_point(line: &str, device: &str) -> (r: Option<String>)
    ensures
        match r {
            Some(p) => mount_in_line(line@, device@) == Some(p@),
            None => mount_in_line(line@, device@) is None,
        },
{
    let cs = chars_of(line);
    let spans = field_spans(&cs);
    if spans.len() < 2 {
        return None;
    }
    let (a0, b0) = spans[0];
    let (a1, b1) = spans[1];
    let first = line.substring_char(a0, b0);
    if paths_equal(first, device) {
        let mount = line.substring_char(a1, b1);
        Some(mount.to_owned())
    } else {
        None
    }
}

/// The partition number that the text of a `partition` attribute gives:
/// the number it holds, or 0 where it holds none.
pub open spec fn partition_number_of(value: Seq<char>) -> usize {
    match parse_unsigned(value, usize::MAX as nat) {
        Some(v) => v as usize,
        None => 0,
    }
}

/// The partition number that a `partition` attribute gives: the number it
/// holds, or 0 where it holds none.
pub fn partition_number(value: &str) -> (r: usize)
    ensures
        r == partition_number_of(value@),
{
    match parse_usize(value) {
        Some(v) => v,
        None => 0,
    }
}

/// What to do with one entry of a disk's sysfs directory while looking
/// for its partitions.
#[derive(Copy, Clone, Debug, PartialEq, Eq)]
pub enum PartitionEntry {
    /// Not a partition: the entry is no directory, or it has no readable
    /// `partition` attribute.
    Skip,
    /// A partition whose number is 0: read it, without an identifier.
    Read,
    /// A partition with this number: read it, and look its identifier up
    /// in the disk's partition table.
    ReadWithUuid(usize),
}

/// Decides what to do with an entry of a disk's sysfs directory, from
/// whether it is a directory and what its `partition` attribute holds, if
/// it could be read.
pub fn partition_entry(is_dir: bool, partition_attr: Option<&str>) -> (r: PartitionEntry)
    ensures
        r == match partition_attr {
            Some(v) if is_dir => if partition_number_of(v@) > 0 {
                PartitionEntry::ReadWithUuid(partition_number_of(v@))
            } else {
                PartitionEntry::Read
            },
            _ => PartitionEntry::Skip,
        },
{
    if !is_dir {
        return PartitionEntry::Skip;
    }
    match partition_attr {
        None => PartitionEntry::Skip,
        Some(v) => {
            let number = partition_number(v);
            if number > 0 {
                PartitionEntry::ReadWithUuid(number)
            } else {
                PartitionEntry::Read
            }
        },
    }
}

/// Reloading two batches of lines one after the other gives the same
/// counters as reloading them as one batch.
pub proof fn law_reload_in_batches(
    current: Map<Seq<char>, DiskCounters>,
    previous: Map<Seq<char>, DiskCounters>,
    first: Seq<Seq<char>>,
    second: Seq<Seq<char>>,
)
    ensures
        reload_counters(current, previous, first + second) == reload_counters(
            reload_counters(current, previous, first).0,
            reload_counters(current, previous, first).1,
            second,
        ),
    decreases second.len(),
{
    if second.len() == 0 {
        assert(first + second =~= first);
    } else {
        law_reload_in_batches(current, previous, first, second.drop_last());
        assert((first + second).drop_last() =~= first + second.drop_last());
        assert((first + second).last() == second.last());
    }
}

/// After a reload, the current counters of a device are those of the last
/// line that names it.
pub proof fn law_latest_line_wins(
    current: Map<Seq<char>, DiskCounters>,
    previous: Map<Seq<char>, DiskCounters>,
    lines: Seq<Seq<char>>,
    i: int,
)
    requires
        0 <= i < lines.len(),
        parsed_line(lines[i]) is Some,
        forall|j: int|
            i < j < lines.len() ==> !(#[trigger] parsed_line(lines[j]) matches Some((n, _)) && n
                == parsed_line(lines[i]).unwrap().0),
    ensures
        reload_counters(current, previous, lines).0.contains_key(parsed_line(lines[i]).unwrap().0),
        reload_counters(current, previous, lines).0[parsed_line(lines[i]).unwrap().0] == parsed_line(
            lines[i],
        ).unwrap().1,
    decreases lines.len(),
{
    let last = lines.len() - 1;
    if i < last {
        let init = lines.drop_last();
        assert forall|j: int| i < j < init.len() implies !(#[trigger] parsed_line(init[j]) matches Some(
            (n, _),
        ) && n == parsed_line(init[i]).unwrap().0) by {
            assert(init[j] == lines[j]);
        }
        law_latest_line_wins(current, previous, init, i);
        assert(parsed_line(lines[last]) matches Some((n, _)) ==> n != parsed_line(lines[i]).unwrap().0);
    }
}

/// A reload leaves the counters of a device that no line names as they
/// were.
pub proof fn law_unnamed_device_unchanged(
    current: Map<Seq<char>, DiskCounters>,
    previous: Map<Seq<char>, DiskCounters>,
    lines: Seq<Seq<char>>,
    name: Seq<char>,
)
    requires
        forall|j: int|
            0 <= j < lines.len() ==> !(#[trigger] parsed_line(lines[j]) matches Some((n, _)) && n
                == name),
    ensures
        reload_counters(current, previous, lines).0.get(name) == current.get(name),
        reload_counters(current, previous, lines).1.get(name) == previous.get(name),
    decreases lines.len(),
{
    if lines.len() > 0 {
        let init = lines.drop_last();
        assert forall|j: int| 0 <= j < init.len() implies !(#[trigger] parsed_line(init[j]) matches Some(
            (n, _),
        ) && n == name) by {
            assert(init[j] == lines[j]);
        }
        law_unnamed_device_unchanged(current, previous, init, name);
        assert(parsed_line(lines[lines.len() - 1]) matches Some((n, _)) ==> n != name);
    }
}

/// Two readings of a device one after the other: the second becomes its
/// current counters and the first its previous ones.
pub proof fn law_second_reading_keeps_first(
    current: Map<Seq<char>, DiskCounters>,
    previous: Map<Seq<char>, DiskCounters>,
    first: Seq<char>,
    second: Seq<char>,
)
    requires
        parsed_line(first) is Some,
        parsed_line(second) is Some,
        parsed_line(first).unwrap().0 == parsed_line(second).unwrap().0,
    ensures
        reload_counters(current, previous, seq![first, second]).0[parsed_line(first).unwrap().0]
            == parsed_line(second).unwrap().1,
        reload_counters(current, previous, seq![first, second]).1[parsed_line(first).unwrap().0]
            == parsed_line(first).unwrap().1,
{
    let lines = seq![first, second];
    let n = parsed_line(first).unwrap().0;
    assert(lines.drop_last() =~= seq![first]);
    assert(seq![first].drop_last() =~= Seq::<Seq<char>>::empty());
    assert(reload_counters(current, previous, Seq::<Seq<char>>::empty()) == (current, previous));
    let one = reload_counters(current, previous, seq![first]);
    assert(one.0 == current.insert(n, parsed_line(first).unwrap().1));
    assert(one.0.contains_key(n));
}

proof fn lemma_entries_unnamed_unchanged(
    current: Map<Seq<char>, DiskStats>,
    previous: Map<Seq<char>, DiskStats>,
    lines: Seq<Seq<char>>,
    stamps: Seq<Instant>,
    name: Seq<char>,
)
    requires
        forall|j: int|
            0 <= j < lines.len() ==> !(#[trigger] parsed_line(lines[j]) matches Some((n, _)) && n
                == name),
    ensures
        reload_entries(current, previous, lines, stamps).0.get(name) == current.get(name),
        reload_entries(current, previous, lines, stamps).1.get(name) == previous.get(name),
    decreases lines.len(),
{
    if lines.len() > 0 {
        let init = lines.drop_last();
        assert forall|j: int| 0 <= j < init.len() implies !(#[trigger] parsed_line(init[j]) matches Some(
            (n, _),
        ) && n == name) by {
            assert(init[j] == lines[j]);
        }
        lemma_entries_unnamed_unchanged(current, previous, init, stamps.drop_last(), name);
        assert(parsed_line(lines[lines.len() - 1]) matches Some((n, _)) ==> n != name);
    }
}

/// A reload in which one line, and only that one, names a device: the
/// device's current entry, clock reading included, becomes its previous
/// one (when it had none, its previous entry stays as it was), and the
/// line's counters, with that line's reading, become its current one.
pub proof fn law_single_reading_moves_entry_to_previous(
    current: Map<Seq<char>, DiskStats>,
    previous: Map<Seq<char>, DiskStats>,
    lines: Seq<Seq<char>>,
    stamps: Seq<Instant>,
    i: int,
)
    requires
        stamps.len() == lines.len(),
        0 <= i < lines.len(),
        parsed_line(lines[i]) is Some,
        forall|j: int|
            0 <= j < lines.len() && j != i ==> !(#[trigger] parsed_line(lines[j]) matches Some(
                (n, _),
            ) && n == parsed_line(lines[i]).unwrap().0),
    ensures
        ({
            let (n, c) = parsed_line(lines[i]).unwrap();
            let (cur, prev) = reload_entries(current, previous, lines, stamps);
            &&& cur.get(n) == Some(stamped(c, stamps[i]))
            &&& prev.get(n) == if current.contains_key(n) {
                Some(current[n])
            } else {
                previous.get(n)
            }
        }),
    decreases lines.len(),
{
    let n = parsed_line(lines[i]).unwrap().0;
    let last = lines.len() - 1;
    let init = lines.drop_last();
    if i < last {
        assert forall|j: int| 0 <= j < init.len() && j != i implies !(#[trigger] parsed_line(
            init[j],
        ) matches Some((k, _)) && k == parsed_line(init[i]).unwrap().0) by {
            assert(init[j] == lines[j]);
        }
        law_single_reading_moves_entry_to_previous(current, previous, init, stamps.drop_last(), i);
        assert(parsed_line(lines[last]) matches Some((k, _)) ==> k != n);
    } else {
        assert forall|j: int| 0 <= j < init.len() implies !(#[trigger] parsed_line(init[j]) matches Some(
            (k, _),
        ) && k == n) by {
            assert(init[j] == lines[j]);
        }
        lemma_entries_unnamed_unchanged(current, previous, init, stamps.drop_last(), n);
    }
}

/// Every reload keeps the devices that have a current entry, and when
/// each device with a previous entry has a current one, it stays so.
pub proof fn law_reload_keeps_names(
    current: Map<Seq<char>, DiskStats>,
    previous: Map<Seq<char>, DiskStats>,
    lines: Seq<Seq<char>>,
    stamps: Seq<Instant>,
)
    ensures
        current.dom().subset_of(reload_entries(current, previous, lines, stamps).0.dom()),
        previous.dom().subset_of(current.dom()) ==> reload_entries(
            current,
            previous,
            lines,
            stamps,
        ).1.dom().subset_of(reload_entries(current, previous, lines, stamps).0.dom()),
    decreases lines.len(),
{
    if lines.len() > 0 {
        law_reload_keeps_names(current, previous, lines.drop_last(), stamps.drop_last());
    }
}

/// A line of `/proc/diskstats` that parses gives the major and minor
/// device numbers of its first and second fields, the name in its third,
/// and the base counters of fields 3 to 13 in order, each field read as a
/// decimal number on its own.
pub proof fn law_parsed_line_reads_its_fields(line: Seq<char>)
    requires
        parsed_line(line) is Some,
    ensures
        ({
            let f = fields(line);
            let (n, c) = parsed_line(line).unwrap();
            &&& f.len() >= 14
            &&& n == f[2]
            &&& parse_unsigned(f[0], u32::MAX as nat) == Some(c.major as nat)
            &&& parse_unsigned(f[1], u32::MAX as nat) == Some(c.minor as nat)
            &&& parse_unsigned(f[3], u64::MAX as nat) == Some(c.reads_completed as nat)
            &&& parse_unsigned(f[4], u64::MAX as nat) == Some(c.reads_merged as nat)
            &&& parse_unsigned(f[5], u64::MAX as nat) == Some(c.sectors_read as nat)
            &&& parse_unsigned(f[6], u64::MAX as nat) == Some(c.ms_reading as nat)
            &&& parse_unsigned(f[7], u64::MAX as nat) == Some(c.writes_completed as nat)
            &&& parse_unsigned(f[8], u64::MAX as nat) == Some(c.writes_merged as nat)
            &&& parse_unsigned(f[9], u64::MAX as nat) == Some(c.sectors_written as nat)
            &&& parse_unsigned(f[10], u64::MAX as nat) == Some(c.ms_writing as nat)
            &&& parse_unsigned(f[11], u64::MAX as nat) == Some(c.io_in_progress as nat)
            &&& parse_unsigned(f[12], u64::MAX as nat) == Some(c.ms_io as nat)
            &&& parse_unsigned(f[13], u64::MAX as nat) == Some(c.weighted_ms_io as nat)
            &&& f.len() >= 20 ==> parse_unsigned(f[14], u64::MAX as nat) == match c.discards_completed {
                Some(v) => Some(v as nat),
                None => None,
            }
            &&& f.len() < 20 ==> c.discards_completed is None && c.flush_requests is None
        }),
{
}

/// A line parses whenever it has at least 14 fields, the first two are
/// `u32` numbers and fields 3 to 13 are `u64` numbers, whatever the name in
/// the third field and whatever follows.
pub proof fn law_line_parses_when_its_fields_do(line: Seq<char>)
    requires
        fields(line).len() >= 14,
        parse_unsigned(fields(line)[0], u32::MAX as nat) is Some,
        parse_unsigned(fields(line)[1], u32::MAX as nat) is Some,
        parse_unsigned(fields(line)[3], u64::MAX as nat) is Some,
        parse_unsigned(fields(line)[4], u64::MAX as nat) is Some,
        parse_unsigned(fields(line)[5], u64::MAX as nat) is Some,
        parse_unsigned(fields(line)[6], u64::MAX as nat) is Some,
        parse_unsigned(fields(line)[7], u64::MAX as nat) is Some,
        parse_unsigned(fields(line)[8], u64::MAX as nat) is Some,
        parse_unsigned(fields(line)[9], u64::MAX as nat) is Some,
        parse_unsigned(fields(line)[10], u64::MAX as nat) is Some,
        parse_unsigned(fields(line)[11], u64::MAX as nat) is Some,
        parse_unsigned(fields(line)[12], u64::MAX as nat) is Some,
        parse_unsigned(fields(line)[13], u64::MAX as nat) is Some,
    ensures
        parsed_line(line) is Some,
{
}

proof fn lemma_prefix_of_concat(p: Seq<char>, rest: Seq<char>)
    ensures
        has_prefix(p + rest, p),
{
    assert((p + rest).take(p.len() as int) =~= p);
}

proof fn lemma_not_prefix_of_concat(p: Seq<char>, rest: Seq<char>, q: Seq<char>, i: int)
    requires
        0 <= i < p.len(),
        i < q.len(),
        p[i] != q[i],
    ensures
        !has_prefix(p + rest, q),
{
    if has_prefix(p + rest, q) {
        assert((p + rest).take(q.len() as int)[i] == (p + rest)[i]);
    }
}

/// The kind of a disk depends only on the prefix of its name: every name
/// that begins with "sd" is SCSI (sda, sdb, sdaa, ...), with "nvme" NVMe,
/// with "vd" virtio, with "hd" IDE, with "mmcblk" eMMC and with "sr"
/// optical, whatever follows; a name with none of these prefixes is
/// unknown.
pub proof fn law_name_prefix_decides_kind(rest: Seq<char>, name: Seq<char>)
    ensures
        disk_type_of("sd"@ + rest) == DiskType::Scsi,
        disk_type_of("nvme"@ + rest) == DiskType::Nvme,
        disk_type_of("vd"@ + rest) == DiskType::Virtual,
        disk_type_of("hd"@ + rest) == DiskType::Ide,
        disk_type_of("mmcblk"@ + rest) == DiskType::Emmc,
        disk_type_of("sr"@ + rest) == DiskType::Optical,
        !has_prefix(name, "sd"@) && !has_prefix(name, "nvme"@) && !has_prefix(name, "vd"@)
            && !has_prefix(name, "hd"@) && !has_prefix(name, "mmcblk"@) && !has_prefix(name, "sr"@)
            ==> disk_type_of(name) == DiskType::Unknown,
{
    reveal_strlit("sd");
    reveal_strlit("nvme");
    reveal_strlit("vd");
    reveal_strlit("hd");
    reveal_strlit("mmcblk");
    reveal_strlit("sr");
    let (sd, nvme, vd, hd, mmc, sr) = ("sd"@, "nvme"@, "vd"@, "hd"@, "mmcblk"@, "sr"@);
    lemma_prefix_of_concat(sd, rest);
    lemma_prefix_of_concat(nvme, rest);
    lemma_prefix_of_concat(vd, rest);
    lemma_prefix_of_concat(hd, rest);
    lemma_prefix_of_concat(mmc, rest);
    lemma_prefix_of_concat(sr, rest);
    lemma_not_prefix_of_concat(nvme, rest, sd, 0);
    lemma_not_prefix_of_concat(vd, rest, sd, 0);
    lemma_not_prefix_of_concat(vd, rest, nvme, 0);
    lemma_not_prefix_of_concat(hd, rest, sd, 0);
    lemma_not_prefix_of_concat(hd, rest, nvme, 0);
    lemma_not_prefix_of_concat(hd, rest, vd, 0);
    lemma_not_prefix_of_concat(mmc, rest, sd, 0);
    lemma_not_prefix_of_concat(mmc, rest, nvme, 0);
    lemma_not_prefix_of_concat(mmc, rest, vd, 0);
    lemma_not_prefix_of_concat(mmc, rest, hd, 0);
    lemma_not_prefix_of_concat(sr, rest, sd, 1);
    lemma_not_prefix_of_concat(sr, rest, nvme, 0);
    lemma_not_prefix_of_concat(sr, rest, vd, 0);
    lemma_not_prefix_of_concat(sr, rest, hd, 0);
    lemma_not_prefix_of_concat(sr, rest, mmc, 0);
}

/// A counter that went down (it wraps or the device was reset) gives a rate
/// of zero, not a huge one.
pub proof fn law_rate_of_falling_counter(now: u64, before: u64, ms: u128)
    requires
        now <= before,
        ms > 0,
    ensures
        rate(now, before, ms) == 0,
{
    assert(sat_sub(now, before) == 0);
    assert(0u128 / ms == 0) by (nonlinear_arith)
        requires
            ms > 0,
    ;
}

fn usage_between(cur: &DiskStats, prev: &DiskStats, ms: u128) -> (r: DiskUsage)
    requires
        ms > 0,
    ensures
        r == usage_spec(*cur, Some(*prev), ms),
{
    let delta_read = (cur.sectors_read.saturating_sub(prev.sectors_read) as u128) / ms;
    let delta_written = (cur.sectors_written.saturating_sub(prev.sectors_written) as u128) / ms;
    assert(delta_read / 1000 <= u64::MAX) by (nonlinear_arith)
        requires
            delta_read == (cur.sectors_read.saturating_sub(prev.sectors_read) as u128) / ms,
            ms > 0,
    ;
    assert(delta_written / 1000 <= u64::MAX) by (nonlinear_arith)
        requires
            delta_written == (cur.sectors_written.saturating_sub(prev.sectors_written) as u128) / ms,
            ms > 0,
    ;
    DiskUsage {
        recently_read: (delta_read / 1000) as u64,
        recently_writen: (delta_written / 1000) as u64,
        total_read: cur.sectors_read,
        total_writen: cur.sectors_written,
    }
}

} // verus!
