use dg_sysfs::classes::block::disk::{partition_entry, DiskStatsMap, DiskUsage, PartitionEntry};
use std::time::Instant;

const SDA: &str = "   8       0 sda 1000 20 48000 300 2000 40 96000 500 0 700 800 5 0 10 2 30 4";
const SDA_LATER: &str = "   8       0 sda 1100 20 60000 300 2100 40 99000 500 0 700 800 5 0 10 2 30 4";
const NVME_SHORT: &str = " 259 0 nvme0n1 1 2 3 4 5 6 7 8 9 10";

fn lines(v: &[&str]) -> Vec<String> {
    v.iter().map(|s| s.to_string()).collect()
}

fn wait_a_moment() {
    let t = Instant::now();
    while t.elapsed().as_millis() < 3 {}
}

#[test]
fn parse_line_reads_all_fields() {
    let (name, ds) = DiskStatsMap::parse_line(SDA).unwrap();
    assert_eq!(name, "sda");
    assert_eq!(ds.major, 8);
    assert_eq!(ds.minor, 0);
    assert_eq!(ds.reads_completed, 1000);
    assert_eq!(ds.reads_merged, 20);
    assert_eq!(ds.sectors_read, 48000);
    assert_eq!(ds.ms_reading, 300);
    assert_eq!(ds.writes_completed, 2000);
    assert_eq!(ds.writes_merged, 40);
    assert_eq!(ds.sectors_written, 96000);
    assert_eq!(ds.ms_writing, 500);
    assert_eq!(ds.io_in_progress, 0);
    assert_eq!(ds.ms_io, 700);
    assert_eq!(ds.weighted_ms_io, 800);
    assert_eq!(ds.discards_completed, Some(5));
    assert_eq!(ds.discards_merged, Some(0));
    assert_eq!(ds.sectors_discarded, Some(10));
    assert_eq!(ds.ms_discarding, Some(2));
    assert_eq!(ds.flush_requests, Some(30));
    assert_eq!(ds.ms_flushing, Some(4));
}

#[test]
fn parse_line_without_extended_fields() {
    let line = "8 1 sda1 1 2 3 4 5 6 7 8 9 10 11 12 13";
    let (name, ds) = DiskStatsMap::parse_line(line).unwrap();
    assert_eq!(name, "sda1");
    assert_eq!(ds.weighted_ms_io, 11);
    assert_eq!(ds.discards_completed, None);
    assert_eq!(ds.ms_flushing, None);
}

#[test]
fn parse_line_extended_field_that_is_no_number() {
    let line = "8 0 sda 1 2 3 4 5 6 7 8 9 10 11 x 2 3 4 5 6";
    let (_, ds) = DiskStatsMap::parse_line(line).unwrap();
    assert_eq!(ds.discards_completed, None);
    assert_eq!(ds.discards_merged, Some(2));
}

#[test]
fn parse_line_rejects_short_and_bad_lines() {
    assert!(DiskStatsMap::parse_line(NVME_SHORT).is_none());
    assert!(DiskStatsMap::parse_line("").is_none());
    assert!(DiskStatsMap::parse_line("8 0 sda 1 2 3 4 5 6 7 8 9 -10 11").is_none());
    assert!(DiskStatsMap::parse_line("4294967296 0 sda 1 2 3 4 5 6 7 8 9 10 11").is_none());
    assert!(DiskStatsMap::parse_line("8 0 sda 18446744073709551616 2 3 4 5 6 7 8 9 10 11").is_none());
}

#[test]
fn parse_line_accepts_plus_sign_and_tabs() {
    let (_, ds) = DiskStatsMap::parse_line("+8\t0\tsda\t1 2 3 4 5 6 7 8 9 10 +11").unwrap();
    assert_eq!(ds.major, 8);
    assert_eq!(ds.weighted_ms_io, 11);
}

#[test]
fn parse_keeps_last_line_per_device() {
    let map = DiskStatsMap::parse(&lines(&[SDA, "garbage", SDA_LATER]));
    assert_eq!(map.get("sda").unwrap().sectors_read, 60000);
    assert!(map.get("sdb").is_none());
    let u = map.get_disk_usage("sda").unwrap();
    assert_eq!(
        u,
        DiskUsage { recently_read: 0, recently_writen: 0, total_read: 60000, total_writen: 99000 }
    );
}

#[test]
fn default_map_is_empty() {
    let map = DiskStatsMap::default();
    assert!(map.get("sda").is_none());
    assert!(map.get_disk_usage("sda").is_none());
}

#[test]
fn reload_keeps_previous_reading() {
    let mut map = DiskStatsMap::parse(&lines(&[SDA]));
    wait_a_moment();
    map.reload(&lines(&[SDA_LATER]));
    assert_eq!(map.get("sda").unwrap().sectors_read, 60000);
    let u = map.usage_after("sda", 2).unwrap();
    assert_eq!(u.total_read, 60000);
    assert_eq!(u.total_writen, 99000);
    assert_eq!(u.recently_read, (60000 - 48000) / 2 / 1000);
    assert_eq!(u.recently_writen, (99000 - 96000) / 2 / 1000);
}

#[test]
fn get_disk_usage_after_two_readings() {
    let mut map = DiskStatsMap::parse(&lines(&[SDA]));
    wait_a_moment();
    map.reload_line(SDA_LATER);
    let u = map.get_disk_usage("sda").unwrap();
    assert_eq!(u.total_read, 60000);
    assert_eq!(u.total_writen, 99000);
    assert!(u.recently_read <= 12000 / 1000 / 3);
}

#[test]
fn usage_rates_with_one_second() {
    let mut map = DiskStatsMap::parse(&lines(&["8 0 sda 0 0 1000 0 0 0 0 0 0 0 0"]));
    map.reload_line("8 0 sda 0 0 5001000 0 0 0 2000000 0 0 0 0");
    let u = map.usage_after("sda", 1000).unwrap();
    assert_eq!(u.recently_read, 5);
    assert_eq!(u.recently_writen, 2);
}

#[test]
fn usage_of_falling_counter_is_zero() {
    let mut map = DiskStatsMap::parse(&lines(&[SDA_LATER]));
    map.reload_line(SDA);
    let u = map.usage_after("sda", 1).unwrap();
    assert_eq!(u.recently_read, 0);
    assert_eq!(u.recently_writen, 0);
    assert_eq!(u.total_read, 48000);
}

#[test]
fn reload_ignores_unparsable_lines_and_keeps_other_devices() {
    let mut map = DiskStatsMap::parse(&lines(&[SDA, "8 16 sdb 1 2 3 4 5 6 7 8 9 10 11"]));
    map.reload(&lines(&["nonsense", NVME_SHORT, SDA_LATER]));
    assert_eq!(map.get("sdb").unwrap().sectors_read, 3);
    assert_eq!(map.usage_after("sdb", 1).unwrap().recently_read, 0);
    assert!(map.get("nvme0n1").is_none());
}

#[test]
fn reload_in_batches_equals_one_batch() {
    let mut a = DiskStatsMap::default();
    a.reload(&lines(&[SDA]));
    a.reload(&lines(&[SDA_LATER]));
    let mut b = DiskStatsMap::default();
    b.reload(&lines(&[SDA, SDA_LATER]));
    assert_eq!(a.get("sda").unwrap().sectors_read, b.get("sda").unwrap().sectors_read);
    assert_eq!(a.usage_after("sda", 4), b.usage_after("sda", 4));
}

#[test]
fn reload_moves_whole_entry_to_previous() {
    let mut map = DiskStatsMap::parse(&lines(&[SDA]));
    let first = map.get("sda").unwrap();
    wait_a_moment();
    map.reload(&lines(&[SDA_LATER]));
    let second = map.get("sda").unwrap();
    assert!(second.timestamp > first.timestamp);
    let ms = second.timestamp.duration_since(first.timestamp).as_millis();
    assert!(ms >= 3);
    let u = map.get_disk_usage("sda").unwrap();
    assert_eq!(u, map.usage_after("sda", ms).unwrap());
    assert_eq!(u.recently_read, ((60000u128 - 48000) / ms / 1000) as u64);
}

#[test]
fn readings_in_the_same_millisecond_are_refused() {
    let mut map = DiskStatsMap::parse(&lines(&[SDA]));
    let first = map.get("sda").unwrap();
    map.reload_line(SDA_LATER);
    let cur = map.get("sda").unwrap();
    let ms = cur.timestamp.duration_since(first.timestamp).as_millis();
    match map.checked_disk_usage("sda") {
        None => assert_eq!(ms, 0),
        Some(u) => {
            assert!(ms > 0);
            assert_eq!(u, map.usage_after("sda", ms));
        }
    }
}

#[test]
fn checked_usage_of_unknown_or_single_reading() {
    let map = DiskStatsMap::parse(&lines(&[SDA]));
    assert_eq!(map.checked_disk_usage("sdb"), Some(None));
    assert_eq!(map.checked_disk_usage("sda"), Some(map.get_disk_usage("sda")));
}

#[test]
fn disk_usage_without_previous_reading_has_zero_rates() {
    let map = DiskStatsMap::parse(&lines(&[SDA]));
    assert_eq!(
        map.get_disk_usage("sda"),
        Some(DiskUsage { recently_read: 0, recently_writen: 0, total_read: 48000, total_writen: 96000 })
    );
}

#[test]
fn previous_devices_stay_among_current_ones() {
    let mut map = DiskStatsMap::parse(&lines(&[SDA]));
    map.reload(&lines(&["8 16 sdb 1 2 3 4 5 6 7 8 9 10 11", SDA_LATER]));
    map.reload(&lines(&["nonsense"]));
    assert!(map.get("sda").is_some());
    assert!(map.get("sdb").is_some());
    assert_eq!(map.usage_after("sdb", 1).unwrap().recently_read, 0);
}

#[test]
fn partition_entries() {
    assert_eq!(partition_entry(false, Some("1")), PartitionEntry::Skip);
    assert_eq!(partition_entry(true, None), PartitionEntry::Skip);
    assert_eq!(partition_entry(true, Some("3")), PartitionEntry::ReadWithUuid(3));
    assert_eq!(partition_entry(true, Some("0")), PartitionEntry::Read);
    assert_eq!(partition_entry(true, Some("x")), PartitionEntry::Read);
}
