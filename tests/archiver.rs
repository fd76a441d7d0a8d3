use folder_archiver::clock::{days_to_nanos, instant_nanos, qualifies, CivilDate, Timestamp};
use folder_archiver::digest::{content_digest, digests_equal, DIGEST_LEN};
use folder_archiver::layout::{destination_dir, join_path, push_decimal, push_signed_decimal};
use folder_archiver::relocate::{Action, Event, Outcome, Relocation, Stage};
use folder_archiver::station::{Config, SType, Station};
use folder_archiver::walker::{DirEntry, EntryKind, FileCandidate, Walker};
use std::collections::HashMap;

const DAY: i64 = 86_400;
// 2023-06-01T00:00:00Z and 2023-06-10T00:00:00Z
const JUNE_1: i64 = 1_685_577_600;
const JUNE_10: i64 = 1_686_355_200;

fn ts(secs: i64) -> Timestamp {
    Timestamp { secs, nanos: 0 }
}

fn config(only_copy: bool) -> Config {
    Config {
        input_dir: "in".to_string(),
        output_dir: "out".to_string(),
        time_limit: 5,
        only_copy,
        station: Station { line: 3, name: SType::AOI },
    }
}

fn june_first() -> CivilDate {
    CivilDate { year: 2023, month: 6, day: 1 }
}

/// Plays the actions of a relocation against files held in memory. The copy
/// writes `corrupt` instead of the source's bytes when it is given.
fn run(r: &mut Relocation, fs: &mut HashMap<String, Vec<u8>>, corrupt: Option<Vec<u8>>) -> (Outcome, Vec<String>) {
    let mut dirs = Vec::new();
    for _ in 0..10 {
        let event = match r.action() {
            Action::CreateDirAll { dir } => {
                dirs.push(dir);
                Event::Done
            }
            Action::ReadFile { path } => Event::Content(fs.get(&path).unwrap().clone()),
            Action::CopyFile { from, to } => {
                let bytes = match &corrupt {
                    Some(c) => c.clone(),
                    None => fs.get(&from).unwrap().clone(),
                };
                fs.insert(to, bytes);
                Event::Done
            }
            Action::RemoveFile { path } => {
                fs.remove(&path).unwrap();
                Event::Done
            }
            Action::Finish { outcome } => return (outcome, dirs),
        };
        assert!(r.advance(event));
    }
    panic!("relocation did not finish");
}

#[test]
fn station_tags() {
    assert_eq!(SType::SPI.as_str(), "SPI");
    assert_eq!(SType::AOI.as_str(), "AOI");
    assert_eq!(Station { line: 3, name: SType::AOI }.label(), "L3_AOI");
    assert_eq!(Station { line: 255, name: SType::SPI }.label(), "L255_SPI");
    assert_eq!(Station { line: 0, name: SType::SPI }.label(), "L0_SPI");
}

#[test]
fn decimal_forms() {
    let mut s = String::new();
    push_decimal(&mut s, 0);
    assert_eq!(s, "0");
    let mut s = "x".to_string();
    push_decimal(&mut s, 18_446_744_073_709_551_615);
    assert_eq!(s, "x18446744073709551615");
    let mut s = String::new();
    push_signed_decimal(&mut s, -42);
    assert_eq!(s, "-42");
    let mut s = String::new();
    push_signed_decimal(&mut s, i64::MIN);
    assert_eq!(s, "-9223372036854775808");
}

#[test]
fn destination_of_scenario() {
    let st = Station { line: 3, name: SType::AOI };
    let dir = destination_dir("out", &st, june_first());
    assert_eq!(dir, "out/L3_AOI/2023/6/1");
    assert_eq!(join_path(&dir, "result.csv"), "out/L3_AOI/2023/6/1/result.csv");
    let dec = destination_dir("/a", &st, CivilDate { year: 1999, month: 12, day: 31 });
    assert_eq!(dec, "/a/L3_AOI/1999/12/31");
    let neg = destination_dir("o", &st, CivilDate { year: -3, month: 1, day: 2 });
    assert_eq!(neg, "o/L3_AOI/-3/1/2");
}

#[test]
fn destination_is_deterministic() {
    let a = Relocation::plan(&config(false), "in/a/result.csv", "result.csv", june_first());
    let mut c = config(true);
    c.input_dir = "elsewhere".to_string();
    c.time_limit = 200;
    let b = Relocation::plan(&c, "in/b/c/result.csv", "result.csv", june_first());
    assert_eq!(a.destination_dir(), b.destination_dir());
    assert_eq!(a.destination_file(), b.destination_file());
}

#[test]
fn instants_and_limits() {
    assert_eq!(instant_nanos(Timestamp { secs: 2, nanos: 5 }), 2_000_000_005);
    assert_eq!(instant_nanos(Timestamp { secs: -1, nanos: 0 }), -1_000_000_000);
    assert_eq!(days_to_nanos(0), 0);
    assert_eq!(days_to_nanos(5), 432_000_000_000_000);
    assert_eq!(days_to_nanos(255), 255 * 86_400_000_000_000);
}

#[test]
fn threshold_boundary() {
    let now = ts(JUNE_10);
    assert!(!qualifies(now, ts(JUNE_10 - 5 * DAY), 5));
    assert!(qualifies(now, ts(JUNE_10 - 6 * DAY), 5));
    assert!(qualifies(now, Timestamp { secs: JUNE_10 - 5 * DAY - 1, nanos: 999_999_999 }, 5));
    assert!(!qualifies(now, ts(JUNE_10 - 4 * DAY), 5));
    // A file from the future never qualifies.
    assert!(!qualifies(now, ts(JUNE_10 + DAY), 0));
}

#[test]
fn zero_limit_takes_any_older_file() {
    let now = Timestamp { secs: 100, nanos: 10 };
    assert!(!qualifies(now, now, 0));
    assert!(qualifies(now, Timestamp { secs: 100, nanos: 9 }, 0));
}

#[test]
fn scenario_age() {
    assert!(qualifies(ts(JUNE_10), ts(JUNE_1), 5));
}

#[test]
fn digest_is_blake2b512() {
    let d = content_digest(b"abc");
    assert_eq!(d.len(), DIGEST_LEN);
    let hex: String = d.iter().map(|b| format!("{:02x}", b)).collect();
    assert_eq!(
        hex,
        "ba80a53f981c4d0d6a2797b69f12f6e94c212f14685ac4b74b12bb6fdbffa2d1\
         7d87c5392aab792dc252d5de4533cc9518d38aa8dbf1925ab92386edd4009923"
    );
}

#[test]
fn copy_digests_match_and_corruption_differs() {
    let source_bytes = b"line 1\nline 2\n".to_vec();
    let copy = source_bytes.clone();
    assert!(digests_equal(&content_digest(&source_bytes), &content_digest(&copy)));
    let mut bad = source_bytes.clone();
    bad[3] ^= 1;
    assert!(!digests_equal(&content_digest(&source_bytes), &content_digest(&bad)));
}

#[test]
fn digest_comparison() {
    assert!(digests_equal(&[], &[]));
    assert!(digests_equal(&[1, 2, 3], &[1, 2, 3]));
    assert!(!digests_equal(&[1, 2, 3], &[1, 2, 4]));
    assert!(!digests_equal(&[1, 2], &[1, 2, 3]));
}

#[test]
fn move_removes_source() {
    let mut fs = HashMap::new();
    fs.insert("in/result.csv".to_string(), b"a,b\n1,2\n".to_vec());
    fs.insert("in/other.csv".to_string(), b"x".to_vec());
    let mut r = Relocation::plan(&config(false), "in/result.csv", "result.csv", june_first());
    let (outcome, dirs) = run(&mut r, &mut fs, None);
    assert_eq!(outcome, Outcome::Moved);
    assert_eq!(dirs, vec!["out/L3_AOI/2023/6/1".to_string()]);
    assert!(!fs.contains_key("in/result.csv"));
    assert_eq!(fs.get("out/L3_AOI/2023/6/1/result.csv").unwrap(), &b"a,b\n1,2\n".to_vec());
    assert_eq!(fs.get("in/other.csv").unwrap(), &b"x".to_vec());
    assert_eq!(fs.len(), 2);
    assert!(r.is_finished());
}

#[test]
fn copy_only_keeps_source() {
    let mut fs = HashMap::new();
    fs.insert("in/result.csv".to_string(), b"data".to_vec());
    let mut r = Relocation::plan(&config(true), "in/result.csv", "result.csv", june_first());
    let (outcome, _) = run(&mut r, &mut fs, None);
    assert_eq!(outcome, Outcome::Copied);
    assert_eq!(fs.get("in/result.csv").unwrap(), &b"data".to_vec());
    assert_eq!(fs.get("out/L3_AOI/2023/6/1/result.csv").unwrap(), &b"data".to_vec());
}

#[test]
fn existing_destination_is_overwritten() {
    let mut fs = HashMap::new();
    fs.insert("in/result.csv".to_string(), b"new".to_vec());
    fs.insert("out/L3_AOI/2023/6/1/result.csv".to_string(), b"old".to_vec());
    let mut r = Relocation::plan(&config(false), "in/result.csv", "result.csv", june_first());
    let (outcome, _) = run(&mut r, &mut fs, None);
    assert_eq!(outcome, Outcome::Moved);
    assert_eq!(fs.get("out/L3_AOI/2023/6/1/result.csv").unwrap(), &b"new".to_vec());
    assert_eq!(fs.len(), 1);
}

#[test]
fn mismatch_removes_copy() {
    let mut fs = HashMap::new();
    fs.insert("in/result.csv".to_string(), b"good bytes".to_vec());
    let mut r = Relocation::plan(&config(false), "in/result.csv", "result.csv", june_first());
    let (outcome, _) = run(&mut r, &mut fs, Some(b"good bytez".to_vec()));
    assert_eq!(outcome, Outcome::ChecksumMismatch);
    assert_eq!(fs.get("in/result.csv").unwrap(), &b"good bytes".to_vec());
    assert!(!fs.contains_key("out/L3_AOI/2023/6/1/result.csv"));
    assert_eq!(fs.len(), 1);
}

#[test]
fn relocation_steps_in_order() {
    let mut r = Relocation::plan(&config(false), "in/f", "f", june_first());
    assert_eq!(r.stage(), Stage::PrepareDirectory);
    assert_eq!(r.source(), "in/f");
    // An answer that the step does not wait for changes nothing.
    assert!(!r.advance(Event::Content(vec![1])));
    assert_eq!(r.stage(), Stage::PrepareDirectory);
    assert!(r.advance(Event::Done));
    assert_eq!(r.stage(), Stage::DigestSource);
    assert!(!r.advance(Event::Done));
    assert!(r.advance(Event::Content(vec![1, 2])));
    assert_eq!(r.stage(), Stage::CopyFile);
    assert!(r.advance(Event::Done));
    assert_eq!(r.stage(), Stage::DigestDestination);
    assert!(r.advance(Event::Content(vec![1, 2])));
    assert_eq!(r.stage(), Stage::RemoveSource);
    assert!(r.advance(Event::Done));
    assert_eq!(r.stage(), Stage::Finished(Outcome::Moved));
    assert!(!r.advance(Event::Done));
    assert!(r.is_finished());
}

#[test]
fn scenario_example() {
    assert!(qualifies(ts(JUNE_10), ts(JUNE_1), 5));
    let content = b"board,result\n17,PASS\n".to_vec();
    let mut fs = HashMap::new();
    fs.insert("in/result.csv".to_string(), content.clone());
    let mut r = Relocation::plan(&config(false), "in/result.csv", "result.csv", june_first());
    assert_eq!(r.destination_file(), "out/L3_AOI/2023/6/1/result.csv");
    let (outcome, _) = run(&mut r, &mut fs, None);
    assert_eq!(outcome, Outcome::Moved);
    assert!(!fs.contains_key("in/result.csv"));
    let after = fs.get("out/L3_AOI/2023/6/1/result.csv").unwrap();
    assert!(digests_equal(&content_digest(&content), &content_digest(after)));
}

#[test]
fn start_dates_by_modification_time() {
    let cand = FileCandidate {
        path: "in/result.csv".to_string(),
        file_name: "result.csv".to_string(),
        modified: ts(JUNE_1 + 12 * 3600),
    };
    let r = Relocation::start(&config(false), &cand).unwrap();
    assert!(r.destination_dir().starts_with("out/L3_AOI/2023/"));
    assert!(r.destination_file().ends_with("/result.csv"));
    assert_eq!(r.source(), "in/result.csv");
}

fn file(dir: &str, name: &str, secs: i64) -> DirEntry {
    DirEntry { path: format!("{dir}/{name}"), file_name: name.to_string(), kind: EntryKind::File(ts(secs)) }
}

fn subdir(dir: &str, name: &str) -> DirEntry {
    DirEntry { path: format!("{dir}/{name}"), file_name: name.to_string(), kind: EntryKind::Directory }
}

fn listing(dir: &str) -> Vec<DirEntry> {
    match dir {
        "in" => vec![file(dir, "young.csv", JUNE_10 - DAY), subdir(dir, "a"), subdir(dir, "empty")],
        "in/a" => vec![subdir(dir, "b"), file(dir, "old1.csv", JUNE_1)],
        "in/a/b" => vec![subdir(dir, "c")],
        "in/a/b/c" => vec![file(dir, "old3.csv", JUNE_1), file(dir, "edge.csv", JUNE_10 - 5 * DAY)],
        "in/empty" => vec![],
        _ => panic!("unknown directory {dir}"),
    }
}

#[test]
fn walk_finds_nested_files() {
    let mut w = Walker::new("in", 5, ts(JUNE_10));
    assert_eq!(w.now(), ts(JUNE_10));
    let mut found = Vec::new();
    let mut listed = Vec::new();
    while let Some(dir) = w.next_directory() {
        let entries = listing(&dir);
        for c in w.visit(&entries) {
            found.push(c.path);
        }
        listed.push(dir);
    }
    assert!(w.is_done());
    found.sort();
    listed.sort();
    assert_eq!(found, vec!["in/a/b/c/old3.csv".to_string(), "in/a/old1.csv".to_string()]);
    assert_eq!(listed, vec!["in", "in/a", "in/a/b", "in/a/b/c", "in/empty"]);
}

#[test]
fn young_files_are_left_alone() {
    let mut w = Walker::new("in", 5, ts(JUNE_10));
    let _ = w.next_directory();
    let entries = vec![file("in", "young.csv", JUNE_10 - DAY), file("in", "edge.csv", JUNE_10 - 5 * DAY)];
    assert!(w.visit(&entries).is_empty());
    assert!(w.visit(&entries).is_empty());
    assert!(w.is_done());
}

#[test]
fn empty_directory_yields_nothing() {
    let mut w = Walker::new("in", 0, ts(JUNE_10));
    assert_eq!(w.next_directory(), Some("in".to_string()));
    assert!(w.visit(&Vec::new()).is_empty());
    assert_eq!(w.next_directory(), None);
}

#[test]
fn visit_returns_candidate_details() {
    let mut w = Walker::start("root", 0);
    let entries = vec![file("root", "x.txt", 0), subdir("root", "d")];
    let got = w.visit(&entries);
    assert_eq!(got.len(), 1);
    assert_eq!(got[0].path, "root/x.txt");
    assert_eq!(got[0].file_name, "x.txt");
    assert_eq!(got[0].modified, ts(0));
    assert_eq!(w.next_directory(), Some("root/d".to_string()));
    assert_eq!(w.next_directory(), Some("root".to_string()));
    assert_eq!(w.next_directory(), None);
}
