use cpv::{
    check_parent, choose_mode, decimal_text, get_total_size, next_read_step, parent, plan_entry,
    resolve_target_path, strip_prefix, summary_text, Component, CopyError, CopyOptions, CopyStats,
    Kind, Mode, ReadStep, SizedEntry, Step,
};

fn path(names: &[&str]) -> Vec<Component> {
    let mut p = vec![Component::Root, Component::Normal(b"tmp".to_vec())];
    for n in names {
        p.push(Component::Normal(n.as_bytes().to_vec()));
    }
    p
}

fn options(recursive: bool) -> CopyOptions {
    CopyOptions { preserve_attrs: false, force: false, verbose: false, recursive }
}

#[test]
fn single_file_of_twelve_bytes() {
    let source = path(&["source.txt"]);
    let dest = path(&["dest.txt"]);
    assert!(matches!(choose_mode(&source, Kind::File, &options(false)), Ok(Mode::SingleFile)));
    let target = resolve_target_path(&source, &dest, false).unwrap();
    assert_eq!(target, dest);
    let mut copied: u64 = 0;
    for n in [12usize, 0] {
        match next_read_step(copied, n).unwrap() {
            ReadStep::Wrote(total) => copied = total,
            ReadStep::Finished => break,
        }
    }
    assert_eq!(copied, 12);
    let mut stats = CopyStats::new();
    stats.record(Kind::File, copied).unwrap();
    assert_eq!(stats.files_copied, 1);
    assert_eq!(stats.bytes_copied, 12);
    assert_eq!(stats.dirs_created, 0);
}

#[test]
fn directory_of_two_files() {
    let source = path(&["source_dir"]);
    let dest = path(&["dest_dir"]);
    assert!(matches!(choose_mode(&source, Kind::Directory, &options(true)), Ok(Mode::Tree)));
    let root = resolve_target_path(&source, &dest, false).unwrap();
    assert_eq!(root, dest);
    let entries = vec![
        (path(&["source_dir"]), Kind::Directory, 0u64),
        (path(&["source_dir", "file1.txt"]), Kind::File, 8),
        (path(&["source_dir", "file2.txt"]), Kind::File, 8),
    ];
    let sized: Vec<SizedEntry> =
        entries.iter().map(|(_, kind, len)| SizedEntry { kind: *kind, len: *len }).collect();
    assert_eq!(get_total_size(&sized), 16);
    let mut stats = CopyStats::new();
    let mut targets = Vec::new();
    for (entry, kind, len) in &entries {
        match plan_entry(&source, &root, entry, *kind).unwrap() {
            Step::MakeDir(d) => {
                assert_eq!(d, dest);
                stats.record(Kind::Directory, 0).unwrap();
            }
            Step::CopyFile { target, parent } => {
                assert_eq!(parent, Some(dest.clone()));
                targets.push(target);
                stats.record(Kind::File, *len).unwrap();
            }
            Step::Skip => panic!("no entry is skipped"),
        }
    }
    assert_eq!(stats.files_copied, 2);
    assert_eq!(stats.bytes_copied, 16);
    assert_eq!(stats.dirs_created, 1);
    assert_eq!(targets, vec![path(&["dest_dir", "file1.txt"]), path(&["dest_dir", "file2.txt"])]);
}

#[test]
fn empty_directory_without_recursion_is_refused() {
    let source = path(&["source_dir"]);
    match choose_mode(&source, Kind::Directory, &options(false)) {
        Err(CopyError::IsADirectory(p)) => assert_eq!(p, source),
        other => panic!("unexpected {:?}", other),
    }
}

#[test]
fn other_source_kinds() {
    let source = path(&["fifo"]);
    assert!(matches!(choose_mode(&source, Kind::Other, &options(false)), Ok(Mode::Nothing)));
    assert!(matches!(choose_mode(&source, Kind::Other, &options(true)), Ok(Mode::Tree)));
    assert!(matches!(choose_mode(&source, Kind::File, &options(true)), Ok(Mode::SingleFile)));
}

#[test]
fn file_into_existing_directory_keeps_its_name() {
    let source = path(&["a", "source.txt"]);
    let dest = path(&["out"]);
    let target = resolve_target_path(&source, &dest, true).unwrap();
    assert_eq!(target, path(&["out", "source.txt"]));
}

#[test]
fn directory_into_existing_directory_nests() {
    let source = path(&["source"]);
    let dest = path(&["dest"]);
    let root = resolve_target_path(&source, &dest, true).unwrap();
    assert_eq!(root, path(&["dest", "source"]));
    let step = plan_entry(&source, &root, &path(&["source", "subdir", "file2.txt"]), Kind::File);
    assert_eq!(
        step.unwrap(),
        Step::CopyFile {
            target: path(&["dest", "source", "subdir", "file2.txt"]),
            parent: Some(path(&["dest", "source", "subdir"])),
        }
    );
}

#[test]
fn source_without_name_has_no_target_inside_directory() {
    let source = vec![Component::Root];
    let dest = path(&["dest"]);
    assert_eq!(resolve_target_path(&source, &dest, true), None);
    let parent_dir = vec![Component::Parent];
    assert_eq!(resolve_target_path(&parent_dir, &dest, true), None);
    assert_eq!(resolve_target_path(&source, &dest, false), Some(dest.clone()));
}

#[test]
fn entry_outside_source_is_an_error() {
    let source = path(&["source"]);
    let root = path(&["dest"]);
    let r = plan_entry(&source, &root, &path(&["elsewhere", "f"]), Kind::File);
    assert!(matches!(r, Err(CopyError::Other(_))));
    let r = plan_entry(&source, &root, &path(&["elsewhere"]), Kind::Other);
    assert!(matches!(r, Err(CopyError::Other(_))));
}

#[test]
fn other_entries_are_skipped() {
    let source = path(&["source"]);
    let root = path(&["dest"]);
    let r = plan_entry(&source, &root, &path(&["source", "link"]), Kind::Other);
    assert_eq!(r.unwrap(), Step::Skip);
    let mut stats = CopyStats::new();
    stats.record(Kind::Other, 99).unwrap();
    assert_eq!((stats.bytes_copied, stats.files_copied, stats.dirs_created), (0, 0, 0));
}

#[test]
fn total_size_counts_files_only_and_caps() {
    let entries = vec![
        SizedEntry { kind: Kind::Directory, len: 4096 },
        SizedEntry { kind: Kind::File, len: 5 },
        SizedEntry { kind: Kind::Other, len: 7 },
        SizedEntry { kind: Kind::File, len: 5 },
    ];
    assert_eq!(get_total_size(&entries), 10);
    assert_eq!(get_total_size(&Vec::new()), 0);
    let huge = vec![
        SizedEntry { kind: Kind::File, len: u64::MAX },
        SizedEntry { kind: Kind::File, len: 1 },
    ];
    assert_eq!(get_total_size(&huge), u64::MAX);
}

#[test]
fn large_file_in_buffer_sized_chunks() {
    let mut copied: u64 = 0;
    let mut reads = vec![cpv::BUFFER_SIZE; 128];
    reads.push(0);
    for n in reads {
        match next_read_step(copied, n).unwrap() {
            ReadStep::Wrote(total) => copied = total,
            ReadStep::Finished => break,
        }
    }
    assert_eq!(copied, 1024 * 1024);
}

#[test]
fn read_count_overflow_is_an_error() {
    assert!(matches!(next_read_step(u64::MAX, 1), Err(CopyError::Other(_))));
    assert_eq!(next_read_step(u64::MAX, 0).unwrap(), ReadStep::Finished);
}

#[test]
fn stats_overflow_is_an_error_and_changes_nothing() {
    let mut stats = CopyStats::new();
    stats.record(Kind::File, u64::MAX).unwrap();
    assert!(matches!(stats.record(Kind::File, 1), Err(CopyError::Other(_))));
    assert_eq!(stats.bytes_copied, u64::MAX);
    assert_eq!(stats.files_copied, 1);
}

#[test]
fn repeated_copy_counts_the_same() {
    let run = || {
        let mut stats = CopyStats::new();
        stats.record(Kind::Directory, 0).unwrap();
        stats.record(Kind::File, 5).unwrap();
        stats.record(Kind::File, 5).unwrap();
        (stats.bytes_copied, stats.files_copied, stats.dirs_created)
    };
    assert_eq!(run(), run());
    assert_eq!(run(), (10, 2, 1));
}

#[test]
fn paths_split_and_join() {
    let base = path(&["a"]);
    let full = path(&["a", "b", "c"]);
    let rest = strip_prefix(&full, &base).unwrap();
    assert_eq!(rest, vec![Component::Normal(b"b".to_vec()), Component::Normal(b"c".to_vec())]);
    assert_eq!(cpv::join(&base, &rest), full);
    assert_eq!(strip_prefix(&base, &full), None);
    assert_eq!(parent(&vec![Component::Root]), None);
    assert_eq!(parent(&Vec::new()), None);
    assert_eq!(parent(&vec![Component::Normal(b"a".to_vec())]), Some(Vec::new()));
    assert_eq!(cpv::file_name(&full), Some(b"c".to_vec()));
}

#[test]
fn decimal_counts() {
    assert_eq!(decimal_text(0), "0");
    assert_eq!(decimal_text(7), "7");
    assert_eq!(decimal_text(1234), "1234");
    assert_eq!(decimal_text(usize::MAX), usize::MAX.to_string());
}

#[test]
fn summary_line() {
    assert_eq!(summary_text("12 B", 1, "0.50"), "Copied 12 B in 1 files (0.50 MB/s)");
    let mut stats = CopyStats::new();
    stats.record(Kind::File, 12).unwrap();
    assert_eq!(stats.format_summary("0.50"), "Copied 12 B in 1 files (0.50 MB/s)");
    let mut stats = CopyStats::new();
    stats.record(Kind::File, 1024 * 1024).unwrap();
    stats.record(Kind::File, 512 * 1024).unwrap();
    assert_eq!(stats.format_summary("3.14"), "Copied 1.50 MiB in 2 files (3.14 MB/s)");
}

#[test]
fn finish_keeps_counts() {
    let mut stats = CopyStats::new();
    stats.record(Kind::File, 3).unwrap();
    stats.finish(std::time::Duration::from_millis(250));
    assert_eq!(stats.time_taken, std::time::Duration::from_millis(250));
    assert_eq!(stats.bytes_copied, 3);
}

#[test]
fn kinds_from_file_types() {
    assert_eq!(Kind::classify(true, false), Kind::Directory);
    assert_eq!(Kind::classify(false, true), Kind::File);
    assert_eq!(Kind::classify(false, false), Kind::Other);
    assert_eq!(Kind::classify(true, true), Kind::Directory);
}

#[test]
fn parent_that_is_a_file_is_refused() {
    let dir = path(&["nonexistent"]);
    assert!(check_parent(&dir, false, false).is_ok());
    assert!(check_parent(&dir, true, true).is_ok());
    match check_parent(&dir, true, false) {
        Err(CopyError::NotADirectory(p)) => assert_eq!(p, dir),
        other => panic!("unexpected {:?}", other),
    }
}

#[test]
fn default_stats_are_empty() {
    let stats = CopyStats::default();
    assert_eq!((stats.bytes_copied, stats.files_copied, stats.dirs_created), (0, 0, 0));
    assert_eq!(stats.time_taken, std::time::Duration::ZERO);
    assert_eq!(CopyStats::new().time_taken, std::time::Duration::ZERO);
}

#[test]
fn names_that_are_not_text_keep_their_bytes() {
    let source = vec![Component::Root, Component::Normal(vec![0x66, 0xff, 0xfe])];
    let dest = path(&["out"]);
    let target = resolve_target_path(&source, &dest, true).unwrap();
    let mut expected = path(&["out"]);
    expected.push(Component::Normal(vec![0x66, 0xff, 0xfe]));
    assert_eq!(target, expected);
    let other = vec![Component::Root, Component::Normal(vec![0x66, 0xff, 0xfd])];
    assert_eq!(strip_prefix(&other, &source), None);
}

#[test]
fn record_keeps_time_taken() {
    let mut stats = CopyStats::new();
    stats.finish(std::time::Duration::from_secs(2));
    stats.record(Kind::Directory, 0).unwrap();
    stats.record(Kind::File, 4).unwrap();
    assert_eq!(stats.time_taken, std::time::Duration::from_secs(2));
}
