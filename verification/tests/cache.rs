use semtools::cache::{artifact_path_of, join_path, lookup, sidecar_path_of, CacheEntry, FileIdentity};

fn identity(modified_time: u64, size: u64) -> FileIdentity {
    FileIdentity { path: "/in/report.pdf".to_string(), modified_time, size }
}

fn entry(modified_time: u64, size: u64) -> CacheEntry {
    CacheEntry { modified_time, size, parsed_path: "/cache/report.pdf.md".to_string() }
}

#[test]
fn lookup_hits_for_an_unchanged_file() {
    let hit = lookup(&Some(entry(1700000000, 4096)), &Some(identity(1700000000, 4096)));
    assert_eq!(hit, Some("/cache/report.pdf.md".to_string()));
}

#[test]
fn lookup_twice_gives_the_same_path() {
    let stored = Some(entry(5, 6));
    let current = Some(identity(5, 6));
    assert_eq!(lookup(&stored, &current), lookup(&stored, &current));
}

#[test]
fn lookup_misses_after_a_change_of_size() {
    assert_eq!(lookup(&Some(entry(1700000000, 4096)), &Some(identity(1700000000, 4097))), None);
}

#[test]
fn lookup_misses_after_a_change_of_time() {
    assert_eq!(lookup(&Some(entry(1700000000, 4096)), &Some(identity(1700000001, 4096))), None);
    assert_eq!(lookup(&Some(entry(1700000000, 4096)), &Some(identity(1699999999, 4096))), None);
}

#[test]
fn lookup_misses_without_a_sidecar() {
    assert_eq!(lookup(&None, &Some(identity(1, 2))), None);
}

#[test]
fn lookup_misses_when_the_file_cannot_be_examined() {
    assert_eq!(lookup(&Some(entry(1, 2)), &None), None);
    assert_eq!(lookup(&None, &None), None);
}

#[test]
fn lookup_ignores_the_path_of_the_identity() {
    let mut moved = identity(9, 9);
    moved.path = "/elsewhere/report.pdf".to_string();
    assert_eq!(lookup(&Some(entry(9, 9)), &Some(moved)), Some("/cache/report.pdf.md".to_string()));
}

#[test]
fn record_keeps_identity_and_primary_path() {
    let stored = CacheEntry::record(&identity(11, 22), "/cache/report.pdf.html");
    assert_eq!(stored.modified_time, 11);
    assert_eq!(stored.size, 22);
    assert_eq!(stored.parsed_path, "/cache/report.pdf.html");
    assert!(stored.is_valid_for(&identity(11, 22)));
    assert!(!stored.is_valid_for(&identity(11, 23)));
    assert!(!stored.is_valid_for(&identity(12, 22)));
}

#[test]
fn stored_entry_is_found_again() {
    let file = identity(1712345678, 123456);
    let stored = CacheEntry::record(&file, "/cache/report.pdf.md");
    assert_eq!(lookup(&Some(stored), &Some(file)), Some("/cache/report.pdf.md".to_string()));
}

#[test]
fn join_path_adds_one_separator() {
    assert_eq!(join_path("/home/u/.parse", "a.pdf.md"), "/home/u/.parse/a.pdf.md");
    assert_eq!(join_path("/home/u/.parse/", "a.pdf.md"), "/home/u/.parse/a.pdf.md");
    assert_eq!(join_path("", "a.pdf.md"), "a.pdf.md");
    assert_eq!(join_path("/", "x"), "/x");
    assert_eq!(join_path("rel", ""), "rel/");
}

#[test]
fn join_path_agrees_with_the_standard_library_on_plain_names() {
    for (dir, name) in [("/a/b", "c.md"), ("/a/b/", "c.md"), ("", "c"), ("a", "b.metadata.json")] {
        let expected = std::path::Path::new(dir).join(name).to_string_lossy().to_string();
        assert_eq!(join_path(dir, name), expected);
    }
}

#[test]
fn artifact_path_is_file_name_and_extension_in_the_cache() {
    assert_eq!(artifact_path_of("/cache", "report.pdf", "md"), "/cache/report.pdf.md");
    assert_eq!(artifact_path_of("/cache/", "report.pdf", "doctags"), "/cache/report.pdf.doctags");
    assert_eq!(artifact_path_of("", "x", "json"), "x.json");
}

#[test]
fn sidecar_path_ends_in_metadata_json() {
    assert_eq!(sidecar_path_of("/cache", "report.pdf"), "/cache/report.pdf.metadata.json");
    assert_eq!(sidecar_path_of("c", "a b.docx"), "c/a b.docx.metadata.json");
}
