use semtools::config::DoclingConfig;
use semtools::error::JobError;
use semtools::local::{
    find_output, temp_dir_name, Action, Event, LocalJob, OutputCandidate, ReadOutcome, Run, Stage,
};

fn candidate(path: &str, extension: Option<&str>) -> OutputCandidate {
    OutputCandidate { path: path.to_string(), extension: extension.map(String::from) }
}

fn job() -> LocalJob {
    LocalJob::new(
        &DoclingConfig::default(),
        "/in/report.pdf",
        Some("report"),
        "/tmp",
        4321,
        1700000123456,
        0,
    )
}

fn failure(action: Action) -> String {
    match action {
        Action::Finish(Err(JobError::InvalidResponse(text))) => text,
        other => panic!("unexpected action {other:?}"),
    }
}

fn removal(action: Action) -> String {
    match action {
        Action::RemoveDir { dir } => dir,
        other => panic!("unexpected action {other:?}"),
    }
}

fn run_until_output(job: &mut LocalJob) {
    assert!(matches!(job.step(Event::Begin), Action::CheckInput { .. }));
    assert!(matches!(job.step(Event::InputFound(true)), Action::CreateDir { .. }));
    assert!(matches!(job.step(Event::DirCreated(Ok(()))), Action::Execute { .. }));
    let ran = Event::Ran(Ok(Run { success: true, stderr: String::new() }));
    assert!(matches!(job.step(ran), Action::ReadFile { .. }));
}

#[test]
fn temp_dir_name_is_made_of_pid_and_clock() {
    assert_eq!(temp_dir_name(4321, 1700000123456, 0), "docling_4321123456_0");
    assert_eq!(temp_dir_name(0, 0, 0), "docling_0_0");
    assert_eq!(temp_dir_name(1, 999999, 3), "docling_1999999_3");
    assert_eq!(temp_dir_name(1, 1000000, 12), "docling_1000000_12");
    assert_eq!(temp_dir_name(7, 5, 9), "docling_7000005_9");
}

#[test]
fn temp_dir_name_of_the_largest_inputs() {
    assert_eq!(
        temp_dir_name(u32::MAX, u64::MAX, u64::MAX),
        "docling_4294967295551615_18446744073709551615"
    );
}

#[test]
fn find_output_takes_the_first_file_with_the_format() {
    let entries = vec![
        candidate("/w/a.json", Some("json")),
        candidate("/w/noext", None),
        candidate("/w/b.md", Some("md")),
        candidate("/w/c.md", Some("md")),
    ];
    assert_eq!(find_output(&entries, "md"), Some(2));
    assert_eq!(find_output(&entries, "json"), Some(0));
    assert_eq!(find_output(&entries, "html"), None);
    assert_eq!(find_output(&entries, "MD"), None);
    assert_eq!(find_output(&vec![], "md"), None);
}

#[test]
fn new_job_knows_its_directory_arguments_and_expected_file() {
    let job = job();
    assert_eq!(job.stage, Stage::Created);
    assert_eq!(job.file_path, "/in/report.pdf");
    assert_eq!(job.temp_dir, "/tmp/docling_4321123456_0");
    assert_eq!(job.expected_output, "/tmp/docling_4321123456_0/report.md");
    assert_eq!(job.format, "md");
    assert_eq!(
        job.args,
        vec!["/in/report.pdf", "--to", "md", "--output", "/tmp/docling_4321123456_0"]
            .into_iter()
            .map(String::from)
            .collect::<Vec<String>>()
    );
    assert!(job.outcome.is_none());
}

#[test]
fn job_without_a_stem_expects_a_file_called_output() {
    let mut config = DoclingConfig::default();
    config.output_format = "html".to_string();
    let job = LocalJob::new(&config, "..", None, "/tmp/", 1, 2, 4);
    assert_eq!(job.temp_dir, "/tmp/docling_1000002_4");
    assert_eq!(job.expected_output, "/tmp/docling_1000002_4/output.html");
}

#[test]
fn successful_conversion_reads_the_expected_file_and_cleans_up() {
    let mut job = job();
    match job.step(Event::Begin) {
        Action::CheckInput { path } => assert_eq!(path, "/in/report.pdf"),
        other => panic!("unexpected action {other:?}"),
    }
    assert_eq!(job.stage, Stage::CheckingInput);
    match job.step(Event::InputFound(true)) {
        Action::CreateDir { dir } => assert_eq!(dir, "/tmp/docling_4321123456_0"),
        other => panic!("unexpected action {other:?}"),
    }
    match job.step(Event::DirCreated(Ok(()))) {
        Action::Execute { args } => assert_eq!(args, job.args),
        other => panic!("unexpected action {other:?}"),
    }
    assert_eq!(job.stage, Stage::Running);
    match job.step(Event::Ran(Ok(Run { success: true, stderr: "warning".to_string() }))) {
        Action::ReadFile { path } => assert_eq!(path, "/tmp/docling_4321123456_0/report.md"),
        other => panic!("unexpected action {other:?}"),
    }
    let action = job.step(Event::Read(ReadOutcome::Content("# Report".to_string())));
    assert_eq!(removal(action), "/tmp/docling_4321123456_0");
    assert_eq!(job.stage, Stage::Cleaning);
    match job.step(Event::Removed) {
        Action::Finish(Ok(text)) => assert_eq!(text, "# Report"),
        other => panic!("unexpected action {other:?}"),
    }
    assert_eq!(job.stage, Stage::Finished);
}

#[test]
fn missing_input_ends_the_job_before_anything_is_created() {
    let mut job = job();
    job.step(Event::Begin);
    let action = job.step(Event::InputFound(false));
    assert_eq!(failure(action), "File not found: /in/report.pdf");
    assert_eq!(job.stage, Stage::Finished);
}

#[test]
fn failed_directory_creation_is_reported_after_clean_up() {
    let mut job = job();
    job.step(Event::Begin);
    job.step(Event::InputFound(true));
    let action = job.step(Event::DirCreated(Err("permission denied".to_string())));
    assert_eq!(removal(action), "/tmp/docling_4321123456_0");
    assert_eq!(failure(job.step(Event::Removed)), "Failed to create temp directory: permission denied");
}

#[test]
fn executable_that_cannot_be_started_fails_the_file_after_clean_up() {
    let mut job = job();
    job.step(Event::Begin);
    job.step(Event::InputFound(true));
    job.step(Event::DirCreated(Ok(())));
    let action = job.step(Event::Ran(Err("No such file or directory".to_string())));
    assert_eq!(removal(action), "/tmp/docling_4321123456_0");
    assert_eq!(failure(job.step(Event::Removed)), "Failed to execute docling: No such file or directory");
}

#[test]
fn failed_run_reports_standard_error_after_clean_up() {
    let mut job = job();
    job.step(Event::Begin);
    job.step(Event::InputFound(true));
    job.step(Event::DirCreated(Ok(())));
    let action = job.step(Event::Ran(Ok(Run { success: false, stderr: "bad pdf".to_string() })));
    assert_eq!(removal(action), "/tmp/docling_4321123456_0");
    assert_eq!(job.stage, Stage::Cleaning);
    assert_eq!(failure(job.step(Event::Removed)), "Docling command failed: bad pdf");
}

#[test]
fn unreadable_output_fails_the_file_after_clean_up() {
    let mut job = job();
    run_until_output(&mut job);
    let action = job.step(Event::Read(ReadOutcome::Unreadable("invalid utf-8".to_string())));
    assert_eq!(removal(action), "/tmp/docling_4321123456_0");
    assert_eq!(failure(job.step(Event::Removed)), "Failed to read docling output: invalid utf-8");
}

#[test]
fn missing_expected_file_leads_to_a_scan_of_the_directory() {
    let mut job = job();
    run_until_output(&mut job);
    match job.step(Event::Read(ReadOutcome::Missing)) {
        Action::ListDir { dir } => assert_eq!(dir, "/tmp/docling_4321123456_0"),
        other => panic!("unexpected action {other:?}"),
    }
    assert_eq!(job.stage, Stage::Listing);
    let listed = Event::Listed(Ok(vec![
        candidate("/tmp/docling_4321123456_0/log.txt", Some("txt")),
        candidate("/tmp/docling_4321123456_0/other.md", Some("md")),
        candidate("/tmp/docling_4321123456_0/third.md", Some("md")),
    ]));
    match job.step(listed) {
        Action::ReadFile { path } => assert_eq!(path, "/tmp/docling_4321123456_0/other.md"),
        other => panic!("unexpected action {other:?}"),
    }
    assert_eq!(job.stage, Stage::ReadingFound);
    let action = job.step(Event::Read(ReadOutcome::Content("found".to_string())));
    assert_eq!(removal(action), "/tmp/docling_4321123456_0");
    assert!(matches!(job.step(Event::Removed), Action::Finish(Ok(text)) if text == "found"));
}

#[test]
fn scan_without_a_match_fails_the_file_after_clean_up() {
    let mut job = job();
    run_until_output(&mut job);
    job.step(Event::Read(ReadOutcome::Missing));
    let action = job.step(Event::Listed(Ok(vec![candidate("/w/a.json", Some("json"))])));
    assert_eq!(removal(action), "/tmp/docling_4321123456_0");
    assert_eq!(failure(job.step(Event::Removed)), "No output file found after docling conversion");
}

#[test]
fn unreadable_directory_fails_the_file_after_clean_up() {
    let mut job = job();
    run_until_output(&mut job);
    job.step(Event::Read(ReadOutcome::Missing));
    let action = job.step(Event::Listed(Err("not a directory".to_string())));
    assert_eq!(removal(action), "/tmp/docling_4321123456_0");
    assert_eq!(failure(job.step(Event::Removed)), "Failed to read temp directory: not a directory");
}

#[test]
fn unreadable_found_file_fails_the_file_after_clean_up() {
    let mut job = job();
    run_until_output(&mut job);
    job.step(Event::Read(ReadOutcome::Missing));
    job.step(Event::Listed(Ok(vec![candidate("/w/a.md", Some("md"))])));
    let action = job.step(Event::Read(ReadOutcome::Unreadable("gone".to_string())));
    assert_eq!(removal(action), "/tmp/docling_4321123456_0");
    assert_eq!(failure(job.step(Event::Removed)), "Failed to read docling output: gone");
}

#[test]
fn each_stage_expects_the_answer_to_its_action() {
    let mut job = job();
    assert!(job.is_expected(&Event::Begin));
    assert!(!job.is_expected(&Event::Removed));
    assert!(!job.is_expected(&Event::InputFound(true)));
    job.step(Event::Begin);
    assert!(job.is_expected(&Event::InputFound(false)));
    assert!(!job.is_expected(&Event::Begin));
    job.step(Event::InputFound(true));
    assert!(job.is_expected(&Event::DirCreated(Ok(()))));
    assert!(!job.is_expected(&Event::Read(ReadOutcome::Missing)));
    job.step(Event::DirCreated(Ok(())));
    assert!(job.is_expected(&Event::Ran(Err(String::new()))));
    job.step(Event::Ran(Ok(Run { success: true, stderr: String::new() })));
    assert!(job.is_expected(&Event::Read(ReadOutcome::Missing)));
    job.step(Event::Read(ReadOutcome::Missing));
    assert!(job.is_expected(&Event::Listed(Ok(vec![]))));
    job.step(Event::Listed(Ok(vec![candidate("/w/a.md", Some("md"))])));
    assert!(!job.is_expected(&Event::Read(ReadOutcome::Missing)));
    assert!(job.is_expected(&Event::Read(ReadOutcome::Content(String::new()))));
    job.step(Event::Read(ReadOutcome::Content(String::new())));
    assert!(job.is_expected(&Event::Removed));
    job.step(Event::Removed);
    assert!(!job.is_expected(&Event::Removed));
    assert!(!job.is_expected(&Event::Begin));
}

#[test]
fn executable_and_probe_are_named() {
    assert_eq!(semtools::local::EXECUTABLE, "docling");
    assert_eq!(semtools::local::VERSION_FLAG, "--version");
    assert_eq!(semtools::remote::AUTHORIZATION, "Authorization");
}

#[test]
fn the_job_number_tells_working_directories_apart() {
    let names: Vec<String> = (0..12).map(|job| temp_dir_name(4321, 1700000123456, job)).collect();
    for (i, one) in names.iter().enumerate() {
        for other in &names[i + 1..] {
            assert_ne!(one, other);
        }
    }
    assert_eq!(names[1], "docling_4321123456_1");
    assert_eq!(names[11], "docling_4321123456_11");
    assert_ne!(temp_dir_name(1, 1, 11), temp_dir_name(11, 1, 1));
}
