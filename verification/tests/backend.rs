use semtools::backend::{DoclingBackend, DoclingServeBackend};
use semtools::cache::{CacheEntry, FileIdentity};
use semtools::config::DoclingConfig;
use semtools::dispatch::{Candidate, Job};
use semtools::error::JobError;
use semtools::local::Stage;
use semtools::remote::Reply;
use semtools::serve_config::DoclingServeConfig;

fn message(error: JobError) -> String {
    match error {
        JobError::InvalidResponse(text) => text,
        JobError::TimeoutError => panic!("unexpected time-out"),
    }
}

fn job(number: u64, path: &str) -> Option<Job> {
    Some(Job { number, path: path.to_string() })
}

fn files() -> Vec<Candidate> {
    vec![
        Candidate { path: "a.pdf".to_string(), cached: None, current: None },
        Candidate { path: "b.txt".to_string(), cached: None, current: None },
        Candidate {
            path: "c.pdf".to_string(),
            cached: Some(CacheEntry {
                modified_time: 3,
                size: 4,
                parsed_path: "/cache/c.pdf.md".to_string(),
            }),
            current: Some(FileIdentity { path: "c.pdf".to_string(), modified_time: 3, size: 4 }),
        },
        Candidate { path: "d.docx".to_string(), cached: None, current: None },
    ]
}

#[test]
fn cache_defaults_to_dot_parse_in_the_home_directory() {
    let backend = DoclingBackend::new(DoclingConfig::default(), true, Some("/home/u")).unwrap();
    assert_eq!(backend.cache_dir, "/home/u/.parse");
    assert!(backend.verbose);
    assert_eq!(backend.config.output_format, "md");
    let serve = DoclingServeBackend::new(DoclingServeConfig::default(), false, Some("/home/u/")).unwrap();
    assert_eq!(serve.cache_dir, "/home/u/.parse");
    assert!(!serve.verbose);
}

#[test]
fn configured_cache_directory_wins() {
    let mut config = DoclingConfig::default();
    config.cache_dir = Some("/data/cache".to_string());
    assert_eq!(DoclingBackend::new(config, false, Some("/home/u")).unwrap().cache_dir, "/data/cache");
    let mut serve = DoclingServeConfig::default();
    serve.output_dir = Some("out".to_string());
    assert_eq!(DoclingServeBackend::new(serve, false, None).unwrap().cache_dir, "out");
}

#[test]
fn backend_without_any_directory_cannot_be_made() {
    let error = DoclingBackend::new(DoclingConfig::default(), false, None).unwrap_err();
    assert_eq!(message(error), "Could not find home directory");
    let error = DoclingServeBackend::new(DoclingServeConfig::default(), false, None).unwrap_err();
    assert_eq!(message(error), "Could not find home directory");
}

#[test]
fn missing_executable_stops_the_batch() {
    let error = DoclingBackend::check_docling_availability(None).unwrap_err();
    assert_eq!(
        message(error),
        "Docling is not installed or not available in PATH. Please install with: pip install docling"
    );
}

#[test]
fn broken_executable_stops_the_batch() {
    let error = DoclingBackend::check_docling_availability(Some(false)).unwrap_err();
    assert_eq!(message(error), "Docling is not working properly. Please check your installation.");
    assert!(DoclingBackend::check_docling_availability(Some(true)).is_ok());
}

#[test]
fn local_parse_fails_wholly_without_the_executable() {
    let backend = DoclingBackend::new(DoclingConfig::default(), false, Some("/h")).unwrap();
    assert!(backend.parse(None, &files()).is_err());
    assert!(backend.parse(Some(false), &files()).is_err());
}

#[test]
fn local_parse_settles_text_and_cached_files_and_queues_the_rest() {
    let backend = DoclingBackend::new(DoclingConfig::default(), false, Some("/h")).unwrap();
    let mut batch = backend.parse(Some(true), &files()).unwrap();
    assert_eq!(batch.waiting_count(), 2);
    assert_eq!(batch.in_flight(), 0);
    assert_eq!(batch.start_next(), job(0, "a.pdf"));
    assert_eq!(batch.start_next(), job(1, "d.docx"));
    assert_eq!(batch.start_next(), None);
    batch.finish(Err(JobError::InvalidResponse("x".to_string())));
    batch.finish(Ok("/cache/d.docx.md".to_string()));
    assert_eq!(batch.failure_count(), 1);
    assert_eq!(
        batch.into_results(),
        vec!["b.txt".to_string(), "/cache/c.pdf.md".to_string(), "/cache/d.docx.md".to_string()]
    );
}

#[test]
fn serve_parse_fails_wholly_when_the_service_is_down() {
    let backend = DoclingServeBackend::new(DoclingServeConfig::default(), false, Some("/h")).unwrap();
    let down: Reply<()> = Reply::Unreachable("refused".to_string());
    let error = backend.parse(&down, &files()).unwrap_err();
    assert_eq!(
        message(error),
        "Docling-serve is not available at http://localhost:5001. Please start the service or check the URL."
    );
}

#[test]
fn serve_parse_settles_text_and_cached_files_and_queues_the_rest() {
    let backend = DoclingServeBackend::new(DoclingServeConfig::default(), false, Some("/h")).unwrap();
    let mut batch = backend.parse(&Reply::Accepted(()), &files()).unwrap();
    assert_eq!(batch.waiting_count(), 2);
    assert_eq!(batch.start_next(), job(0, "a.pdf"));
    assert_eq!(batch.start_next(), job(1, "d.docx"));
    batch.finish(Ok("/h/.parse/d.docx.md".to_string()));
    batch.finish(Ok("/h/.parse/a.pdf.md".to_string()));
    assert_eq!(
        batch.into_results(),
        vec![
            "b.txt".to_string(),
            "/cache/c.pdf.md".to_string(),
            "/h/.parse/d.docx.md".to_string(),
            "/h/.parse/a.pdf.md".to_string()
        ]
    );
}

#[test]
fn local_job_is_prepared_from_the_backend_configuration() {
    let mut config = DoclingConfig::default();
    config.use_ocr = false;
    let backend = DoclingBackend::new(config, false, Some("/h")).unwrap();
    let job = backend.process_single_document("/in/x.pdf", Some("x"), "/tmp", 12, 34, 5);
    assert_eq!(job.stage, Stage::Created);
    assert_eq!(job.temp_dir, "/tmp/docling_12000034_5");
    assert_eq!(job.expected_output, "/tmp/docling_12000034_5/x.md");
    assert_eq!(job.args.last().unwrap(), "--no-ocr");
}

#[test]
fn converted_text_becomes_one_artifact_named_after_input_and_format() {
    let backend = DoclingBackend::new(DoclingConfig::default(), false, Some("/h")).unwrap();
    let stored = backend.converted("report.pdf", "# R".to_string());
    assert_eq!(stored.artifacts.len(), 1);
    assert_eq!(stored.primary, 0);
    assert!(!stored.fallback);
    assert_eq!(stored.artifacts[0].path, "/h/.parse/report.pdf.md");
    assert_eq!(stored.artifacts[0].extension, "md");
    assert_eq!(stored.artifacts[0].content, "# R");
    assert_eq!(stored.primary_output(), "/h/.parse/report.pdf.md");
}

#[test]
fn serve_backend_plans_content_files_in_its_cache() {
    let backend = DoclingServeBackend::new(DoclingServeConfig::default(), false, Some("/h")).unwrap();
    let payload: serde_json::Value =
        serde_json::from_str(r##"{"document": {"html_content": "<p/>", "md_content": "m"}}"##).unwrap();
    let extraction = backend.write_content_files("a.pdf", &payload).unwrap();
    assert_eq!(extraction.artifacts.len(), 2);
    assert_eq!(extraction.artifacts[0].path, "/h/.parse/a.pdf.md");
    assert_eq!(extraction.artifacts[1].path, "/h/.parse/a.pdf.html");
    assert_eq!(extraction.primary_output(), "/h/.parse/a.pdf.md");
}

#[test]
fn serve_job_for_a_missing_file_fails_at_once() {
    let backend = DoclingServeBackend::new(DoclingServeConfig::default(), false, Some("/h")).unwrap();
    let error = backend.process_single_document("/in/gone.pdf", Some("gone.pdf"), false).unwrap_err();
    assert_eq!(message(error), "File not found: /in/gone.pdf");
}

#[test]
fn serve_job_for_a_file_that_is_there_uploads_it() {
    let backend = DoclingServeBackend::new(DoclingServeConfig::default(), false, Some("/h")).unwrap();
    let upload = backend.process_single_document("/in/a.pdf", Some("a.pdf"), true).unwrap();
    assert_eq!(upload.url, "http://localhost:5001/v1/convert/file");
    assert_eq!(upload.file_name, "a.pdf");
    assert_eq!(upload.file_part, "files");
    assert_eq!(upload.fields.len(), 25);
}

#[test]
fn unreadable_input_is_a_failure_of_the_file() {
    assert_eq!(
        message(DoclingServeBackend::unreadable_input("permission denied")),
        "Failed to read input file: permission denied"
    );
}

#[test]
fn jobs_started_in_the_same_millisecond_work_in_different_directories() {
    let backend = DoclingBackend::new(DoclingConfig::default(), false, Some("/h")).unwrap();
    let mut batch = backend.parse(Some(true), &files()).unwrap();
    let first = batch.start_next().unwrap();
    let second = batch.start_next().unwrap();
    let one = backend.process_single_document(&first.path, Some("a"), "/tmp", 77, 1700000000001, first.number);
    let two = backend.process_single_document(&second.path, Some("d"), "/tmp", 77, 1700000000001, second.number);
    assert_eq!(one.temp_dir, "/tmp/docling_77000001_0");
    assert_eq!(two.temp_dir, "/tmp/docling_77000001_1");
    assert_ne!(one.temp_dir, two.temp_dir);
    assert_ne!(one.expected_output, two.expected_output);
}
