//! The two backends: conversion through the local Docling executable and through a Docling
//! service. A backend decides where the cache lives, whether a batch may start, and what
//! becomes of each file of the batch.

use vstd::prelude::*;
use crate::cache::{artifact_path_of, join_path, joined};
use crate::config::DoclingConfig;
use crate::dispatch::{all_demanded, all_settled, Candidate, Dispatcher};
use crate::error::{invalid_response, JobError};
use crate::extract::{
    artifact, content_files, is_primary, payload_artifacts, payload_failure, selected_artifacts,
    Artifact, Extraction,
};
use crate::local::{expected_output_name, work_dir_name, LocalJob, Stage};
use crate::remote::{health_failure, Reply, Upload};
use crate::serve_config::DoclingServeConfig;

verus! {

/// The cache directory: the configured one, or `.parse` in the user's home directory; there
/// is none where neither is known.
pub open spec fn cache_dir_of(configured: Option<String>, home_dir: Option<Seq<char>>) -> Option<
    Seq<char>,
> {
    match configured {
        Some(dir) => Some(dir@),
        None => match home_dir {
            Some(home) => Some(joined(home, ".parse"@)),
            None => None,
        },
    }
}

fn locate_cache(configured: &Option<String>, home_dir: Option<&str>) -> (dir: Result<
    String,
    JobError,
>)
    ensures
        dir is Ok == cache_dir_of(
            *configured,
            match home_dir {
                Some(home) => Some(home@),
                None => None,
            },
        ) is Some,
        dir matches Ok(path) ==> Some(path@) == cache_dir_of(
            *configured,
            match home_dir {
                Some(home) => Some(home@),
                None => None,
            },
        ),
        dir matches Err(error) ==> error == JobError::InvalidResponse(error->InvalidResponse_0)
            && error.message() == "Could not find home directory"@,
{
    match configured {
        Some(dir) => Ok(dir.clone()),
        None => match home_dir {
            Some(home) => Ok(join_path(home, ".parse")),
            None => {
                proof {
                    reveal_strlit("");
                }
                let error = invalid_response("Could not find home directory", "");
                assert(error.message() =~= "Could not find home directory"@);
                Err(error)
            },
        },
    }
}

/// The message of the failure that stops a batch of the local backend: the executable could
/// not be started (`None`) or its version check ended in an error (`Some(false)`).
pub open spec fn docling_failure(version_check: Option<bool>) -> Option<Seq<char>> {
    match version_check {
        None => Some(
            "Docling is not installed or not available in PATH. Please install with: pip install docling"@,
        ),
        Some(false) => Some("Docling is not working properly. Please check your installation."@),
        Some(true) => None,
    }
}

/// Conversion through the local Docling executable.
#[derive(Debug)]
pub struct DoclingBackend {
    pub config: DoclingConfig,
    pub cache_dir: String,
    pub verbose: bool,
}

impl DoclingBackend {
    /// Sets the backend up with its cache directory. It fails only where no directory is
    /// configured and the home directory is not known. The directory is for the caller to
    /// create.
    pub fn new(config: DoclingConfig, verbose: bool, home_dir: Option<&str>) -> (backend: Result<
        DoclingBackend,
        JobError,
    >)
        ensures
            backend is Ok == cache_dir_of(
                config.cache_dir,
                match home_dir {
                    Some(home) => Some(home@),
                    None => None,
                },
            ) is Some,
            backend matches Ok(made) ==> made.config == config && made.verbose == verbose && Some(
                made.cache_dir@,
            ) == cache_dir_of(
                config.cache_dir,
                match home_dir {
                    Some(home) => Some(home@),
                    None => None,
                },
            ),
            backend matches Err(error) ==> error == JobError::InvalidResponse(
                error->InvalidResponse_0,
            ) && error.message() == "Could not find home directory"@,
    {
        match locate_cache(&config.cache_dir, home_dir) {
            Ok(cache_dir) => Ok(DoclingBackend { config, cache_dir, verbose }),
            Err(error) => Err(error),
        }
    }

    /// Decides from the version check of the executable whether a batch may start.
    /// `version_check` is `None` where the executable could not be started, else whether it
    /// ended in success.
    pub fn check_docling_availability(version_check: Option<bool>) -> (usable: Result<
        (),
        JobError,
    >)
        ensures
            usable is Err == docling_failure(version_check) is Some,
            usable matches Err(error) ==> error == JobError::InvalidResponse(
                error->InvalidResponse_0,
            ) && Some(error.message()) == docling_failure(version_check),
    {
        proof {
            reveal_strlit("");
        }
        match version_check {
            None => {
                let error = invalid_response(
                    "Docling is not installed or not available in PATH. Please install with: pip install docling",
                    "",
                );
                assert(error.message()
                    =~= "Docling is not installed or not available in PATH. Please install with: pip install docling"@);
                Err(error)
            },
            Some(false) => {
                let error = invalid_response(
                    "Docling is not working properly. Please check your installation.",
                    "",
                );
                assert(error.message()
                    =~= "Docling is not working properly. Please check your installation."@);
                Err(error)
            },
            Some(true) => Ok(()),
        }
    }

    /// Opens a batch. An executable that is not available stops the batch before any file is
    /// looked at. Otherwise every text file is passed through, every unchanged file is served
    /// from the cache, and the rest waits for conversion in the batch that is handed back.
    pub fn parse(&self, version_check: Option<bool>, files: &Vec<Candidate>) -> (batch: Result<
        Dispatcher,
        JobError,
    >)
        ensures
            batch is Err == docling_failure(version_check) is Some,
            batch matches Err(error) ==> error == JobError::InvalidResponse(
                error->InvalidResponse_0,
            ) && Some(error.message()) == docling_failure(version_check),
            batch matches Ok(opened) ==> {
                &&& opened.well_formed()
                &&& opened.results() == all_settled(files@)
                &&& opened.waiting() == all_demanded(files@)
                &&& opened.running() == 0
                &&& opened.failures().len() == 0
            },
    {
        match Self::check_docling_availability(version_check) {
            Err(error) => Err(error),
            Ok(_) => {
                let mut batch = Dispatcher::new();
                batch.submit_all(files);
                assert(batch.results() =~= all_settled(files@));
                assert(batch.waiting() =~= all_demanded(files@));
                Ok(batch)
            },
        }
    }

    /// Prepares the conversion of one file of the batch in a working directory of its own
    /// under `temp_root`, named after the process id, the clock and the number under which
    /// the batch handed the file out.
    pub fn process_single_document(
        &self,
        file_path: &str,
        file_stem: Option<&str>,
        temp_root: &str,
        pid: u32,
        millis: u64,
        number: u64,
    ) -> (job: LocalJob)
        ensures
            job.well_formed(),
            job.stage == Stage::Created,
            job.file_path@ == file_path@,
            job.temp_dir@ == joined(temp_root@, work_dir_name(pid, millis, number)),
            job.format@ == self.config.output_format@,
            job.args.deep_view() == self.config.cli_args(file_path@, job.temp_dir@),
            job.expected_output@ == joined(
                job.temp_dir@,
                expected_output_name(
                    match file_stem {
                        Some(stem) => Some(stem@),
                        None => None,
                    },
                    self.config.output_format@,
                ),
            ),
            job.outcome is None,
    {
        LocalJob::new(&self.config, file_path, file_stem, temp_root, pid, millis, number)
    }

    /// Decides what to store for the text that the executable produced for the input named
    /// `file_name`: one artifact in the cache directory, named after the input and the output
    /// format, which is the primary output.
    pub fn converted(&self, file_name: &str, content: String) -> (stored: Extraction)
        ensures
            stored.well_formed(),
            stored.primary == 0,
            !stored.fallback,
            stored.artifacts.deep_view() == seq![
                artifact(self.cache_dir@, file_name@, self.config.output_format@, content@),
            ],
    {
        let mut artifacts: Vec<Artifact> = Vec::new();
        artifacts.push(
            Artifact {
                path: artifact_path_of(
                    self.cache_dir.as_str(),
                    file_name,
                    self.config.output_format.as_str(),
                ),
                extension: self.config.output_format.clone(),
                content,
            },
        );
        assert(artifacts.deep_view() =~= seq![
            artifact(self.cache_dir@, file_name@, self.config.output_format@, content@),
        ]);
        Extraction { artifacts, primary: 0, fallback: false }
    }
}

/// Conversion through a Docling service.
#[derive(Debug)]
pub struct DoclingServeBackend {
    pub config: DoclingServeConfig,
    pub cache_dir: String,
    pub verbose: bool,
}

impl DoclingServeBackend {
    /// Sets the backend up with its cache directory. It fails only where no directory is
    /// configured and the home directory is not known. The directory is for the caller to
    /// create.
    pub fn new(config: DoclingServeConfig, verbose: bool, home_dir: Option<&str>) -> (backend:
        Result<DoclingServeBackend, JobError>)
        ensures
            backend is Ok == cache_dir_of(
                config.output_dir,
                match home_dir {
                    Some(home) => Some(home@),
                    None => None,
                },
            ) is Some,
            backend matches Ok(made) ==> made.config == config && made.verbose == verbose && Some(
                made.cache_dir@,
            ) == cache_dir_of(
                config.output_dir,
                match home_dir {
                    Some(home) => Some(home@),
                    None => None,
                },
            ),
            backend matches Err(error) ==> error == JobError::InvalidResponse(
                error->InvalidResponse_0,
            ) && error.message() == "Could not find home directory"@,
    {
        match locate_cache(&config.output_dir, home_dir) {
            Ok(cache_dir) => Ok(DoclingServeBackend { config, cache_dir, verbose }),
            Err(error) => Err(error),
        }
    }

    /// Opens a batch. A service that cannot be reached, or whose health probe is answered
    /// with an error, stops the batch before any file is looked at. Otherwise every text file
    /// is passed through, every unchanged file is served from the cache, and the rest waits
    /// for conversion in the batch that is handed back.
    pub fn parse<T>(&self, health: &Reply<T>, files: &Vec<Candidate>) -> (batch: Result<
        Dispatcher,
        JobError,
    >)
        ensures
            batch is Err == health_failure(self.config.base_url@, *health) is Some,
            batch matches Err(error) ==> error == JobError::InvalidResponse(
                error->InvalidResponse_0,
            ) && Some(error.message()) == health_failure(self.config.base_url@, *health),
            batch matches Ok(opened) ==> {
                &&& opened.well_formed()
                &&& opened.results() == all_settled(files@)
                &&& opened.waiting() == all_demanded(files@)
                &&& opened.running() == 0
                &&& opened.failures().len() == 0
            },
    {
        match self.config.check_service_availability(health) {
            Err(error) => Err(error),
            Ok(_) => {
                let mut batch = Dispatcher::new();
                batch.submit_all(files);
                assert(batch.results() =~= all_settled(files@));
                assert(batch.waiting() =~= all_demanded(files@));
                Ok(batch)
            },
        }
    }

    /// Starts the conversion of one file of the batch: a file that is not there fails at
    /// once, every other file is to be uploaded with the request handed back. `file_name` is
    /// the last component of the path, if it has one.
    pub fn process_single_document(
        &self,
        file_path: &str,
        file_name: Option<&str>,
        found: bool,
    ) -> (upload: Result<Upload, JobError>)
        ensures
            upload is Ok == found,
            upload matches Ok(request) ==> self.config.uploads(
                request,
                match file_name {
                    Some(name) => Some(name@),
                    None => None,
                },
            ),
            upload matches Err(error) ==> error == JobError::InvalidResponse(
                error->InvalidResponse_0,
            ) && error.message() == "File not found: "@ + file_path@,
    {
        if found {
            Ok(self.config.upload_request(file_name))
        } else {
            Err(invalid_response("File not found: ", file_path))
        }
    }

    /// The failure of a file that is there but could not be read for the upload; `reason`
    /// says why.
    pub fn unreadable_input(reason: &str) -> (error: JobError)
        ensures
            error == JobError::InvalidResponse(error->InvalidResponse_0),
            error.message() == "Failed to read input file: "@ + reason@,
    {
        invalid_response("Failed to read input file: ", reason)
    }

    /// Decides what to store for the payload that the service returned for the input named
    /// `file_name`: the artifacts in the cache directory, and which of them is the primary
    /// output.
    pub fn write_content_files(&self, file_name: &str, payload: &serde_json::Value) -> (planned:
        Result<Extraction, JobError>)
        ensures
            planned is Err == payload_failure(self.cache_dir@, file_name@, *payload) is Some,
            planned matches Ok(extraction) ==> {
                &&& extraction.artifacts.deep_view() == payload_artifacts(
                    self.cache_dir@,
                    file_name@,
                    *payload,
                )
                &&& extraction.well_formed()
                &&& is_primary(extraction.artifacts.deep_view(), extraction.primary as int)
                &&& extraction.fallback == (selected_artifacts(
                    self.cache_dir@,
                    file_name@,
                    *payload,
                ).len() == 0)
            },
            planned matches Err(error) ==> error == JobError::InvalidResponse(
                error->InvalidResponse_0,
            ) && Some(error.message()) == payload_failure(self.cache_dir@, file_name@, *payload),
    {
        content_files(self.cache_dir.as_str(), file_name, payload)
    }
}

} // verus!
