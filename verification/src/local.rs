//! One conversion through the local Docling executable, step by step. Each step takes what
//! the outside world answered to the last action and names the next action; creating
//! directories, running the executable and reading files is left to the caller.

use vstd::prelude::*;
use vstd::string::StringExecFns;
use crate::cache::{artifact_name, join_path, joined};
use crate::config::DoclingConfig;
use crate::error::{invalid_response, JobError};
use crate::text::{decimal, decimal_string, lemma_decimal_is_injective, str_eq};

verus! {

/// The name of the executable.
pub const EXECUTABLE: &'static str = "docling";

/// The argument with which the executable is probed before a batch.
pub const VERSION_FLAG: &'static str = "--version";

/// The number that makes the name of a working directory unlikely to be taken: the process
/// id in front of the last six digits of the clock in milliseconds.
pub open spec fn work_dir_number(pid: u32, millis: u64) -> nat {
    (pid * 1000000 + millis % 1000000) as nat
}

/// What the names of all working directories of one process at one time begin with.
pub open spec fn work_dir_prefix(pid: u32, millis: u64) -> Seq<char> {
    "docling_"@ + decimal(work_dir_number(pid, millis)) + "_"@
}

/// The name of the working directory of the conversion with the number `job`: the number
/// made of process id and clock, and behind it the number of the job, which tells the
/// conversions of one batch apart whenever they start.
pub open spec fn work_dir_name(pid: u32, millis: u64, job: u64) -> Seq<char> {
    work_dir_prefix(pid, millis) + decimal(job as nat)
}

/// Names the working directory for the conversion with the number `job`, started by process
/// `pid` at `millis` milliseconds of the clock.
pub fn temp_dir_name(pid: u32, millis: u64, job: u64) -> (name: String)
    ensures
        name@ == work_dir_name(pid, millis, job),
{
    let number: u64 = pid as u64 * 1000000 + millis % 1000000;
    let digits = decimal_string(number);
    let mut name = String::from_str("docling_");
    name.append(digits.as_str());
    name.append("_");
    let job_digits = decimal_string(job);
    name.append(job_digits.as_str());
    name
}

/// Conversions with different numbers work in different directories, even when the same
/// process starts them at the same time.
pub proof fn lemma_jobs_have_their_own_work_dir(
    temp_root: Seq<char>,
    pid: u32,
    millis: u64,
    a: u64,
    b: u64,
)
    requires
        a != b,
    ensures
        work_dir_name(pid, millis, a) != work_dir_name(pid, millis, b),
        joined(temp_root, work_dir_name(pid, millis, a)) != joined(
            temp_root,
            work_dir_name(pid, millis, b),
        ),
{
    let prefix = work_dir_prefix(pid, millis);
    let first = work_dir_name(pid, millis, a);
    let second = work_dir_name(pid, millis, b);
    assert(first.subrange(prefix.len() as int, first.len() as int) =~= decimal(a as nat));
    assert(second.subrange(prefix.len() as int, second.len() as int) =~= decimal(b as nat));
    if first == second {
        lemma_decimal_is_injective(a as nat, b as nat);
    }
    let lead = if temp_root.len() == 0 || temp_root.last() == '/' {
        temp_root
    } else {
        temp_root + seq!['/']
    };
    let here = joined(temp_root, first);
    let there = joined(temp_root, second);
    assert(here =~= lead + first);
    assert(there =~= lead + second);
    assert(here.subrange(lead.len() as int, here.len() as int) =~= first);
    assert(there.subrange(lead.len() as int, there.len() as int) =~= second);
}

/// The name of the file that the executable is expected to write: the stem of the input's
/// name, or `output` where it has none, a dot and the output format.
pub open spec fn expected_output_name(file_stem: Option<Seq<char>>, format: Seq<char>) -> Seq<
    char,
> {
    artifact_name(
        match file_stem {
            Some(stem) => stem,
            None => "output"@,
        },
        format,
    )
}

/// A file found in the working directory.
#[derive(Debug)]
pub struct OutputCandidate {
    pub path: String,
    pub extension: Option<String>,
}

impl OutputCandidate {
    /// Whether the file has the extension `format`.
    pub open spec fn has_format(&self, format: Seq<char>) -> bool {
        self.extension matches Some(extension) && extension@ == format
    }
}

/// Whether `found` is the first of `entries` with the extension `format`, or `None` where no
/// entry has it.
pub open spec fn is_first_output(
    entries: Seq<OutputCandidate>,
    format: Seq<char>,
    found: Option<int>,
) -> bool {
    match found {
        Some(index) => {
            &&& 0 <= index < entries.len()
            &&& entries[index].has_format(format)
            &&& forall|j: int| 0 <= j < index ==> !(#[trigger] entries[j]).has_format(format)
        },
        None => forall|j: int| 0 <= j < entries.len() ==> !(#[trigger] entries[j]).has_format(format),
    }
}

/// Finds the first file with the extension `format` among the files of the working
/// directory.
pub fn find_output(entries: &Vec<OutputCandidate>, format: &str) -> (found: Option<usize>)
    ensures
        is_first_output(
            entries@,
            format@,
            match found {
                Some(index) => Some(index as int),
                None => None,
            },
        ),
{
    let n = entries.len();
    let mut i: usize = 0;
    while i < n
        invariant
            n == entries@.len(),
            i <= n,
            forall|j: int| 0 <= j < i ==> !(#[trigger] entries@[j]).has_format(format@),
        decreases n - i,
    {
        let matches = match &entries[i].extension {
            Some(extension) => str_eq(extension.as_str(), format),
            None => false,
        };
        if matches {
            return Some(i);
        }
        i += 1;
    }
    None
}

/// How far a conversion has come.
#[derive(Debug, Clone, Copy, PartialEq, Eq, Structural)]
pub enum Stage {
    /// Nothing was done yet.
    Created,
    /// The input file is being looked for.
    CheckingInput,
    /// The working directory is being created.
    MakingDir,
    /// The executable is running.
    Running,
    /// The expected output file is being read.
    ReadingExpected,
    /// The working directory is being listed.
    Listing,
    /// An output file found in the listing is being read.
    ReadingFound,
    /// The working directory is being removed.
    Cleaning,
    /// The conversion is over.
    Finished,
}

/// How the run of the executable ended.
#[derive(Debug)]
pub struct Run {
    pub success: bool,
    pub stderr: String,
}

/// What came of reading a file.
#[derive(Debug)]
pub enum ReadOutcome {
    /// There is no such file.
    Missing,
    /// The file is there but could not be read; the text says why.
    Unreadable(String),
    /// The text of the file.
    Content(String),
}

/// What the outside world answered to the last action.
#[derive(Debug)]
pub enum Event {
    /// The conversion is to begin.
    Begin,
    /// Whether the input file exists.
    InputFound(bool),
    /// Whether the working directory could be created.
    DirCreated(Result<(), String>),
    /// Whether the executable could be run, and how it ended.
    Ran(Result<Run, String>),
    /// What came of reading the file asked for.
    Read(ReadOutcome),
    /// The files of the working directory, or why they could not be listed.
    Listed(Result<Vec<OutputCandidate>, String>),
    /// The removal of the working directory was attempted.
    Removed,
}

/// What to do next.
#[derive(Debug)]
pub enum Action {
    /// Find out whether the input file exists.
    CheckInput { path: String },
    /// Create the working directory.
    CreateDir { dir: String },
    /// Run the executable `docling` with these arguments.
    Execute { args: Vec<String> },
    /// Read this file, if it is there.
    ReadFile { path: String },
    /// List the files of the working directory with their extensions.
    ListDir { dir: String },
    /// Remove the working directory with all it holds; a failure to do so is ignored.
    RemoveDir { dir: String },
    /// The conversion is over: with the converted text, or with the failure of this file.
    Finish(Result<String, JobError>),
}

impl Action {
    /// Whether the action asks whether the file at `path` exists.
    pub open spec fn checks(&self, path: Seq<char>) -> bool {
        self matches Action::CheckInput { path: asked } && asked@ == path
    }

    /// Whether the action creates the directory `dir`.
    pub open spec fn creates(&self, dir: Seq<char>) -> bool {
        self matches Action::CreateDir { dir: asked } && asked@ == dir
    }

    /// Whether the action runs the executable with the arguments `args`.
    pub open spec fn executes(&self, args: Seq<Seq<char>>) -> bool {
        self matches Action::Execute { args: asked } && asked.deep_view() == args
    }

    /// Whether the action reads the file at `path`.
    pub open spec fn reads(&self, path: Seq<char>) -> bool {
        self matches Action::ReadFile { path: asked } && asked@ == path
    }

    /// Whether the action lists the directory `dir`.
    pub open spec fn lists(&self, dir: Seq<char>) -> bool {
        self matches Action::ListDir { dir: asked } && asked@ == dir
    }

    /// Whether the action removes the directory `dir`.
    pub open spec fn removes(&self, dir: Seq<char>) -> bool {
        self matches Action::RemoveDir { dir: asked } && asked@ == dir
    }

    /// Whether the action ends the conversion with the text `content`.
    pub open spec fn yields(&self, content: Seq<char>) -> bool {
        self matches Action::Finish(Ok(text)) && text@ == content
    }

    /// Whether the action ends the conversion with a failure that says `message`.
    pub open spec fn fails_with(&self, message: Seq<char>) -> bool {
        self matches Action::Finish(Err(error)) && error == JobError::InvalidResponse(
            error->InvalidResponse_0,
        ) && error.message() == message
    }
}

/// One conversion through the local executable.
#[derive(Debug)]
pub struct LocalJob {
    pub file_path: String,
    pub temp_dir: String,
    pub expected_output: String,
    pub format: String,
    pub args: Vec<String>,
    pub stage: Stage,
    pub outcome: Option<Result<String, JobError>>,
}

impl LocalJob {
    /// The outcome of the conversion is kept exactly while the working directory is being
    /// removed: it is decided before, and handed out after.
    pub open spec fn well_formed(&self) -> bool {
        self.stage == Stage::Cleaning <==> self.outcome is Some
    }

    /// Whether `event` answers the action that led to the present stage.
    pub open spec fn expects(&self, event: Event) -> bool {
        match self.stage {
            Stage::Created => event is Begin,
            Stage::CheckingInput => event is InputFound,
            Stage::MakingDir => event is DirCreated,
            Stage::Running => event is Ran,
            Stage::ReadingExpected => event is Read,
            Stage::Listing => event is Listed,
            Stage::ReadingFound => event matches Event::Read(outcome) && !(outcome is Missing),
            Stage::Cleaning => event is Removed,
            Stage::Finished => false,
        }
    }

    /// Whether the job now removes its working directory, keeping the converted text
    /// `content` as its outcome.
    pub open spec fn cleans_up_with(&self, action: Action, content: Seq<char>) -> bool {
        &&& self.stage == Stage::Cleaning
        &&& action.removes(self.temp_dir@)
        &&& self.outcome matches Some(Ok(text)) && text@ == content
    }

    /// Whether the job now removes its working directory, keeping a failure that says
    /// `message` as its outcome.
    pub open spec fn cleans_up_after(&self, action: Action, message: Seq<char>) -> bool {
        &&& self.stage == Stage::Cleaning
        &&& action.removes(self.temp_dir@)
        &&& self.outcome matches Some(Err(error)) && error == JobError::InvalidResponse(
            error->InvalidResponse_0,
        ) && error.message() == message
    }

    /// Whether the job now reads the file at `path`, in the stage `stage`.
    pub open spec fn reads(&self, action: Action, stage: Stage, path: Seq<char>) -> bool {
        self.stage == stage && action.reads(path)
    }

    /// The steps of a conversion: whether a job in the state `self` that gets `event` is
    /// afterwards in the state `next` and asks for `action`.
    ///
    /// The input file is looked for first; a missing file ends the conversion at once. Then
    /// the working directory is created and the executable run. Its output is read from the
    /// expected file or, where that is missing, from the first file of the directory with the
    /// extension of the output format. From the moment the creation of the directory was
    /// asked for, every way to the end leads through its removal.
    pub open spec fn steps_to(&self, event: Event, next: LocalJob, action: Action) -> bool {
        match (self.stage, event) {
            (Stage::Created, Event::Begin) => next.stage == Stage::CheckingInput && action.checks(
                self.file_path@,
            ),
            (Stage::CheckingInput, Event::InputFound(found)) => if found {
                next.stage == Stage::MakingDir && action.creates(self.temp_dir@)
            } else {
                next.stage == Stage::Finished && action.fails_with(
                    "File not found: "@ + self.file_path@,
                )
            },
            (Stage::MakingDir, Event::DirCreated(Ok(_))) => next.stage == Stage::Running
                && action.executes(self.args.deep_view()),
            (Stage::MakingDir, Event::DirCreated(Err(reason))) => next.cleans_up_after(
                action,
                "Failed to create temp directory: "@ + reason@,
            ),
            (Stage::Running, Event::Ran(Err(reason))) => next.cleans_up_after(
                action,
                "Failed to execute docling: "@ + reason@,
            ),
            (Stage::Running, Event::Ran(Ok(run))) => if run.success {
                next.reads(action, Stage::ReadingExpected, self.expected_output@)
            } else {
                next.cleans_up_after(action, "Docling command failed: "@ + run.stderr@)
            },
            (Stage::ReadingExpected, Event::Read(ReadOutcome::Missing)) => next.stage
                == Stage::Listing && action.lists(self.temp_dir@),
            (Stage::ReadingExpected, Event::Read(ReadOutcome::Unreadable(reason)))
            | (Stage::ReadingFound, Event::Read(ReadOutcome::Unreadable(reason))) => next.cleans_up_after(
                action,
                "Failed to read docling output: "@ + reason@,
            ),
            (Stage::ReadingExpected, Event::Read(ReadOutcome::Content(text)))
            | (Stage::ReadingFound, Event::Read(ReadOutcome::Content(text))) => next.cleans_up_with(
                action,
                text@,
            ),
            (Stage::Listing, Event::Listed(Err(reason))) => next.cleans_up_after(
                action,
                "Failed to read temp directory: "@ + reason@,
            ),
            (Stage::Listing, Event::Listed(Ok(entries))) => exists|found: Option<int>|
                #![auto]
                is_first_output(entries@, self.format@, found) && match found {
                    Some(index) => next.reads(action, Stage::ReadingFound, entries@[index].path@),
                    None => next.cleans_up_after(
                        action,
                        "No output file found after docling conversion"@,
                    ),
                },
            (Stage::Cleaning, Event::Removed) => next.stage == Stage::Finished && match self.outcome {
                Some(Ok(text)) => action.yields(text@),
                Some(Err(error)) => action matches Action::Finish(Err(kept)) && kept == error,
                None => true,
            },
            _ => true,
        }
    }

    /// Prepares the conversion with the number `number` of the file at `file_path`, whose
    /// name has the stem `file_stem`, in a working directory of its own under `temp_root`.
    pub fn new(
        config: &DoclingConfig,
        file_path: &str,
        file_stem: Option<&str>,
        temp_root: &str,
        pid: u32,
        millis: u64,
        number: u64,
    ) -> (job: LocalJob)
        ensures
            job.well_formed(),
            job.stage == Stage::Created,
            job.file_path@ == file_path@,
            job.temp_dir@ == joined(temp_root@, work_dir_name(pid, millis, number)),
            job.format@ == config.output_format@,
            job.args.deep_view() == config.cli_args(file_path@, job.temp_dir@),
            job.expected_output@ == joined(
                job.temp_dir@,
                expected_output_name(
                    match file_stem {
                        Some(stem) => Some(stem@),
                        None => None,
                    },
                    config.output_format@,
                ),
            ),
            job.outcome is None,
    {
        let name = temp_dir_name(pid, millis, number);
        let temp_dir = join_path(temp_root, name.as_str());
        let args = config.build_cli_args(file_path, temp_dir.as_str());
        let mut expected = match file_stem {
            Some(stem) => String::from_str(stem),
            None => String::from_str("output"),
        };
        proof {
            reveal_strlit(".");
        }
        expected.append(".");
        expected.append(config.output_format.as_str());
        let expected_output = join_path(temp_dir.as_str(), expected.as_str());
        LocalJob {
            file_path: String::from_str(file_path),
            temp_dir,
            expected_output,
            format: config.output_format.clone(),
            args,
            stage: Stage::Created,
            outcome: None,
        }
    }

    fn clean_up(&mut self, outcome: Result<String, JobError>) -> (action: Action)
        ensures
            final(self).stage == Stage::Cleaning,
            final(self).outcome == Some(outcome),
            final(self).file_path == old(self).file_path,
            final(self).temp_dir == old(self).temp_dir,
            final(self).expected_output == old(self).expected_output,
            final(self).format == old(self).format,
            final(self).args == old(self).args,
            action.removes(old(self).temp_dir@),
    {
        self.stage = Stage::Cleaning;
        self.outcome = Some(outcome);
        Action::RemoveDir { dir: self.temp_dir.clone() }
    }

    /// Decides whether `event` answers the action that led to the present stage.
    pub fn is_expected(&self, event: &Event) -> (fits: bool)
        ensures
            fits == self.expects(*event),
    {
        match self.stage {
            Stage::Created => matches!(event, Event::Begin),
            Stage::CheckingInput => matches!(event, Event::InputFound(_)),
            Stage::MakingDir => matches!(event, Event::DirCreated(_)),
            Stage::Running => matches!(event, Event::Ran(_)),
            Stage::ReadingExpected => matches!(event, Event::Read(_)),
            Stage::Listing => matches!(event, Event::Listed(_)),
            Stage::ReadingFound => match event {
                Event::Read(ReadOutcome::Missing) => false,
                Event::Read(_) => true,
                _ => false,
            },
            Stage::Cleaning => matches!(event, Event::Removed),
            Stage::Finished => false,
        }
    }

    /// Takes the conversion one step further: `event` is what the outside world answered to
    /// the last action, the result is the action to perform next.
    pub fn step(&mut self, event: Event) -> (action: Action)
        requires
            old(self).well_formed(),
            old(self).expects(event),
        ensures
            final(self).well_formed(),
            final(self).file_path == old(self).file_path,
            final(self).temp_dir == old(self).temp_dir,
            final(self).expected_output == old(self).expected_output,
            final(self).format == old(self).format,
            final(self).args == old(self).args,
            old(self).steps_to(event, *final(self), action),
    {
        match event {
            Event::Begin => {
                self.stage = Stage::CheckingInput;
                Action::CheckInput { path: self.file_path.clone() }
            },
            Event::InputFound(found) => {
                if found {
                    self.stage = Stage::MakingDir;
                    Action::CreateDir { dir: self.temp_dir.clone() }
                } else {
                    self.stage = Stage::Finished;
                    Action::Finish(
                        Err(invalid_response("File not found: ", self.file_path.as_str())),
                    )
                }
            },
            Event::DirCreated(created) => match created {
                Ok(_) => {
                    self.stage = Stage::Running;
                    Action::Execute { args: self.args.clone() }
                },
                Err(reason) => self.clean_up(
                    Err(invalid_response("Failed to create temp directory: ", reason.as_str())),
                ),
            },
            Event::Ran(ran) => match ran {
                Err(reason) => self.clean_up(
                    Err(invalid_response("Failed to execute docling: ", reason.as_str())),
                ),
                Ok(run) => {
                    if run.success {
                        self.stage = Stage::ReadingExpected;
                        Action::ReadFile { path: self.expected_output.clone() }
                    } else {
                        self.clean_up(
                            Err(invalid_response("Docling command failed: ", run.stderr.as_str())),
                        )
                    }
                },
            },
            Event::Read(outcome) => match outcome {
                ReadOutcome::Missing => {
                    self.stage = Stage::Listing;
                    Action::ListDir { dir: self.temp_dir.clone() }
                },
                ReadOutcome::Unreadable(reason) => self.clean_up(
                    Err(invalid_response("Failed to read docling output: ", reason.as_str())),
                ),
                ReadOutcome::Content(text) => self.clean_up(Ok(text)),
            },
            Event::Listed(listed) => match listed {
                Err(reason) => self.clean_up(
                    Err(invalid_response("Failed to read temp directory: ", reason.as_str())),
                ),
                Ok(entries) => match find_output(&entries, self.format.as_str()) {
                    Some(index) => {
                        assert(is_first_output(entries@, self.format@, Some(index as int)));
                        self.stage = Stage::ReadingFound;
                        Action::ReadFile { path: entries[index].path.clone() }
                    },
                    None => {
                        assert(is_first_output(entries@, self.format@, None));
                        proof {
                            reveal_strlit("");
                        }
                        let error = invalid_response(
                            "No output file found after docling conversion",
                            "",
                        );
                        assert(error.message() =~= "No output file found after docling conversion"@);
                        self.clean_up(Err(error))
                    },
                },
            },
            Event::Removed => {
                self.stage = Stage::Finished;
                let outcome = self.outcome.take();
                Action::Finish(outcome.unwrap())
            },
        }
    }
}

/// Clean-up. Once the creation of the working directory was asked for, no step ends the
/// conversion but the one that follows the removal of the directory: whatever happens in
/// between, failure or success, leads to the removal first.
pub proof fn lemma_work_dir_is_removed(job: LocalJob, event: Event, next: LocalJob, action: Action)
    requires
        job.well_formed(),
        job.expects(event),
        job.steps_to(event, next, action),
        !(job.stage is Created),
        !(job.stage is CheckingInput),
    ensures
        action is Finish <==> job.stage is Cleaning,
        next.stage is Finished <==> job.stage is Cleaning,
        next.stage is Cleaning ==> action.removes(next.temp_dir@),
{
}

} // verus!
