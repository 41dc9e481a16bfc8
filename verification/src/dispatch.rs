//! The dispatcher of one batch: it passes text files through, serves unchanged files from the
//! cache, and hands the rest out for conversion, never more than a fixed number at a time.
//! The failure of one file is recorded and leaves the others alone.

use vstd::prelude::*;
use crate::cache::{cached_output, lookup, CacheEntry, FileIdentity};
use crate::error::JobError;
use crate::readiness::{is_ready, ready};

verus! {

/// The most conversions that are in flight at any time.
pub const MAX_IN_FLIGHT: usize = 10;

/// An input file with what the cache holds for it: the entry of its sidecar and the file as
/// it is now, each `None` where it could not be had. Neither is looked at for a text file.
#[derive(Debug)]
pub struct Candidate {
    pub path: String,
    pub cached: Option<CacheEntry>,
    pub current: Option<FileIdentity>,
}

/// What becomes of an input file.
pub enum Disposition {
    /// The file is text already: its own path is the result.
    PassThrough,
    /// The file was converted before and has not changed: the stored output is the result.
    CacheHit(Seq<char>),
    /// The file has to be converted.
    Convert,
}

/// Decides what becomes of a file: readiness first, then the cache.
pub open spec fn disposition(file: Candidate) -> Disposition {
    if ready(file.path@) {
        Disposition::PassThrough
    } else {
        match cached_output(file.cached, file.current) {
            Some(output) => Disposition::CacheHit(output),
            None => Disposition::Convert,
        }
    }
}

/// The results that a file gives without conversion: its own path, its cached output, or
/// none.
pub open spec fn settled(file: Candidate) -> Seq<Seq<char>> {
    match disposition(file) {
        Disposition::PassThrough => seq![file.path@],
        Disposition::CacheHit(output) => seq![output],
        Disposition::Convert => Seq::empty(),
    }
}

/// The conversions that a file asks for: one of itself, or none.
pub open spec fn demanded(file: Candidate) -> Seq<Seq<char>> {
    match disposition(file) {
        Disposition::Convert => seq![file.path@],
        _ => Seq::empty(),
    }
}

/// The results that a list of files gives without conversion, in the order of the files.
pub open spec fn all_settled(files: Seq<Candidate>) -> Seq<Seq<char>>
    decreases files.len(),
{
    if files.len() == 0 {
        Seq::empty()
    } else {
        all_settled(files.drop_last()) + settled(files.last())
    }
}

/// The conversions that a list of files asks for, in the order of the files.
pub open spec fn all_demanded(files: Seq<Candidate>) -> Seq<Seq<char>>
    decreases files.len(),
{
    if files.len() == 0 {
        Seq::empty()
    } else {
        all_demanded(files.drop_last()) + demanded(files.last())
    }
}

/// A conversion handed out by a batch: the file to convert, and the number of the
/// conversion. A batch numbers the conversions it hands out from 0 in the order in which it
/// hands them out, so no two of them have the same number.
#[derive(Debug, PartialEq, Eq)]
pub struct Job {
    pub number: u64,
    pub path: String,
}

/// The state of one batch.
#[derive(Debug)]
pub struct Dispatcher {
    queue: Vec<String>,
    started: usize,
    in_flight: usize,
    results: Vec<String>,
    failures: Vec<JobError>,
}

impl Dispatcher {
    /// What holds of every batch: no more than `MAX_IN_FLIGHT` conversions are in flight, and
    /// no text file waits for conversion. `new` establishes it and every method keeps it.
    pub closed spec fn well_formed(&self) -> bool {
        &&& self.in_flight <= MAX_IN_FLIGHT
        &&& self.started <= self.queue@.len()
        &&& forall|i: int| 0 <= i < self.queue@.len() ==> !ready(#[trigger] self.queue@[i]@)
    }

    /// The files that wait for conversion, in the order in which they will be started.
    pub closed spec fn waiting(&self) -> Seq<Seq<char>> {
        self.queue.deep_view().skip(self.started as int)
    }

    /// The number of conversions handed out so far; their numbers are those below it.
    pub closed spec fn handed_out(&self) -> nat {
        self.started as nat
    }

    /// The number of conversions in flight.
    pub closed spec fn running(&self) -> nat {
        self.in_flight as nat
    }

    /// The result paths gathered so far, in the order in which they came.
    pub closed spec fn results(&self) -> Seq<Seq<char>> {
        self.results.deep_view()
    }

    /// The failures recorded so far, in the order in which they came.
    pub closed spec fn failures(&self) -> Seq<JobError> {
        self.failures@
    }

    /// A batch without files.
    pub fn new() -> (batch: Dispatcher)
        ensures
            batch.well_formed(),
            batch.waiting().len() == 0,
            batch.handed_out() == 0,
            batch.running() == 0,
            batch.results().len() == 0,
            batch.failures().len() == 0,
    {
        Dispatcher {
            queue: Vec::new(),
            started: 0,
            in_flight: 0,
            results: Vec::new(),
            failures: Vec::new(),
        }
    }

    /// Takes a file into the batch. A text file is passed through: its path is a result, and
    /// neither the cache nor a backend sees it. A file with a valid cache entry gives the
    /// stored output as a result. Every other file is queued for conversion.
    pub fn submit(&mut self, file: &Candidate)
        requires
            old(self).well_formed(),
        ensures
            final(self).well_formed(),
            final(self).results() == old(self).results() + settled(*file),
            final(self).waiting() == old(self).waiting() + demanded(*file),
            final(self).handed_out() == old(self).handed_out(),
            final(self).running() == old(self).running(),
            final(self).failures() == old(self).failures(),
    {
        let ghost queue_before = self.queue.deep_view();
        let ghost results_before = self.results.deep_view();
        if is_ready(file.path.as_str()) {
            self.results.push(file.path.clone());
            assert(self.results.deep_view() =~= results_before + settled(*file));
            assert(self.waiting() =~= old(self).waiting() + demanded(*file));
        } else {
            match lookup(&file.cached, &file.current) {
                Some(output) => {
                    self.results.push(output);
                    assert(self.results.deep_view() =~= results_before + settled(*file));
                    assert(self.waiting() =~= old(self).waiting() + demanded(*file));
                },
                None => {
                    self.queue.push(file.path.clone());
                    assert(self.queue.deep_view() =~= queue_before.push(file.path@));
                    assert(self.waiting() =~= old(self).waiting() + demanded(*file));
                    assert(self.results.deep_view() =~= results_before + settled(*file));
                },
            }
        }
    }

    /// Takes a list of files into the batch, one after the other.
    pub fn submit_all(&mut self, files: &Vec<Candidate>)
        requires
            old(self).well_formed(),
        ensures
            final(self).well_formed(),
            final(self).results() == old(self).results() + all_settled(files@),
            final(self).waiting() == old(self).waiting() + all_demanded(files@),
            final(self).handed_out() == old(self).handed_out(),
            final(self).running() == old(self).running(),
            final(self).failures() == old(self).failures(),
    {
        let n = files.len();
        let mut i: usize = 0;
        assert(files@.subrange(0, 0) =~= Seq::<Candidate>::empty());
        assert(self.results() =~= old(self).results() + all_settled(files@.subrange(0, 0)));
        assert(self.waiting() =~= old(self).waiting() + all_demanded(files@.subrange(0, 0)));
        while i < n
            invariant
                n == files@.len(),
                i <= n,
                self.well_formed(),
                self.results() == old(self).results() + all_settled(files@.subrange(0, i as int)),
                self.waiting() == old(self).waiting() + all_demanded(files@.subrange(0, i as int)),
                self.handed_out() == old(self).handed_out(),
                self.running() == old(self).running(),
                self.failures() == old(self).failures(),
            decreases n - i,
        {
            let ghost before = files@.subrange(0, i as int);
            let ghost after = files@.subrange(0, i + 1);
            assert(after.drop_last() =~= before);
            assert(after.last() == files@[i as int]);
            let ghost results_before = self.results();
            let ghost waiting_before = self.waiting();
            self.submit(&files[i]);
            assert(self.results() =~= old(self).results() + all_settled(after));
            assert(self.waiting() =~= old(self).waiting() + all_demanded(after));
            i += 1;
        }
        assert(files@.subrange(0, n as int) =~= files@);
    }

    /// Hands out the next file to convert, if one waits and fewer than `MAX_IN_FLIGHT`
    /// conversions are in flight; the file then counts as in flight until `finish` is called
    /// for it. The conversion gets the next number, which none handed out before has. No
    /// text file is ever handed out.
    pub fn start_next(&mut self) -> (job: Option<Job>)
        requires
            old(self).well_formed(),
        ensures
            final(self).well_formed(),
            job is Some == (old(self).waiting().len() > 0 && old(self).running() < MAX_IN_FLIGHT),
            job matches Some(next) ==> {
                &&& next.path@ == old(self).waiting()[0]
                &&& next.number == old(self).handed_out()
                &&& !ready(next.path@)
                &&& final(self).waiting() == old(self).waiting().drop_first()
                &&& final(self).handed_out() == old(self).handed_out() + 1
                &&& final(self).running() == old(self).running() + 1
            },
            job is None ==> final(self).waiting() == old(self).waiting() && final(self).handed_out()
                == old(self).handed_out() && final(self).running() == old(self).running(),
            final(self).running() <= MAX_IN_FLIGHT,
            final(self).results() == old(self).results(),
            final(self).failures() == old(self).failures(),
    {
        if self.started < self.queue.len() && self.in_flight < MAX_IN_FLIGHT {
            let path = self.queue[self.started].clone();
            assert(path@ == self.queue.deep_view()[self.started as int]);
            let number = self.started as u64;
            self.in_flight = self.in_flight + 1;
            self.started = self.started + 1;
            assert(self.waiting() =~= old(self).waiting().drop_first());
            Some(Job { number, path })
        } else {
            None
        }
    }

    /// Takes in how one conversion in flight ended: its output becomes a result, its failure
    /// is recorded. Either way the batch goes on, and one more conversion may start.
    pub fn finish(&mut self, outcome: Result<String, JobError>)
        requires
            old(self).well_formed(),
            old(self).running() > 0,
        ensures
            final(self).well_formed(),
            final(self).running() == old(self).running() - 1,
            final(self).waiting() == old(self).waiting(),
            final(self).handed_out() == old(self).handed_out(),
            outcome matches Ok(output) ==> final(self).results() == old(self).results().push(
                output@,
            ) && final(self).failures() == old(self).failures(),
            outcome matches Err(error) ==> final(self).results() == old(self).results() && final(
                self
            ).failures() == old(self).failures().push(error),
    {
        let ghost results_before = self.results.deep_view();
        self.in_flight = self.in_flight - 1;
        match outcome {
            Ok(output) => {
                self.results.push(output);
                assert(self.results.deep_view() =~= results_before.push(output@));
            },
            Err(error) => {
                self.failures.push(error);
            },
        }
    }

    /// The number of conversions in flight, which never exceeds `MAX_IN_FLIGHT`.
    pub fn in_flight(&self) -> (count: usize)
        requires
            self.well_formed(),
        ensures
            count == self.running(),
            count <= MAX_IN_FLIGHT,
    {
        self.in_flight
    }

    /// The number of files that wait for conversion.
    pub fn waiting_count(&self) -> (count: usize)
        requires
            self.well_formed(),
        ensures
            count == self.waiting().len(),
    {
        self.queue.len() - self.started
    }

    /// Whether the batch is over: nothing waits and nothing is in flight.
    pub fn is_finished(&self) -> (done: bool)
        requires
            self.well_formed(),
        ensures
            done == (self.waiting().len() == 0 && self.running() == 0),
    {
        self.started == self.queue.len() && self.in_flight == 0
    }

    /// The number of failures recorded.
    pub fn failure_count(&self) -> (count: usize)
        ensures
            count == self.failures().len(),
    {
        self.failures.len()
    }

    /// The failures recorded so far.
    pub fn failed(&self) -> (failures: &Vec<JobError>)
        ensures
            failures@ == self.failures(),
    {
        &self.failures
    }

    /// Ends the batch and gives its result paths: those of the files passed through or
    /// served from the cache, then those of the conversions in the order in which they
    /// ended. Failed files have no entry.
    pub fn into_results(self) -> (paths: Vec<String>)
        ensures
            paths.deep_view() == self.results(),
    {
        self.results
    }
}

/// Bounded concurrency. In every state of a batch, however many files wait, no more than
/// `MAX_IN_FLIGHT` conversions are in flight.
pub proof fn lemma_in_flight_is_bounded(batch: Dispatcher)
    requires
        batch.well_formed(),
    ensures
        batch.running() <= MAX_IN_FLIGHT,
{
}

/// Pass-through. A text file gives its own path as its result and asks for no conversion;
/// and among the conversions that a list of files asks for there is no text file.
pub proof fn lemma_text_files_are_never_converted(files: Seq<Candidate>)
    ensures
        forall|i: int|
            0 <= i < files.len() && ready(#[trigger] files[i].path@) ==> settled(files[i])
                == seq![files[i].path@] && demanded(files[i]).len() == 0,
        forall|j: int| 0 <= j < all_demanded(files).len() ==> !ready(#[trigger] all_demanded(files)[j]),
    decreases files.len(),
{
    if files.len() > 0 {
        let front = files.drop_last();
        lemma_text_files_are_never_converted(front);
        assert forall|j: int| 0 <= j < all_demanded(files).len() implies !ready(
            #[trigger] all_demanded(files)[j],
        ) by {
            if j < all_demanded(front).len() {
                assert(all_demanded(files)[j] == all_demanded(front)[j]);
            } else {
                assert(all_demanded(files)[j] == demanded(files.last())[j - all_demanded(front).len()]);
            }
        }
    }
}

/// Idempotence. Once a file was converted and the entry for it stored, a file that has since
/// kept its time and its size asks for no conversion: its result is the path stored the
/// first time, or its own path where it is a text file, every time it is submitted.
pub proof fn lemma_unchanged_file_is_not_converted_again(
    converted: FileIdentity,
    stored: CacheEntry,
    again: Candidate,
)
    requires
        stored.valid_for(&converted),
        again.cached == Some(stored),
        again.current matches Some(now) && now.modified_time == converted.modified_time && now.size
            == converted.size,
    ensures
        demanded(again).len() == 0,
        settled(again) == seq![
            if ready(again.path@) {
                again.path@
            } else {
                stored.parsed_path@
            },
        ],
{
}

/// Invalidation. A file that is not text, and whose size or time of modification differs
/// from what the stored entry records, is converted again, and nothing is taken from the
/// cache.
pub proof fn lemma_changed_file_is_converted_again(stored: CacheEntry, again: Candidate)
    requires
        again.cached == Some(stored),
        again.current matches Some(now) && (now.modified_time != stored.modified_time || now.size
            != stored.size),
        !ready(again.path@),
    ensures
        settled(again).len() == 0,
        demanded(again) == seq![again.path@],
{
}

} // verus!
