//! The batch orchestrator: output-path assignment, worker-pool sizing,
//! per-file fault isolation and report aggregation.
//!
//! Each job is processed independently; one file's failure never aborts a
//! sibling.  The worker pool is a bounded, request-scoped pool sized to
//! `min(requested, number of jobs)`.  The report holds exactly one outcome
//! per job, in job order.

use vstd::prelude::*;
use vstd::string::StringExecFns;
use rayon::iter::{IntoParallelRefIterator, ParallelIterator};
use crate::errors::{CompressError, ErrorKind};
use crate::format::OutputFormat;
use crate::image_service::{
    spec_adapter_outcome, spec_format_fits, spec_is_svg_name, ImageService,
};
use crate::paths::{derive_batch_output_path, spec_batch_output_path};
use crate::raster::{decoded_dims, spec_within_decode_budget};
use crate::resize::{spec_dims_valid, spec_target_dims};

verus! {

/// One unit of work: an input path and the input's bytes.
#[derive(Debug)]
pub struct Job {
    pub input: String,
    pub data: Vec<u8>,
}

/// The per-file result: the encoded bytes under their assigned output
/// path, or a typed failure naming the input.
#[derive(Debug)]
pub enum FileOutcome {
    Success { input: String, output_path: String, data: Vec<u8> },
    Failure { input: String, kind: ErrorKind, message: String },
}

impl FileOutcome {
    /// The input path this outcome is about.
    pub open spec fn spec_input(&self) -> Seq<char> {
        match self {
            FileOutcome::Success { input, .. } => input@,
            FileOutcome::Failure { input, .. } => input@,
        }
    }

    /// Whether this outcome is a success.
    pub fn is_success(&self) -> (b: bool)
        ensures
            b == (self is Success),
    {
        match self {
            FileOutcome::Success { .. } => true,
            FileOutcome::Failure { .. } => false,
        }
    }
}

/// The parameters shared by every job of one batch.
#[derive(Debug)]
pub struct BatchParams {
    /// The output file (single-job batches) or output directory.
    pub output_target: String,
    /// Whether `output_target` is a directory.
    pub output_is_dir: bool,
    /// Percentage scale applied to both axes.
    pub scale: u32,
    /// Explicit target width; overrides the scale when the height is also
    /// given.
    pub width: Option<u32>,
    /// Explicit target height; overrides the scale when the width is also
    /// given.
    pub height: Option<u32>,
    /// JPEG quality, 0..=100.
    pub quality: u8,
    /// The output format.
    pub format: OutputFormat,
    /// Whether a successfully compressed input is to be removed afterwards.
    pub delete_original: bool,
}

/// The output path assigned to one job: a name derived from the input's
/// stem inside the output directory, or the output target itself.
pub open spec fn spec_job_output_path(input: Seq<char>, p: BatchParams) -> Seq<char> {
    if p.output_is_dir {
        spec_batch_output_path(input, p.output_target@, p.format)
    } else {
        p.output_target@
    }
}

/// A `FileOutcome` reshaped as the adapter's result, for stating that an
/// outcome conforms to the adapter's contract.
pub open spec fn spec_outcome_as_result(out: FileOutcome) -> Result<Vec<u8>, CompressError> {
    match out {
        FileOutcome::Success { data, .. } => Ok(data),
        FileOutcome::Failure { kind, message, .. } => Err(CompressError { kind, message }),
    }
}

/// One job's outcome is exactly what processing that job yields: it names
/// the job's input, a success carries the assigned output path, and
/// success or failure falls as the adapter's contract dictates.
pub open spec fn spec_job_conforms(job: Job, p: BatchParams, out: FileOutcome) -> bool {
    &&& out.spec_input() == job.input@
    &&& (out matches FileOutcome::Success { output_path, .. } ==> output_path@
        == spec_job_output_path(job.input@, p))
    &&& spec_adapter_outcome(
        job.input@,
        job.data@,
        p.scale,
        p.width,
        p.height,
        p.format,
        spec_outcome_as_result(out),
    )
}

/// Processes one job: compresses the input bytes and assigns the output
/// path.  Failures are captured in the outcome, never propagated.
pub fn run_job(job: &Job, p: &BatchParams) -> (out: FileOutcome)
    ensures
        spec_job_conforms(*job, *p, out),
{
    let service = ImageService::new();
    let r = service.compress_image(
        job.input.as_str(),
        &job.data,
        p.scale,
        p.width,
        p.height,
        p.quality,
        p.format,
    );
    match r {
        Ok(data) => {
            let output_path = if p.output_is_dir {
                derive_batch_output_path(job.input.as_str(), p.output_target.as_str(), p.format)
            } else {
                p.output_target.clone()
            };
            FileOutcome::Success { input: job.input.clone(), output_path, data }
        },
        Err(e) => FileOutcome::Failure { input: job.input.clone(), kind: e.kind, message: e.message },
    }
}

/// Relies on `rayon::ThreadPoolBuilder` and the parallel iterators: the
/// dedicated pool runs exactly `workers` threads; mapping a vector's items
/// and collecting yields one result per item, in the original order, each
/// the result of a `run_job` call on that item; pool construction failure
/// is reported, not propagated.
#[verifier::external_body]
fn par_run_jobs(jobs: &Vec<Job>, p: &BatchParams, workers: usize) -> (r: Result<
    Vec<FileOutcome>,
    String,
>)
    requires
        workers >= 1,
    ensures
        r matches Ok(outs) ==> outs@.len() == jobs@.len() && forall|i: int|
            0 <= i < jobs@.len() ==> spec_job_conforms(jobs@[i], *p, outs@[i]),
{
    let pool = match rayon::ThreadPoolBuilder::new().num_threads(workers).build() {
        Ok(pool) => pool,
        Err(e) => return Err(e.to_string()),
    };
    Ok(pool.install(|| jobs.par_iter().map(|job| run_job(job, p)).collect()))
}

/// `min(requested, available)`: never more workers than there is work.
pub open spec fn spec_clamped_workers(requested: int, n_jobs: int) -> int {
    if requested > n_jobs {
        n_jobs
    } else {
        requested
    }
}

/// Clamps the requested worker count to the number of jobs.
pub fn clamp_workers(requested: usize, n_jobs: usize) -> (w: usize)
    ensures
        w == spec_clamped_workers(requested as int, n_jobs as int),
{
    if requested > n_jobs {
        n_jobs
    } else {
        requested
    }
}

/// The aggregated result of one batch: the size of the worker pool that
/// ran it and one outcome per job.
#[derive(Debug)]
pub struct BatchReport {
    pub workers: usize,
    pub outcomes: Vec<FileOutcome>,
}

/// Whether the request is not actionable: an empty input or output path,
/// a zero worker count, a quality beyond 100, or several jobs aimed at a
/// single output file.
pub open spec fn spec_request_invalid(p: BatchParams, jobs: Seq<Job>, num_threads: usize) -> bool {
    ||| p.output_target@.len() == 0
    ||| num_threads == 0
    ||| p.quality > 100
    ||| (jobs.len() > 1 && !p.output_is_dir)
    ||| exists|i: int| 0 <= i < jobs.len() && (#[trigger] jobs[i]).input@.len() == 0
}

/// Whether some job carries an empty input path.
fn any_empty_input(jobs: &Vec<Job>) -> (b: bool)
    ensures
        b == exists|i: int| 0 <= i < jobs@.len() && (#[trigger] jobs@[i]).input@.len() == 0,
{
    let mut i: usize = 0;
    while i < jobs.len()
        invariant
            i <= jobs@.len(),
            forall|j: int| 0 <= j < i ==> (#[trigger] jobs@[j]).input@.len() != 0,
        decreases jobs@.len() - i,
    {
        if jobs[i].input.as_str().is_empty() {
            proof {
                assert(0 <= i < jobs@.len() && jobs@[i as int].input@.len() == 0);
            }
            return true;
        }
        i = i + 1;
    }
    false
}

/// Runs one batch: validates the request, sizes a dedicated worker pool to
/// `min(num_threads, jobs)`, processes every job with per-file fault
/// isolation, and reports one outcome per job in job order.  An empty job
/// set yields an empty, successful report.  Only an unusable request or a
/// worker pool that could not be built abort the batch.
pub fn run_batch(jobs: Vec<Job>, p: &BatchParams, num_threads: usize) -> (r: Result<
    BatchReport,
    CompressError,
>)
    ensures
        spec_request_invalid(*p, jobs@, num_threads) <==> (r matches Err(e)
            && e.kind == ErrorKind::InvalidRequest),
        !spec_request_invalid(*p, jobs@, num_threads) ==> (match r {
            Ok(rep) => {
                &&& rep.workers == spec_clamped_workers(num_threads as int, jobs@.len() as int)
                &&& rep.outcomes@.len() == jobs@.len()
                &&& forall|i: int|
                    0 <= i < jobs@.len() ==> spec_job_conforms(jobs@[i], *p, rep.outcomes@[i])
            },
            Err(e) => e.kind == ErrorKind::IoError && jobs@.len() > 0,
        }),
{
    if p.output_target.as_str().is_empty() || num_threads == 0 || p.quality > 100 || (jobs.len()
        > 1 && !p.output_is_dir) || any_empty_input(&jobs) {
        return Err(
            CompressError::new(
                ErrorKind::InvalidRequest,
                String::from_str("the request is not actionable"),
            ),
        );
    }
    if jobs.len() == 0 {
        return Ok(BatchReport { workers: 0, outcomes: Vec::new() });
    }
    let workers = clamp_workers(num_threads, jobs.len());
    match par_run_jobs(&jobs, p, workers) {
        Ok(outcomes) => Ok(BatchReport { workers, outcomes }),
        Err(m) => Err(
            CompressError::new(
                ErrorKind::IoError,
                String::from_str("could not build the worker pool: ").concat(m.as_str()),
            ),
        ),
    }
}

/// The number of successes among the outcomes.
pub open spec fn spec_success_count(outs: Seq<FileOutcome>) -> int
    decreases outs.len(),
{
    if outs.len() == 0 {
        0
    } else {
        spec_success_count(outs.drop_last()) + if outs.last() is Success {
            1int
        } else {
            0int
        }
    }
}

/// The number of failures among the outcomes.
pub open spec fn spec_failure_count(outs: Seq<FileOutcome>) -> int
    decreases outs.len(),
{
    if outs.len() == 0 {
        0
    } else {
        spec_failure_count(outs.drop_last()) + if outs.last() is Failure {
            1int
        } else {
            0int
        }
    }
}

/// Counts the successfully processed jobs of a report.
pub fn success_count(rep: &BatchReport) -> (n: usize)
    ensures
        n == spec_success_count(rep.outcomes@),
{
    let mut n: usize = 0;
    let mut i: usize = 0;
    proof {
        assert(rep.outcomes@.take(0) =~= Seq::<FileOutcome>::empty());
    }
    while i < rep.outcomes.len()
        invariant
            i <= rep.outcomes@.len(),
            n <= i,
            n == spec_success_count(rep.outcomes@.take(i as int)),
        decreases rep.outcomes@.len() - i,
    {
        proof {
            assert(rep.outcomes@.take(i + 1).drop_last() =~= rep.outcomes@.take(i as int));
            assert(rep.outcomes@.take(i + 1).last() == rep.outcomes@[i as int]);
        }
        if rep.outcomes[i].is_success() {
            n = n + 1;
        }
        i = i + 1;
    }
    proof {
        assert(rep.outcomes@.take(rep.outcomes@.len() as int) =~= rep.outcomes@);
    }
    n
}

/// One failure's line in the combined error log.
pub open spec fn spec_error_line(input: Seq<char>, message: Seq<char>) -> Seq<char> {
    "\nError processing "@ + input + ": "@ + message
}

/// The combined, newline-joined error log of a report: one line per
/// failure, in report order, nothing for successes.
pub open spec fn spec_error_log(outs: Seq<FileOutcome>) -> Seq<char>
    decreases outs.len(),
{
    if outs.len() == 0 {
        Seq::empty()
    } else {
        spec_error_log(outs.drop_last()) + match outs.last() {
            FileOutcome::Failure { input, message, .. } => spec_error_line(input@, message@),
            FileOutcome::Success { .. } => Seq::empty(),
        }
    }
}

/// Joins every failure of the report into one multi-line message; empty
/// when every job succeeded.
pub fn combined_errors(rep: &BatchReport) -> (log: String)
    ensures
        log@ == spec_error_log(rep.outcomes@),
{
    let mut log = String::new();
    let mut i: usize = 0;
    proof {
        assert(rep.outcomes@.take(0) =~= Seq::<FileOutcome>::empty());
    }
    while i < rep.outcomes.len()
        invariant
            i <= rep.outcomes@.len(),
            log@ == spec_error_log(rep.outcomes@.take(i as int)),
        decreases rep.outcomes@.len() - i,
    {
        proof {
            assert(rep.outcomes@.take(i + 1).drop_last() =~= rep.outcomes@.take(i as int));
            assert(rep.outcomes@.take(i + 1).last() == rep.outcomes@[i as int]);
        }
        match &rep.outcomes[i] {
            FileOutcome::Failure { input, message, .. } => {
                log.append("\nError processing ");
                log.append(input.as_str());
                log.append(": ");
                log.append(message.as_str());
                proof {
                    assert(log@ =~= spec_error_log(rep.outcomes@.take(i + 1)));
                }
            },
            FileOutcome::Success { .. } => {},
        }
        i = i + 1;
    }
    proof {
        assert(rep.outcomes@.take(rep.outcomes@.len() as int) =~= rep.outcomes@);
    }
    log
}

/// Outcome counts are never negative.
pub proof fn lemma_counts_nonneg(outs: Seq<FileOutcome>)
    ensures
        spec_success_count(outs) >= 0,
        spec_failure_count(outs) >= 0,
    decreases outs.len(),
{
    if outs.len() > 0 {
        lemma_counts_nonneg(outs.drop_last());
    }
}

/// Fault isolation's bookkeeping: every job yields exactly one outcome, so
/// the successes and the failures partition the report.
pub proof fn lemma_outcomes_partition(outs: Seq<FileOutcome>)
    ensures
        spec_success_count(outs) + spec_failure_count(outs) == outs.len(),
    decreases outs.len(),
{
    if outs.len() > 0 {
        lemma_outcomes_partition(outs.drop_last());
    }
}

/// The combined error log is empty exactly when no job failed: an empty
/// failure set means total success.
pub proof fn lemma_empty_log_iff_all_success(outs: Seq<FileOutcome>)
    ensures
        spec_error_log(outs).len() == 0 <==> spec_failure_count(outs) == 0,
    decreases outs.len(),
{
    reveal_strlit("\nError processing ");
    reveal_strlit(": ");
    lemma_counts_nonneg(outs);
    if outs.len() > 0 {
        lemma_empty_log_iff_all_success(outs.drop_last());
        lemma_counts_nonneg(outs.drop_last());
    }
}

/// The worker pool never exceeds the number of jobs nor the requested
/// count, and is positive whenever there is work and a positive request.
pub proof fn lemma_worker_clamp(requested: int, n_jobs: int)
    requires
        requested >= 0,
        n_jobs >= 0,
    ensures
        spec_clamped_workers(requested, n_jobs) <= n_jobs,
        spec_clamped_workers(requested, n_jobs) <= requested,
        requested >= 1 && n_jobs >= 1 ==> spec_clamped_workers(requested, n_jobs) >= 1,
{
}

/// Fault isolation, failure side: a job whose bytes do not decode yields
/// a failure naming exactly that input — its outcome depends on its own
/// job alone, whatever the sibling jobs hold.
pub proof fn lemma_undecodable_job_fails(job: Job, p: BatchParams, out: FileOutcome)
    requires
        spec_job_conforms(job, p, out),
        job.input@.len() > 0,
        !spec_is_svg_name(job.input@),
        decoded_dims(job.data@) is None,
    ensures
        out is Failure,
        out.spec_input() == job.input@,
        (out matches FileOutcome::Failure { kind, .. } ==> kind == ErrorKind::DecodeError),
{
}

/// Fault isolation, success side: a job whose bytes decode, and whose
/// resolved target dimensions are sound, fit the format and lie within
/// the decode budget, yields a success carrying the derived output path
/// and bytes that decode to the target — whatever the sibling jobs hold.
pub proof fn lemma_decodable_job_succeeds(
    job: Job,
    p: BatchParams,
    out: FileOutcome,
    w: u32,
    h: u32,
)
    requires
        spec_job_conforms(job, p, out),
        job.input@.len() > 0,
        !spec_is_svg_name(job.input@),
        decoded_dims(job.data@) == Some((w, h)),
        ({
            let (tw, th) = spec_target_dims(w, h, p.scale, p.width, p.height);
            spec_dims_valid(tw, th) && spec_format_fits(p.format, tw, th)
                && spec_within_decode_budget((tw as u32), (th as u32))
        }),
    ensures
        out is Success,
        out.spec_input() == job.input@,
        (out matches FileOutcome::Success { output_path, data, .. } ==> ({
            let (tw, th) = spec_target_dims(w, h, p.scale, p.width, p.height);
            output_path@ == spec_job_output_path(job.input@, p) && decoded_dims(data@) == Some(
                ((tw as u32), (th as u32)),
            )
        })),
{
}

/// Whether an input file is to be removed: only when removal was requested
/// and this very file's compression succeeded, never on a failure.
pub fn should_delete_original(delete_original: bool, out: &FileOutcome) -> (b: bool)
    ensures
        b <==> (delete_original && out is Success),
{
    delete_original && out.is_success()
}

} // verus!
