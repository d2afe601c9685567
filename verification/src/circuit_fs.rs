//! The artifact store's layout on a local filesystem.
//!
//! Every job has a directory of its own under the store's root, named by the
//! job id, with fixed places for its inputs, compiled form, results and logs.
//! This module decides where things go and what is written; it touches no
//! file itself. A store operation yields a plan of directories to create and
//! files to write, in order, which the caller carries out.
//!
//! Paths are text with `/` between the parts.

use vstd::prelude::*;
use vstd::slice::slice_to_vec;
use vstd::string::{StrSliceExecFns, StringExecFns, StringSliceAdditionalSpecFns};

verus! {

/// Default filesystem root of the store.
///
/// For local development and tests, use a temporary directory instead.
pub const DEFAULT_CIRCUIT_FS_ROOT: &'static str = "/var/lib/eigen/circuit_fs";

/// The source artifacts of a job.
#[derive(Debug, Clone, PartialEq, Eq)]
pub struct SourceBundle {
    pub job_yaml: String,
    pub program_eigen_py: Vec<u8>,
}

/// The result artifacts of a job.
#[derive(Debug, Clone, PartialEq, Eq)]
pub struct ResultsBundle {
    /// Normalized measurement counts.
    pub counts_json: Vec<u8>,
    /// Execution metadata.
    pub metadata_json: Vec<u8>,
}

/// Error details artifact, for jobs that failed in the background.
#[derive(Debug, Clone, PartialEq, Eq)]
pub struct ErrorDetails {
    /// A short human-readable summary.
    pub summary: String,
    /// Structured details in JSON.
    pub details_json: Vec<u8>,
}

/// What can go wrong in the artifact store.
#[derive(Debug, Clone, PartialEq, Eq)]
pub enum CircuitFsError {
    /// No artifact at `path`.
    NotFound { path: String },
    /// The job id is empty or could lead out of the job's directory.
    InvalidJobId { job_id: String },
    /// The filesystem failed in another way; `message` says how.
    Io { message: String },
}

/// What the error says, in words.
pub open spec fn error_text(e: CircuitFsErrorView) -> Seq<char> {
    match e {
        CircuitFsErrorView::NotFound { path } => "artifact not found: "@ + path,
        CircuitFsErrorView::InvalidJobId { job_id } => "invalid job_id: "@ + job_id,
        CircuitFsErrorView::Io { message } => message,
    }
}

impl CircuitFsError {
    /// The error in words.
    pub fn message(&self) -> (r: String)
        ensures
            r@ == error_text(self@),
    {
        match self {
            CircuitFsError::NotFound { path } => String::from_str("artifact not found: ").concat(
                path.as_str(),
            ),
            CircuitFsError::InvalidJobId { job_id } => String::from_str("invalid job_id: ").concat(
                job_id.as_str(),
            ),
            CircuitFsError::Io { message } => message.clone(),
        }
    }
}

/// Why a file could not be read.
#[derive(Debug, Clone, PartialEq, Eq)]
pub enum ReadFailure {
    /// There is no such file.
    NotFound,
    /// Anything else; `message` says what.
    Other { message: String },
}

/// An error of the artifact store as a mathematical value.
pub enum CircuitFsErrorView {
    NotFound { path: Seq<char> },
    InvalidJobId { job_id: Seq<char> },
    Io { message: Seq<char> },
}

/// A read failure as a mathematical value.
pub enum ReadFailureView {
    NotFound,
    Other { message: Seq<char> },
}

impl View for CircuitFsError {
    type V = CircuitFsErrorView;

    open spec fn view(&self) -> CircuitFsErrorView {
        match *self {
            CircuitFsError::NotFound { path } => CircuitFsErrorView::NotFound { path: path@ },
            CircuitFsError::InvalidJobId { job_id } => CircuitFsErrorView::InvalidJobId {
                job_id: job_id@,
            },
            CircuitFsError::Io { message } => CircuitFsErrorView::Io { message: message@ },
        }
    }
}

impl View for ReadFailure {
    type V = ReadFailureView;

    open spec fn view(&self) -> ReadFailureView {
        match *self {
            ReadFailure::NotFound => ReadFailureView::NotFound,
            ReadFailure::Other { message } => ReadFailureView::Other { message: message@ },
        }
    }
}

/// One file to write: the whole content replaces what is there.
#[derive(Debug, Clone, PartialEq, Eq)]
pub struct FileWrite {
    pub path: String,
    pub bytes: Vec<u8>,
}

/// What a store operation does to the filesystem: first the directories are
/// created, parents included, then the files are written, each atomically,
/// both in the order given.
#[derive(Debug, Clone, PartialEq, Eq)]
pub struct StorePlan {
    pub dirs: Vec<String>,
    pub files: Vec<FileWrite>,
}

/// One line to append to a log: after the directories are created, `text`
/// goes to the end of the file at `path`, which is created if missing.
#[derive(Debug, Clone, PartialEq, Eq)]
pub struct LogAppend {
    pub dirs: Vec<String>,
    pub path: String,
    pub text: String,
}

/// Position `i` of `s` holds a path separator or the second dot of `..`.
pub open spec fn traversal_at(s: Seq<char>, i: int) -> bool {
    s[i] == '/' || s[i] == '\\' || (i > 0 && s[i - 1] == '.' && s[i] == '.')
}

/// A job id is valid when it is not empty and holds neither `/`, `\` nor
/// `..`, so that it names exactly one directory below the root.
pub open spec fn valid_job_id(s: Seq<char>) -> bool {
    s.len() > 0 && forall|i: int| 0 <= i < s.len() ==> !#[trigger] traversal_at(s, i)
}

/// `part` adjoined to `base`: a `/` goes between them unless `base` is empty
/// or ends in one.
pub open spec fn join(base: Seq<char>, part: Seq<char>) -> Seq<char> {
    if base.len() == 0 || base.last() == '/' {
        base + part
    } else {
        base + seq!['/'] + part
    }
}

pub open spec fn job_root_of(root: Seq<char>, job_id: Seq<char>) -> Seq<char> {
    join(root, job_id)
}

pub open spec fn input_dir_of(root: Seq<char>, job_id: Seq<char>) -> Seq<char> {
    join(job_root_of(root, job_id), "input"@)
}

pub open spec fn compiled_dir_of(root: Seq<char>, job_id: Seq<char>) -> Seq<char> {
    join(job_root_of(root, job_id), "compiled"@)
}

pub open spec fn results_dir_of(root: Seq<char>, job_id: Seq<char>) -> Seq<char> {
    join(job_root_of(root, job_id), "results"@)
}

pub open spec fn logs_dir_of(root: Seq<char>, job_id: Seq<char>) -> Seq<char> {
    join(job_root_of(root, job_id), "logs"@)
}

/// The directories of a job, parents first.
pub open spec fn layout_of(root: Seq<char>, job_id: Seq<char>) -> Seq<Seq<char>> {
    seq![
        job_root_of(root, job_id),
        input_dir_of(root, job_id),
        compiled_dir_of(root, job_id),
        results_dir_of(root, job_id),
        logs_dir_of(root, job_id),
    ]
}

/// The characters of each string of a list.
pub open spec fn texts(v: Seq<String>) -> Seq<Seq<char>> {
    Seq::new(v.len(), |i: int| v[i]@)
}

/// The path and content of each file of a list.
pub open spec fn writes(v: Seq<FileWrite>) -> Seq<(Seq<char>, Seq<u8>)> {
    Seq::new(v.len(), |i: int| (v[i].path@, v[i].bytes@))
}

/// `r` is the answer for a path that depends on a job id: the path if the id
/// is valid, and else the id as invalid.
pub open spec fn is_path_of(
    r: Result<String, CircuitFsError>,
    job_id: Seq<char>,
    path: Seq<char>,
) -> bool {
    match r {
        Ok(p) => valid_job_id(job_id) && p@ == path,
        Err(e) => !valid_job_id(job_id) && e@ == (CircuitFsErrorView::InvalidJobId { job_id }),
    }
}

/// `r` is the answer of a store operation: the plan with the job's layout
/// and the given files if the id is valid, and else the id as invalid.
pub open spec fn is_plan_of(
    r: Result<StorePlan, CircuitFsError>,
    root: Seq<char>,
    job_id: Seq<char>,
    files: Seq<(Seq<char>, Seq<u8>)>,
) -> bool {
    match r {
        Ok(plan) => valid_job_id(job_id) && texts(plan.dirs@) == layout_of(root, job_id) && writes(
            plan.files@,
        ) == files,
        Err(e) => !valid_job_id(job_id) && e@ == (CircuitFsErrorView::InvalidJobId { job_id }),
    }
}

/// The error that stands for a failure to read `path`: a missing file is
/// `NotFound` with the path, and anything else is `Io` with the failure's
/// own message.
pub open spec fn read_error(path: Seq<char>, f: ReadFailureView) -> CircuitFsErrorView {
    match f {
        ReadFailureView::NotFound => CircuitFsErrorView::NotFound { path },
        ReadFailureView::Other { message } => CircuitFsErrorView::Io { message },
    }
}

/// How a read failed, if it did.
pub open spec fn failure_of<T>(outcome: Result<T, ReadFailure>) -> Option<ReadFailureView> {
    match outcome {
        Ok(_) => None,
        Err(f) => Some(f@),
    }
}

/// The error of loading one artifact of job `job_id` from `path`, if there
/// is one: an invalid id, or else the failed read.
pub open spec fn load_error(
    job_id: Seq<char>,
    path: Seq<char>,
    failure: Option<ReadFailureView>,
) -> Option<CircuitFsErrorView> {
    if !valid_job_id(job_id) {
        Some(CircuitFsErrorView::InvalidJobId { job_id })
    } else {
        match failure {
            Some(f) => Some(read_error(path, f)),
            None => None,
        }
    }
}

/// The error of loading two artifacts of job `job_id`, if there is one: an
/// invalid id, or else the first read that failed.
pub open spec fn load_error_of_two(
    job_id: Seq<char>,
    first_path: Seq<char>,
    first: Option<ReadFailureView>,
    second_path: Seq<char>,
    second: Option<ReadFailureView>,
) -> Option<CircuitFsErrorView> {
    if first is Some {
        load_error(job_id, first_path, first)
    } else {
        load_error(job_id, second_path, second)
    }
}

/// The canonical directory name for a job.
pub fn job_dir(job_id: &str) -> (r: String)
    ensures
        r@ == "jobs/"@ + job_id@,
{
    String::from_str("jobs/").concat(job_id)
}

/// Checks a job id: it must not be empty and must not hold `/`, `\` or
/// `..`.
pub fn validate_job_id(job_id: &str) -> (r: Result<(), CircuitFsError>)
    ensures
        match r {
            Ok(_) => valid_job_id(job_id@),
            Err(e) => !valid_job_id(job_id@) && e@ == (CircuitFsErrorView::InvalidJobId {
                job_id: job_id@,
            }),
        },
{
    let mut bad = job_id.is_empty();
    let mut after_dot = false;
    for c in it: job_id.chars()
        invariant
            it.seq() == job_id@,
            bad == (job_id@.len() == 0 || exists|j: int|
                0 <= j < it.index() && #[trigger] traversal_at(job_id@, j)),
            after_dot == (it.index() > 0 && job_id@[it.index() - 1] == '.'),
    {
        if c == '/' || c == '\\' || (after_dot && c == '.') {
            assert(traversal_at(job_id@, it.index() as int));
            bad = true;
        }
        after_dot = c == '.';
    }
    if bad {
        Err(CircuitFsError::InvalidJobId { job_id: String::from_str(job_id) })
    } else {
        Ok(())
    }
}

/// Adjoins `part` to the path `base`.
pub fn join_path(base: &str, part: &str) -> (r: String)
    ensures
        r@ == join(base@, part@),
{
    let n = base.unicode_len();
    let mut path = String::from_str(base);
    if n > 0 && base.get_char(n - 1) != '/' {
        proof {
            reveal_strlit("/");
        }
        path.append("/");
        assert(path@ =~= base@ + seq!['/']);
    }
    path.append(part);
    path
}

/// `part` below the path in `parent`, where there is one.
fn child(parent: Result<String, CircuitFsError>, part: &str) -> (r: Result<String, CircuitFsError>)
    ensures
        match parent {
            Ok(p) => r matches Ok(q) && q@ == join(p@, part@),
            Err(e) => r == Err::<String, CircuitFsError>(e),
        },
{
    match parent {
        Ok(p) => Ok(join_path(p.as_str(), part)),
        Err(e) => Err(e),
    }
}

/// The artifact store on a local filesystem.
#[derive(Debug, Clone)]
pub struct CircuitFsLocal {
    root: String,
}

impl View for CircuitFsLocal {
    type V = Seq<char>;

    /// The root directory.
    closed spec fn view(&self) -> Seq<char> {
        self.root@
    }
}

impl CircuitFsLocal {
    /// A store with the given root directory.
    pub fn new(root: &str) -> (r: CircuitFsLocal)
        ensures
            r@ == root@,
    {
        CircuitFsLocal { root: String::from_str(root) }
    }

    /// A store with the default root directory.
    pub fn new_default() -> (r: CircuitFsLocal)
        ensures
            r@ == DEFAULT_CIRCUIT_FS_ROOT@,
    {
        CircuitFsLocal::new(DEFAULT_CIRCUIT_FS_ROOT)
    }

    /// The configured root.
    pub fn root(&self) -> (r: &str)
        ensures
            r@ == self@,
    {
        self.root.as_str()
    }

    /// `{root}/{job_id}`
    pub fn job_root(&self, job_id: &str) -> (r: Result<String, CircuitFsError>)
        ensures
            is_path_of(r, job_id@, job_root_of(self@, job_id@)),
    {
        match validate_job_id(job_id) {
            Ok(_) => Ok(join_path(self.root.as_str(), job_id)),
            Err(e) => Err(e),
        }
    }

    /// `{root}/{job_id}/input`
    pub fn input_dir(&self, job_id: &str) -> (r: Result<String, CircuitFsError>)
        ensures
            is_path_of(r, job_id@, input_dir_of(self@, job_id@)),
    {
        child(self.job_root(job_id), "input")
    }

    /// `{root}/{job_id}/compiled`
    pub fn compiled_dir(&self, job_id: &str) -> (r: Result<String, CircuitFsError>)
        ensures
            is_path_of(r, job_id@, compiled_dir_of(self@, job_id@)),
    {
        child(self.job_root(job_id), "compiled")
    }

    /// `{root}/{job_id}/results`
    pub fn results_dir(&self, job_id: &str) -> (r: Result<String, CircuitFsError>)
        ensures
            is_path_of(r, job_id@, results_dir_of(self@, job_id@)),
    {
        child(self.job_root(job_id), "results")
    }

    /// `{root}/{job_id}/logs`
    pub fn logs_dir(&self, job_id: &str) -> (r: Result<String, CircuitFsError>)
        ensures
            is_path_of(r, job_id@, logs_dir_of(self@, job_id@)),
    {
        child(self.job_root(job_id), "logs")
    }

    /// `{root}/{job_id}/meta.json`
    pub fn meta_json_path(&self, job_id: &str) -> (r: Result<String, CircuitFsError>)
        ensures
            is_path_of(r, job_id@, join(job_root_of(self@, job_id@), "meta.json"@)),
    {
        child(self.job_root(job_id), "meta.json")
    }

    /// `{root}/{job_id}/input/job.yaml`
    pub fn job_yaml_path(&self, job_id: &str) -> (r: Result<String, CircuitFsError>)
        ensures
            is_path_of(r, job_id@, join(input_dir_of(self@, job_id@), "job.yaml"@)),
    {
        child(self.input_dir(job_id), "job.yaml")
    }

    /// `{root}/{job_id}/input/program.eigen.py`
    pub fn program_path(&self, job_id: &str) -> (r: Result<String, CircuitFsError>)
        ensures
            is_path_of(r, job_id@, join(input_dir_of(self@, job_id@), "program.eigen.py"@)),
    {
        child(self.input_dir(job_id), "program.eigen.py")
    }

    /// `{root}/{job_id}/compiled/circuit.aqo.json`
    pub fn compiled_aqo_json_path(&self, job_id: &str) -> (r: Result<String, CircuitFsError>)
        ensures
            is_path_of(r, job_id@, join(compiled_dir_of(self@, job_id@), "circuit.aqo.json"@)),
    {
        child(self.compiled_dir(job_id), "circuit.aqo.json")
    }

    /// `{root}/{job_id}/results/counts.json`
    pub fn counts_json_path(&self, job_id: &str) -> (r: Result<String, CircuitFsError>)
        ensures
            is_path_of(r, job_id@, join(results_dir_of(self@, job_id@), "counts.json"@)),
    {
        child(self.results_dir(job_id), "counts.json")
    }

    /// `{root}/{job_id}/results/metadata.json`
    pub fn metadata_json_path(&self, job_id: &str) -> (r: Result<String, CircuitFsError>)
        ensures
            is_path_of(r, job_id@, join(results_dir_of(self@, job_id@), "metadata.json"@)),
    {
        child(self.results_dir(job_id), "metadata.json")
    }

    /// `{root}/{job_id}/results/error.json`
    ///
    /// Optional: structured details of a job failure.
    pub fn error_json_path(&self, job_id: &str) -> (r: Result<String, CircuitFsError>)
        ensures
            is_path_of(r, job_id@, join(results_dir_of(self@, job_id@), "error.json"@)),
    {
        child(self.results_dir(job_id), "error.json")
    }

    /// The directories that make up the layout of a job, in the order in
    /// which they are to be created: the job's root first.
    pub fn ensure_job_layout(&self, job_id: &str) -> (r: Result<Vec<String>, CircuitFsError>)
        ensures
            match r {
                Ok(dirs) => valid_job_id(job_id@) && texts(dirs@) == layout_of(self@, job_id@),
                Err(e) => !valid_job_id(job_id@) && e@ == (CircuitFsErrorView::InvalidJobId {
                job_id: job_id@,
            }),
            },
    {
        let job_root = match self.job_root(job_id) {
            Ok(p) => p,
            Err(e) => {
                return Err(e);
            },
        };
        let mut dirs: Vec<String> = Vec::new();
        let input = join_path(job_root.as_str(), "input");
        let compiled = join_path(job_root.as_str(), "compiled");
        let results = join_path(job_root.as_str(), "results");
        let logs = join_path(job_root.as_str(), "logs");
        dirs.push(job_root);
        dirs.push(input);
        dirs.push(compiled);
        dirs.push(results);
        dirs.push(logs);
        assert(texts(dirs@) =~= layout_of(self@, job_id@));
        Ok(dirs)
    }

    /// The plan that writes `files` into the layout of job `job_id`.
    fn plan(&self, job_id: &str, files: Vec<FileWrite>) -> (r: Result<StorePlan, CircuitFsError>)
        ensures
            is_plan_of(r, self@, job_id@, writes(files@)),
    {
        match self.ensure_job_layout(job_id) {
            Ok(dirs) => Ok(StorePlan { dirs, files }),
            Err(e) => Err(e),
        }
    }

    /// Stores `input/job.yaml` and `input/program.eigen.py`, in that order.
    pub fn store_source_bundle(
        &self,
        job_id: &str,
        job_yaml: &str,
        program_eigen_py: &[u8],
    ) -> (r: Result<StorePlan, CircuitFsError>)
        ensures
            is_plan_of(
                r,
                self@,
                job_id@,
                seq![
                    (join(input_dir_of(self@, job_id@), "job.yaml"@), job_yaml.spec_bytes()),
                    (join(input_dir_of(self@, job_id@), "program.eigen.py"@), program_eigen_py@),
                ],
            ),
    {
        let yaml_path = match self.job_yaml_path(job_id) {
            Ok(p) => p,
            Err(e) => {
                return Err(e);
            },
        };
        let program_path = match self.program_path(job_id) {
            Ok(p) => p,
            Err(e) => {
                return Err(e);
            },
        };
        let mut files: Vec<FileWrite> = Vec::new();
        files.push(FileWrite { path: yaml_path, bytes: job_yaml.as_bytes_vec() });
        files.push(FileWrite { path: program_path, bytes: slice_to_vec(program_eigen_py) });
        assert(writes(files@) =~= seq![
            (join(input_dir_of(self@, job_id@), "job.yaml"@), job_yaml.spec_bytes()),
            (join(input_dir_of(self@, job_id@), "program.eigen.py"@), program_eigen_py@),
        ]);
        self.plan(job_id, files)
    }

    /// Stores `compiled/circuit.aqo.json`.
    pub fn store_compiled_aqo_json(&self, job_id: &str, aqo_json: &[u8]) -> (r: Result<
        StorePlan,
        CircuitFsError,
    >)
        ensures
            is_plan_of(
                r,
                self@,
                job_id@,
                seq![(join(compiled_dir_of(self@, job_id@), "circuit.aqo.json"@), aqo_json@)],
            ),
    {
        let path = match self.compiled_aqo_json_path(job_id) {
            Ok(p) => p,
            Err(e) => {
                return Err(e);
            },
        };
        let mut files: Vec<FileWrite> = Vec::new();
        files.push(FileWrite { path, bytes: slice_to_vec(aqo_json) });
        assert(writes(files@) =~= seq![
            (join(compiled_dir_of(self@, job_id@), "circuit.aqo.json"@), aqo_json@),
        ]);
        self.plan(job_id, files)
    }

    /// Stores `results/counts.json` and `results/metadata.json`, in that
    /// order. Both are read while jobs run, so both are written atomically.
    pub fn store_results_bundle(
        &self,
        job_id: &str,
        counts_json: &[u8],
        metadata_json: &[u8],
    ) -> (r: Result<StorePlan, CircuitFsError>)
        ensures
            is_plan_of(
                r,
                self@,
                job_id@,
                seq![
                    (join(results_dir_of(self@, job_id@), "counts.json"@), counts_json@),
                    (join(results_dir_of(self@, job_id@), "metadata.json"@), metadata_json@),
                ],
            ),
    {
        let counts_path = match self.counts_json_path(job_id) {
            Ok(p) => p,
            Err(e) => {
                return Err(e);
            },
        };
        let metadata_path = match self.metadata_json_path(job_id) {
            Ok(p) => p,
            Err(e) => {
                return Err(e);
            },
        };
        let mut files: Vec<FileWrite> = Vec::new();
        files.push(FileWrite { path: counts_path, bytes: slice_to_vec(counts_json) });
        files.push(FileWrite { path: metadata_path, bytes: slice_to_vec(metadata_json) });
        assert(writes(files@) =~= seq![
            (join(results_dir_of(self@, job_id@), "counts.json"@), counts_json@),
            (join(results_dir_of(self@, job_id@), "metadata.json"@), metadata_json@),
        ]);
        self.plan(job_id, files)
    }

    /// Stores structured error details in `results/error.json`.
    ///
    /// This does not replace logs: it is a stable, machine-readable artifact
    /// that a job's `error_details_ref` can point to.
    pub fn store_error_details_json(&self, job_id: &str, error_json: &[u8]) -> (r: Result<
        StorePlan,
        CircuitFsError,
    >)
        ensures
            is_plan_of(
                r,
                self@,
                job_id@,
                seq![(join(results_dir_of(self@, job_id@), "error.json"@), error_json@)],
            ),
    {
        let path = match self.error_json_path(job_id) {
            Ok(p) => p,
            Err(e) => {
                return Err(e);
            },
        };
        let mut files: Vec<FileWrite> = Vec::new();
        files.push(FileWrite { path, bytes: slice_to_vec(error_json) });
        assert(writes(files@) =~= seq![
            (join(results_dir_of(self@, job_id@), "error.json"@), error_json@),
        ]);
        self.plan(job_id, files)
    }

    /// Puts together the source bundle of job `job_id` from what reading
    /// `input/job.yaml` and `input/program.eigen.py` gave.
    ///
    /// An invalid id comes first, then a failure on `job.yaml`, then one on
    /// the program.
    pub fn load_source_bundle(
        &self,
        job_id: &str,
        job_yaml: Result<String, ReadFailure>,
        program_eigen_py: Result<Vec<u8>, ReadFailure>,
    ) -> (r: Result<SourceBundle, CircuitFsError>)
        ensures
            match r {
                Ok(bundle) => job_yaml == Ok::<String, ReadFailure>(bundle.job_yaml)
                    && program_eigen_py == Ok::<Vec<u8>, ReadFailure>(bundle.program_eigen_py)
                    && valid_job_id(job_id@),
                Err(e) => Some(e@) == load_error_of_two(
                    job_id@,
                    join(input_dir_of(self@, job_id@), "job.yaml"@),
                    failure_of(job_yaml),
                    join(input_dir_of(self@, job_id@), "program.eigen.py"@),
                    failure_of(program_eigen_py),
                ),
            },
    {
        let yaml_path = match self.job_yaml_path(job_id) {
            Ok(p) => p,
            Err(e) => {
                return Err(e);
            },
        };
        let program_path = match self.program_path(job_id) {
            Ok(p) => p,
            Err(e) => {
                return Err(e);
            },
        };
        let job_yaml = match read_to_string_not_found(yaml_path.as_str(), job_yaml) {
            Ok(text) => text,
            Err(e) => {
                return Err(e);
            },
        };
        let program_eigen_py = match read_bytes_not_found(program_path.as_str(), program_eigen_py) {
            Ok(bytes) => bytes,
            Err(e) => {
                return Err(e);
            },
        };
        Ok(SourceBundle { job_yaml, program_eigen_py })
    }

    /// What reading `compiled/circuit.aqo.json` of job `job_id` comes to.
    pub fn load_compiled_aqo_json(
        &self,
        job_id: &str,
        aqo_json: Result<Vec<u8>, ReadFailure>,
    ) -> (r: Result<Vec<u8>, CircuitFsError>)
        ensures
            match r {
                Ok(bytes) => aqo_json == Ok::<Vec<u8>, ReadFailure>(bytes) && valid_job_id(job_id@),
                Err(e) => Some(e@) == load_error(
                    job_id@,
                    join(compiled_dir_of(self@, job_id@), "circuit.aqo.json"@),
                    failure_of(aqo_json),
                ),
            },
    {
        let path = match self.compiled_aqo_json_path(job_id) {
            Ok(p) => p,
            Err(e) => {
                return Err(e);
            },
        };
        read_bytes_not_found(path.as_str(), aqo_json)
    }

    /// Puts together the results bundle of job `job_id` from what reading
    /// `results/counts.json` and `results/metadata.json` gave.
    ///
    /// An invalid id comes first, then a failure on the counts, then one on
    /// the metadata.
    pub fn load_results_bundle(
        &self,
        job_id: &str,
        counts_json: Result<Vec<u8>, ReadFailure>,
        metadata_json: Result<Vec<u8>, ReadFailure>,
    ) -> (r: Result<ResultsBundle, CircuitFsError>)
        ensures
            match r {
                Ok(bundle) => counts_json == Ok::<Vec<u8>, ReadFailure>(bundle.counts_json)
                    && metadata_json == Ok::<Vec<u8>, ReadFailure>(bundle.metadata_json)
                    && valid_job_id(job_id@),
                Err(e) => Some(e@) == load_error_of_two(
                    job_id@,
                    join(results_dir_of(self@, job_id@), "counts.json"@),
                    failure_of(counts_json),
                    join(results_dir_of(self@, job_id@), "metadata.json"@),
                    failure_of(metadata_json),
                ),
            },
    {
        let counts_path = match self.counts_json_path(job_id) {
            Ok(p) => p,
            Err(e) => {
                return Err(e);
            },
        };
        let metadata_path = match self.metadata_json_path(job_id) {
            Ok(p) => p,
            Err(e) => {
                return Err(e);
            },
        };
        let counts_json = match read_bytes_not_found(counts_path.as_str(), counts_json) {
            Ok(bytes) => bytes,
            Err(e) => {
                return Err(e);
            },
        };
        let metadata_json = match read_bytes_not_found(metadata_path.as_str(), metadata_json) {
            Ok(bytes) => bytes,
            Err(e) => {
                return Err(e);
            },
        };
        Ok(ResultsBundle { counts_json, metadata_json })
    }

    /// What reading `results/error.json` of job `job_id` comes to.
    pub fn load_error_details_json(
        &self,
        job_id: &str,
        error_json: Result<Vec<u8>, ReadFailure>,
    ) -> (r: Result<Vec<u8>, CircuitFsError>)
        ensures
            match r {
                Ok(bytes) => error_json == Ok::<Vec<u8>, ReadFailure>(bytes) && valid_job_id(
                    job_id@,
                ),
                Err(e) => Some(e@) == load_error(
                    job_id@,
                    join(results_dir_of(self@, job_id@), "error.json"@),
                    failure_of(error_json),
                ),
            },
    {
        let path = match self.error_json_path(job_id) {
            Ok(p) => p,
            Err(e) => {
                return Err(e);
            },
        };
        read_bytes_not_found(path.as_str(), error_json)
    }

    /// Appends a line to a stage log, `logs/{log_name}.log`. The line is
    /// written with a newline after it.
    pub fn append_log_line(&self, job_id: &str, log_name: &str, line: &str) -> (r: Result<
        LogAppend,
        CircuitFsError,
    >)
        ensures
            match r {
                Ok(plan) => {
                    &&& valid_job_id(job_id@)
                    &&& texts(plan.dirs@) == layout_of(self@, job_id@)
                    &&& plan.path@ == join(logs_dir_of(self@, job_id@), log_name@ + ".log"@)
                    &&& plan.text@ == line@ + seq!['\n']
                },
                Err(e) => !valid_job_id(job_id@) && e@ == (CircuitFsErrorView::InvalidJobId {
                job_id: job_id@,
            }),
            },
    {
        let dirs = match self.ensure_job_layout(job_id) {
            Ok(dirs) => dirs,
            Err(e) => {
                return Err(e);
            },
        };
        let file_name = String::from_str(log_name).concat(".log");
        let path = child(self.logs_dir(job_id), file_name.as_str());
        let path = match path {
            Ok(p) => p,
            Err(e) => {
                return Err(e);
            },
        };
        proof {
            reveal_strlit("\n");
        }
        let text = String::from_str(line).concat("\n");
        assert(text@ =~= line@ + seq!['\n']);
        Ok(LogAppend { dirs, path, text })
    }
}

/// What reading the artifact at `path` comes to: the content, or the error
/// that stands for the failure. A missing file is `NotFound` with the path.
pub fn read_bytes_not_found(path: &str, outcome: Result<Vec<u8>, ReadFailure>) -> (r: Result<
    Vec<u8>,
    CircuitFsError,
>)
    ensures
        match r {
            Ok(bytes) => outcome == Ok::<Vec<u8>, ReadFailure>(bytes),
            Err(e) => outcome matches Err(f) && e@ == read_error(path@, f@),
        },
{
    match outcome {
        Ok(bytes) => Ok(bytes),
        Err(ReadFailure::NotFound) => Err(
            CircuitFsError::NotFound { path: String::from_str(path) },
        ),
        Err(ReadFailure::Other { message }) => Err(CircuitFsError::Io { message }),
    }
}

/// What reading the text artifact at `path` comes to: the text, or the
/// error that stands for the failure. A missing file is `NotFound` with the
/// path.
pub fn read_to_string_not_found(path: &str, outcome: Result<String, ReadFailure>) -> (r: Result<
    String,
    CircuitFsError,
>)
    ensures
        match r {
            Ok(text) => outcome == Ok::<String, ReadFailure>(text),
            Err(e) => outcome matches Err(f) && e@ == read_error(path@, f@),
        },
{
    match outcome {
        Ok(text) => Ok(text),
        Err(ReadFailure::NotFound) => Err(
            CircuitFsError::NotFound { path: String::from_str(path) },
        ),
        Err(ReadFailure::Other { message }) => Err(CircuitFsError::Io { message }),
    }
}

} // verus!
