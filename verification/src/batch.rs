//! The vocabulary of a batch: jobs, progress events and permits.
use crate::converter::ConversionOptions;
use crate::error::PermitSystemFault;
use std::path::PathBuf;
use vstd::prelude::*;

verus! {

/// A path of the file system, carried through without looking inside.
#[verifier::external_type_specification]
#[verifier::external_body]
pub struct ExPathBuf(std::path::PathBuf);

/// `PathBuf::clone`: the copy is the same path.
pub assume_specification[ <std::path::PathBuf as Clone>::clone ](path: &PathBuf) -> (copy: PathBuf)
    ensures
        copy == *path,
;

/// A progress update of a running batch.
#[derive(Debug, Clone, PartialEq, Eq)]
pub enum BatchProgress {
    Processing { file: String },
    Completed { file: String },
    Failed { file: String, error: String },
    Finished { successful: usize, failed: usize },
}

/// What a progress update says, as plain values.
pub enum ProgressView {
    Processing { file: Seq<char> },
    Completed { file: Seq<char> },
    Failed { file: Seq<char>, error: Seq<char> },
    Finished { successful: nat, failed: nat },
}

impl View for BatchProgress {
    type V = ProgressView;

    open spec fn view(&self) -> ProgressView {
        match self {
            BatchProgress::Processing { file } => ProgressView::Processing { file: file@ },
            BatchProgress::Completed { file } => ProgressView::Completed { file: file@ },
            BatchProgress::Failed { file, error } => ProgressView::Failed {
                file: file@,
                error: error@,
            },
            BatchProgress::Finished { successful, failed } => ProgressView::Finished {
                successful: *successful as nat,
                failed: *failed as nat,
            },
        }
    }
}

/// One requested conversion.
#[derive(Clone)]
pub struct BatchJob {
    pub input_path: PathBuf,
    pub output_path: PathBuf,
    pub options: ConversionOptions,
}

/// What `Path::file_name` gives for a path, as text: the last component,
/// where the path has one and it is valid Unicode.
pub uninterp spec fn file_name_of(path: PathBuf) -> Option<Seq<char>>;

/// `Path::file_name`: the last component of the path, handed out as text
/// where the path has one and it is valid Unicode.
#[verifier::external_body]
fn final_component(path: &PathBuf) -> (name: Option<String>)
    ensures
        match name {
            Some(text) => file_name_of(*path) == Some(text@),
            None => file_name_of(*path) is None,
        },
{
    path.file_name().and_then(|name| name.to_str()).map(|name| name.to_string())
}

/// The name under which a job is reported when its path yields `name`.
pub open spec fn label_text(name: Option<String>) -> Seq<char> {
    match name {
        Some(name) => name@,
        None => "unknown"@,
    }
}

/// The name under which a job is reported: the last component of its input
/// path, and `unknown` where there is none.
pub fn display_label(name: Option<String>) -> (label: String)
    ensures
        label@ == label_text(name),
{
    match name {
        Some(name) => name,
        None => "unknown".to_string(),
    }
}

impl BatchJob {
    /// The name under which the job is reported: the last component of its
    /// input path, and `unknown` where the path has none.
    pub open spec fn label(&self) -> Seq<char> {
        match file_name_of(self.input_path) {
            Some(text) => text,
            None => "unknown"@,
        }
    }

    /// The name under which the job is reported.
    pub fn file_name(&self) -> (label: String)
        ensures
            label@ == self.label(),
    {
        display_label(final_component(&self.input_path))
    }
}

/// The number of jobs that run at once where the machine does not say how
/// many processors it has.
pub const DEFAULT_CONCURRENCY: usize = 4;

/// The concurrency limit for a machine that reports `available`
/// processors.
pub open spec fn parallelism(available: Option<usize>) -> nat {
    match available {
        Some(count) => if count > 0 {
            count as nat
        } else {
            DEFAULT_CONCURRENCY as nat
        },
        None => DEFAULT_CONCURRENCY as nat,
    }
}

/// The concurrency limit: the number of processors, and the default where
/// that number is not to be had. It is never zero.
pub fn concurrency_limit(available: Option<usize>) -> (limit: usize)
    ensures
        limit == parallelism(available),
        limit >= 1,
{
    match available {
        Some(count) => if count > 0 {
            count
        } else {
            DEFAULT_CONCURRENCY
        },
        None => DEFAULT_CONCURRENCY,
    }
}

/// A counting semaphore without the waiting: it grants a permit while one
/// is free and says so when none is.
pub struct Semaphore {
    limit: usize,
    in_use: usize,
}

impl Semaphore {
    /// The number of permits the semaphore was made with.
    pub closed spec fn limit(&self) -> nat {
        self.limit as nat
    }

    /// The number of permits that are out.
    pub closed spec fn in_use(&self) -> nat {
        self.in_use as nat
    }

    /// No more permits are out than there are.
    pub closed spec fn wf(&self) -> bool {
        self.in_use <= self.limit
    }

    /// The number of permits that are free.
    pub open spec fn available(&self) -> int {
        self.limit() - self.in_use()
    }

    pub fn new(permits: usize) -> (semaphore: Semaphore)
        ensures
            semaphore.wf(),
            semaphore.limit() == permits,
            semaphore.in_use() == 0,
    {
        Semaphore { limit: permits, in_use: 0 }
    }

    /// Takes a permit if one is free. Where the answer is `false` the caller
    /// has to wait for a `release`.
    pub fn acquire(&mut self) -> (granted: bool)
        requires
            old(self).wf(),
        ensures
            final(self).wf(),
            final(self).limit() == old(self).limit(),
            granted == (old(self).available() > 0),
            granted ==> final(self).in_use() == old(self).in_use() + 1,
            !granted ==> final(self).in_use() == old(self).in_use(),
    {
        if self.in_use < self.limit {
            self.in_use = self.in_use + 1;
            true
        } else {
            false
        }
    }

    /// Hands a permit back. Fails, and changes nothing, where none is out.
    pub fn release(&mut self) -> (outcome: Result<(), PermitSystemFault>)
        requires
            old(self).wf(),
        ensures
            final(self).wf(),
            final(self).limit() == old(self).limit(),
            outcome is Ok == (old(self).in_use() > 0),
            outcome is Ok ==> final(self).in_use() == old(self).in_use() - 1,
            outcome is Err ==> final(self).in_use() == old(self).in_use(),
    {
        if self.in_use > 0 {
            self.in_use = self.in_use - 1;
            Ok(())
        } else {
            Err(PermitSystemFault {})
        }
    }

    /// The number of permits that are free.
    pub fn available_permits(&self) -> (free: usize)
        requires
            self.wf(),
        ensures
            free == self.available(),
    {
        self.limit - self.in_use
    }

    /// The number of permits the semaphore was made with.
    pub fn capacity(&self) -> (permits: usize)
        ensures
            permits == self.limit(),
    {
        self.limit
    }

    /// The number of permits that are out.
    pub fn permits_in_use(&self) -> (out: usize)
        ensures
            out == self.in_use(),
    {
        self.in_use
    }
}

} // verus!
