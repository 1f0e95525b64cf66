//! Batch driver: sequences one request's files in order, records one
//! terminal result per file, keeps running success/failed counts, and
//! marks every unprocessed file failed once cancellation is observed.
//! The host runs the loop (reading inputs, writing outputs, checking the
//! shared cancellation flag); every bookkeeping decision is made here.

use vstd::prelude::*;
use crate::backup::BackupInfo;
use crate::errors::{spec_error_message, ConvertError};
use crate::formats::{OperationMode, OutputFormat};
use crate::resize::{ResizeMode, ResizeSettings};

verus! {

/// Where one file stands in its batch.
#[derive(Debug, Clone, Copy, PartialEq, Eq, Structural)]
pub enum FileStatus {
    Pending,
    Processing,
    Success,
    Failed,
}

/// One file's terminal outcome.
#[derive(Debug, Clone, PartialEq, Eq)]
pub struct FileResult {
    pub path: String,
    pub status: FileStatus,
    pub output_path: Option<String>,
    pub output_size: Option<u64>,
    pub output_width: Option<u32>,
    pub output_height: Option<u32>,
    pub error: Option<String>,
    pub backup: Option<BackupInfo>,
}

/// The aggregate outcome of one batch. The backup list stays empty here:
/// backups are recorded by the separate backup operation, never generated
/// by the pipeline itself.
#[derive(Debug, Clone, PartialEq, Eq)]
pub struct BatchResult {
    pub results: Vec<FileResult>,
    pub total: usize,
    pub success_count: usize,
    pub failed_count: usize,
    pub backups: Vec<BackupInfo>,
}

/// One progress notification: emitted before a file is processed (with
/// its name) and after (without), never required for correctness.
#[derive(Debug, Clone, PartialEq, Eq)]
pub struct ProgressUpdate {
    pub current_index: usize,
    pub total: usize,
    pub success_count: usize,
    pub failed_count: usize,
    pub current_file: Option<String>,
}

/// One batch request, immutable for the batch's duration.
#[derive(Debug, Clone, PartialEq, Eq)]
pub struct OptimizeBatchRequest {
    pub paths: Vec<String>,
    pub output_dir: String,
    /// Explicit target format; absent means detect from each input path.
    pub format: Option<OutputFormat>,
    pub overwrite: bool,
    pub operation_mode: OperationMode,
    /// 0..=100; absent means the target format's default.
    pub quality: Option<u8>,
    pub resize_mode: ResizeMode,
    pub resize_percentage: Option<u32>,
    pub max_width: Option<u32>,
    pub max_height: Option<u32>,
    /// Absent means the aspect ratio is kept.
    pub keep_aspect_ratio: Option<bool>,
    pub create_backup: bool,
}

impl OptimizeBatchRequest {
    /// The resize settings this request asks for.
    pub open spec fn spec_resize_settings(self) -> ResizeSettings {
        ResizeSettings {
            mode: self.resize_mode,
            percentage: self.resize_percentage,
            max_width: self.max_width,
            max_height: self.max_height,
            keep_aspect_ratio: match self.keep_aspect_ratio {
                Some(b) => b,
                None => true,
            },
        }
    }

    /// Collects this request's resize settings; the aspect ratio is kept
    /// unless the request says otherwise.
    pub fn resize_settings(&self) -> (r: ResizeSettings)
        ensures
            r == self.spec_resize_settings(),
    {
        ResizeSettings {
            mode: self.resize_mode,
            percentage: self.resize_percentage,
            max_width: self.max_width,
            max_height: self.max_height,
            keep_aspect_ratio: match self.keep_aspect_ratio {
                Some(b) => b,
                None => true,
            },
        }
    }
}

/// A successful record: output metadata present, no error.
pub open spec fn is_success_record(r: FileResult) -> bool {
    &&& r.status is Success
    &&& r.output_path is Some
    &&& r.output_size is Some
    &&& r.output_width is Some
    &&& r.output_height is Some
    &&& r.error is None
}

/// A failed record: no output metadata, an error message present.
pub open spec fn is_failed_record(r: FileResult) -> bool {
    &&& r.status is Failed
    &&& r.output_path is None
    &&& r.output_size is None
    &&& r.output_width is None
    &&& r.output_height is None
    &&& r.error is Some
}

/// A record the driver marked failed because the batch was cancelled
/// before the file was processed.
pub open spec fn is_cancelled_record(r: FileResult) -> bool {
    &&& is_failed_record(r)
    &&& r.error matches Some(m) && m@ == spec_error_message(ConvertError::Cancelled)
}

/// How many records of a sequence are successes.
pub open spec fn count_success(rs: Seq<FileResult>) -> int
    decreases rs.len(),
{
    if rs.len() == 0 {
        0
    } else {
        count_success(rs.drop_last()) + if rs.last().status is Success {
            1int
        } else {
            0int
        }
    }
}

/// Drives one batch: one terminal record per path, in path order.
pub struct BatchDriver {
    pub paths: Vec<String>,
    pub results: Vec<FileResult>,
    pub success_count: usize,
    pub failed_count: usize,
}

impl BatchDriver {
    /// The driver's invariant: results are a prefix of the paths, in
    /// order, each terminal, and the counts tally them.
    pub open spec fn wf(self) -> bool {
        &&& self.results@.len() <= self.paths@.len()
        &&& self.success_count + self.failed_count == self.results@.len()
        &&& self.success_count == count_success(self.results@)
        &&& forall|i: int|
            0 <= i < self.results@.len() ==> (#[trigger] self.results@[i]).path@
                == self.paths@[i]@
        &&& forall|i: int|
            0 <= i < self.results@.len() ==> is_success_record(#[trigger] self.results@[i])
                || is_failed_record(self.results@[i])
    }

    /// Every path has its record.
    pub open spec fn done(self) -> bool {
        self.results@.len() == self.paths@.len()
    }

    /// Starts a batch over the given paths.
    pub fn new(paths: Vec<String>) -> (d: BatchDriver)
        ensures
            d.wf(),
            d.paths@ == paths@,
            d.results@.len() == 0,
            d.success_count == 0,
            d.failed_count == 0,
    {
        BatchDriver { paths, results: Vec::new(), success_count: 0, failed_count: 0 }
    }

    /// Whether every path has been accounted for.
    pub fn is_done(&self) -> (r: bool)
        ensures
            r == self.done(),
    {
        self.results.len() == self.paths.len()
    }

    /// The next path to process, if one is left.
    pub fn next_path(&self) -> (r: Option<String>)
        requires
            self.wf(),
        ensures
            r is Some ==> !self.done() && r.unwrap()@ == self.paths@[self.results@.len() as int]@,
            r is None ==> self.done(),
    {
        let i = self.results.len();
        if i < self.paths.len() {
            let p = self.paths[i].clone();
            proof {
                assert(p == self.paths@[i as int]);
            }
            Some(p)
        } else {
            None
        }
    }

    /// A progress notification reflecting the driver's current state.
    pub fn progress(&self, current_file: Option<String>) -> (r: ProgressUpdate)
        ensures
            r.current_index == self.results@.len(),
            r.total == self.paths@.len(),
            r.success_count == self.success_count,
            r.failed_count == self.failed_count,
            r.current_file == current_file,
    {
        ProgressUpdate {
            current_index: self.results.len(),
            total: self.paths.len(),
            success_count: self.success_count,
            failed_count: self.failed_count,
            current_file,
        }
    }

    /// Records the current file's success with its output metadata and,
    /// where the host made one, the file's backup record.
    pub fn record_success(
        &mut self,
        output_path: String,
        output_size: u64,
        width: u32,
        height: u32,
        backup: Option<BackupInfo>,
    )
        requires
            old(self).wf(),
            !old(self).done(),
        ensures
            final(self).wf(),
            final(self).paths@ == old(self).paths@,
            final(self).results@.len() == old(self).results@.len() + 1,
            final(self).results@.drop_last() == old(self).results@,
            is_success_record(final(self).results@.last()),
            final(self).results@.last().output_path matches Some(p) && p@ == output_path@,
            final(self).results@.last().output_size == Some(output_size),
            final(self).results@.last().output_width == Some(width),
            final(self).results@.last().output_height == Some(height),
            final(self).results@.last().backup == backup,
            final(self).success_count == old(self).success_count + 1,
            final(self).failed_count == old(self).failed_count,
            final(self).results@.last().path@ == final(self).paths@[
                old(self).results@.len() as int
            ]@,
    {
        // the path count bounds both counters, so the increment cannot
        // overflow
        let total = self.paths.len();
        let idx = self.results.len();
        proof {
            assert(self.success_count < total);
        }
        let rec = FileResult {
            path: self.paths[idx].clone(),
            status: FileStatus::Success,
            output_path: Some(output_path),
            output_size: Some(output_size),
            output_width: Some(width),
            output_height: Some(height),
            error: None,
            backup,
        };
        self.results.push(rec);
        self.success_count = self.success_count + 1;
        proof {
            assert(self.results@.drop_last() =~= old(self).results@);
        }
    }

    /// Records the current file's failure with its error message.
    pub fn record_failure(&mut self, message: String)
        requires
            old(self).wf(),
            !old(self).done(),
        ensures
            final(self).wf(),
            final(self).paths@ == old(self).paths@,
            final(self).results@.len() == old(self).results@.len() + 1,
            final(self).results@.drop_last() == old(self).results@,
            is_failed_record(final(self).results@.last()),
            final(self).results@.last().error matches Some(m) && m@ == message@,
            final(self).success_count == old(self).success_count,
            final(self).failed_count == old(self).failed_count + 1,
            final(self).results@.last().path@ == final(self).paths@[
                old(self).results@.len() as int
            ]@,
    {
        // the path count bounds both counters, so the increment cannot
        // overflow
        let total = self.paths.len();
        let idx = self.results.len();
        proof {
            assert(self.failed_count < total);
        }
        let rec = FileResult {
            path: self.paths[idx].clone(),
            status: FileStatus::Failed,
            output_path: None,
            output_size: None,
            output_width: None,
            output_height: None,
            error: Some(message),
            backup: None,
        };
        self.results.push(rec);
        self.failed_count = self.failed_count + 1;
        proof {
            assert(self.results@.drop_last() =~= old(self).results@);
        }
    }

    /// Observes cancellation: every path not yet processed gets a failed
    /// record carrying the cancellation message; records already made are
    /// untouched, and no further path is processed.
    pub fn cancel_remaining(&mut self)
        requires
            old(self).wf(),
        ensures
            final(self).wf(),
            final(self).done(),
            final(self).paths@ == old(self).paths@,
            final(self).results@.len() == final(self).paths@.len(),
            forall|i: int|
                0 <= i < old(self).results@.len() ==> final(self).results@[i] == old(
                    self,
                ).results@[i],
            forall|i: int|
                old(self).results@.len() <= i < final(self).results@.len()
                    ==> is_cancelled_record(#[trigger] final(self).results@[i]),
            final(self).success_count == old(self).success_count,
            final(self).failed_count == old(self).failed_count + (final(self).paths@.len()
                - old(self).results@.len()),
    {
        let ghost n0 = self.results@.len() as int;
        while self.results.len() < self.paths.len()
            invariant
                self.wf(),
                self.paths@ == old(self).paths@,
                n0 <= self.results@.len() <= self.paths@.len(),
                forall|i: int| 0 <= i < n0 ==> self.results@[i] == old(self).results@[i],
                forall|i: int|
                    n0 <= i < self.results@.len() ==> is_cancelled_record(
                        #[trigger] self.results@[i],
                    ),
                self.success_count == old(self).success_count,
                self.failed_count == old(self).failed_count + (self.results@.len() - n0),
            decreases self.paths@.len() - self.results@.len(),
        {
            let ghost prev = self.results@;
            let err = ConvertError::Cancelled;
            let msg = err.message();
            self.record_failure(msg);
            proof {
                assert(self.results@.drop_last() == prev);
                assert(forall|i: int|
                    0 <= i < self.results@.len() - 1 ==> #[trigger] self.results@[i]
                        == self.results@.drop_last()[i]);
                assert(self.results@.last() == self.results@[self.results@.len() - 1]);
                assert(is_cancelled_record(self.results@.last()));
            }
        }
    }

    /// Assembles the batch's aggregate result: one record per requested
    /// path, in order, with tallied counts and an empty backup list.
    /// Always `total == results.len() == paths.len()` and `success_count
    /// + failed_count == total`.
    pub fn finish(self) -> (r: BatchResult)
        requires
            self.wf(),
            self.done(),
        ensures
            r.total == self.paths@.len(),
            r.results@ == self.results@,
            r.results@.len() == r.total,
            r.success_count == self.success_count,
            r.failed_count == self.failed_count,
            r.success_count + r.failed_count == r.total,
            forall|i: int|
                0 <= i < r.results@.len() ==> (#[trigger] r.results@[i]).path@ == self.paths@[i]@,
            r.backups@.len() == 0,
    {
        let total = self.paths.len();
        BatchResult {
            results: self.results,
            total,
            success_count: self.success_count,
            failed_count: self.failed_count,
            backups: Vec::new(),
        }
    }
}

} // verus!
