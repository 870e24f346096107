use vstd::prelude::*;
use vstd::pervasive::unreached;
use crate::decoded::{
    decoded, named_container, oversize_message, resized, writes_for_path, DecodedImage,
};
use crate::encoder::{encode, webp_accepts, webp_file};
use crate::error::{ErrorKind, TranscodeError};
use crate::job::{zero_dimension_message, ImageToSave, OutputFormat, SaveResult};
use crate::paths::{parent_of, parent_text};
use crate::raster::{resample_fits, Raster};

verus! {

/// What the driver of a batch reports back.
#[derive(Debug)]
pub enum Event {
    /// The batch may begin.
    Start,
    /// The source asked for was read; these are its bytes.
    SourceRead(Vec<u8>),
    /// The directory of the destination exists now.
    DirectoryReady,
    /// The file handed out was written.
    FileWritten,
    /// The request that is outstanding failed; the text says why.
    Failed(String),
}

/// What the driver of a batch is to do next.
#[derive(Debug)]
pub enum Action {
    /// Read the file at `path` and answer with its bytes.
    ReadSource { path: String },
    /// Create the directory `path`, with every missing ancestor.
    CreateDirectory { path: String },
    /// Write `bytes` to `destination`, replacing what is there.
    WriteFile { destination: String, bytes: Vec<u8> },
    /// Every job was written: the batch is over.
    Complete(SaveResult),
    /// A job failed: the batch is over, and later jobs were not begun.
    Abort(TranscodeError),
    /// The event answered no outstanding request; nothing changed.
    Ignore,
}

/// Where a batch stands, as plain values.
pub enum Phase {
    Fresh,
    /// The source of the current job was asked for.
    Reading,
    /// The current job is resized to this grid; its directory was asked for.
    Preparing(Raster),
    /// The file of the current job was handed out.
    Writing,
    Finished,
}

/// The model of a batch: its jobs, how many of them are written, and where
/// the one after those stands.
pub struct BatchView {
    pub jobs: Seq<ImageToSave>,
    pub saved: nat,
    pub phase: Phase,
}

impl BatchView {
    /// `saved` counts whole jobs; a job in progress is a valid one, and what
    /// is held for it has the size it asks for.
    pub open spec fn wf(self) -> bool {
        &&& self.saved <= self.jobs.len()
        &&& !(self.phase is Fresh || self.phase is Finished) ==> self.saved < self.jobs.len()
            && self.jobs[self.saved as int].is_valid()
        &&& self.phase matches Phase::Preparing(grid) ==> grid.width
            == self.jobs[self.saved as int].target_width && grid.height
            == self.jobs[self.saved as int].target_height
    }

    pub open spec fn current(self) -> ImageToSave {
        self.jobs[self.saved as int]
    }
}

/// The batch stops on an error of `kind`; nothing more is counted.
pub open spec fn aborts(pre: BatchView, post: BatchView, action: Action, kind: ErrorKind) -> bool {
    &&& post.jobs == pre.jobs
    &&& post.saved == pre.saved
    &&& post.phase is Finished
    &&& action matches Action::Abort(e)
    &&& e.kind == kind
}

/// The batch stops because the driver reported `text`.
pub open spec fn aborts_with(
    pre: BatchView,
    post: BatchView,
    action: Action,
    kind: ErrorKind,
    text: Seq<char>,
) -> bool {
    &&& aborts(pre, post, action, kind)
    &&& action matches Action::Abort(e)
    &&& e.message@ == text
}

/// With `saved` jobs written the batch turns to the next one: it completes
/// where none is left, rejects a malformed job before anything is read for
/// it, and asks for the source of a valid one.
pub open spec fn begins(jobs: Seq<ImageToSave>, saved: nat, post: BatchView, action: Action) -> bool {
    &&& post.jobs == jobs
    &&& post.saved == saved
    &&& if saved >= jobs.len() {
        &&& post.phase is Finished
        &&& action matches Action::Complete(result)
        &&& result.success
        &&& result.saved_count == saved
    } else if !jobs[saved as int].is_valid() {
        &&& post.phase is Finished
        &&& action matches Action::Abort(e)
        &&& e.kind == ErrorKind::Config
        &&& e.message@ == jobs[saved as int].rejection()
    } else {
        &&& post.phase is Reading
        &&& action matches Action::ReadSource { path }
        &&& path@ == jobs[saved as int].path@
    }
}

/// The grid that `job` is resized to from the bytes of its source; `None`
/// where they do not decode or the target is too large to resample.
pub open spec fn prepared(job: ImageToSave, bytes: Seq<u8>) -> Option<Raster> {
    match decoded(job.path@, bytes) {
        None => None,
        Some(source) => if resample_fits(
            source.width,
            job.target_width as nat,
            job.target_height as nat,
        ) {
            Some(resized(source, job.target_width as nat, job.target_height as nat))
        } else {
            None
        },
    }
}

/// The source was read: it is decoded and resized, and the directory that
/// holds the destination is asked for. A destination without a parent needs
/// no directory: its grid is encoded at once.
pub open spec fn after_read(pre: BatchView, bytes: Seq<u8>, post: BatchView, action: Action) -> bool {
    let job = pre.current();
    match prepared(job, bytes) {
        None => if decoded(job.path@, bytes) is None {
            aborts(pre, post, action, ErrorKind::Decode)
        } else {
            aborts_with(pre, post, action, ErrorKind::Config, oversize_message())
        },
        Some(grid) => match parent_of(job.destination_path@) {
            Some(directory) => {
                &&& post.jobs == pre.jobs
                &&& post.saved == pre.saved
                &&& post.phase == Phase::Preparing(grid)
                &&& action matches Action::CreateDirectory { path }
                &&& path@ == directory
            },
            None => after_directory(pre, grid, post, action),
        },
    }
}

/// A file is handed out for the current job.
pub open spec fn hands_out(pre: BatchView, post: BatchView, action: Action) -> bool {
    &&& post.jobs == pre.jobs
    &&& post.saved == pre.saved
    &&& post.phase is Writing
    &&& action matches Action::WriteFile { destination, .. }
    &&& destination@ == pre.current().destination_path@
}

/// The file that an action hands out, if it hands one out.
pub open spec fn file_of(action: Action) -> Option<Seq<u8>> {
    match action {
        Action::WriteFile { bytes, .. } => Some(bytes@),
        _ => None,
    }
}

/// What encoding `grid` for `job` may give: `outcome` is the file, or `None`
/// for a failure. WebP is lossless at quality 100 and lossy below, on a grid
/// that its encoder takes; every other format is written as the container
/// that the destination's extension names.
pub open spec fn encoding_allows(grid: Raster, job: ImageToSave, outcome: Option<Seq<u8>>) -> bool {
    if job.output_format == OutputFormat::Webp {
        if webp_accepts(grid) {
            outcome == webp_file(grid, job.quality)
        } else {
            outcome is None
        }
    } else {
        writes_for_path(grid, job.destination_path@, outcome)
    }
}

/// The grid that a step encodes, where it encodes one: the grid held once
/// the directory is confirmed, or the grid just prepared for a destination
/// without a parent.
pub open spec fn grid_at(pre: BatchView, event: Event) -> Option<Raster> {
    match (pre.phase, event) {
        (Phase::Preparing(grid), Event::DirectoryReady) => Some(grid),
        (Phase::Reading, Event::SourceRead(bytes)) => if parent_of(
            pre.current().destination_path@,
        ) is None {
            prepared(pre.current(), bytes@)
        } else {
            None
        },
        _ => None,
    }
}

/// Whether the encoder that a step runs is free in what it writes: the step
/// encodes into a container whose file the pixels do not fix.
pub open spec fn encoder_is_free(pre: BatchView, event: Event) -> bool {
    &&& grid_at(pre, event) is Some
    &&& pre.current().output_format != OutputFormat::Webp
    &&& named_container(pre.current().destination_path@) matches Some(container)
    &&& !container.is_reproducible()
}

/// The directory exists: the grid is encoded, and the file is handed out or
/// the batch stops on an encode error.
pub open spec fn after_directory(pre: BatchView, grid: Raster, post: BatchView, action: Action) -> bool {
    &&& hands_out(pre, post, action) || aborts(pre, post, action, ErrorKind::Encode)
    &&& encoding_allows(grid, pre.current(), file_of(action))
}

/// The steps that a batch may take: `event` leads from `pre` to `post` and
/// has the driver do `action`.
pub open spec fn allows(pre: BatchView, event: Event, post: BatchView, action: Action) -> bool {
    match (pre.phase, event) {
        (Phase::Fresh, Event::Start) => begins(pre.jobs, pre.saved, post, action),
        (Phase::Reading, Event::SourceRead(bytes)) => after_read(pre, bytes@, post, action),
        (Phase::Reading, Event::Failed(text)) => aborts_with(
            pre,
            post,
            action,
            ErrorKind::Decode,
            text@,
        ),
        (Phase::Preparing(grid), Event::DirectoryReady) => after_directory(pre, grid, post, action),
        (Phase::Preparing(_), Event::Failed(text)) => aborts_with(
            pre,
            post,
            action,
            ErrorKind::Io,
            text@,
        ),
        (Phase::Writing, Event::FileWritten) => begins(pre.jobs, pre.saved + 1, post, action),
        (Phase::Writing, Event::Failed(text)) => aborts_with(
            pre,
            post,
            action,
            ErrorKind::Io,
            text@,
        ),
        _ => post == pre && action is Ignore,
    }
}

enum Stage {
    Fresh,
    Reading,
    Preparing(DecodedImage),
    Writing,
    Finished,
}

impl Stage {
    spec fn phase(self) -> Phase {
        match self {
            Stage::Fresh => Phase::Fresh,
            Stage::Reading => Phase::Reading,
            Stage::Preparing(img) => Phase::Preparing(img@),
            Stage::Writing => Phase::Writing,
            Stage::Finished => Phase::Finished,
        }
    }
}

/// A batch of jobs, taken one at a time and in order. It decides; its driver
/// reads, creates directories and writes, and reports back with an `Event`.
pub struct Batch {
    jobs: Vec<ImageToSave>,
    saved: usize,
    stage: Stage,
}

impl View for Batch {
    type V = BatchView;

    closed spec fn view(&self) -> BatchView {
        BatchView { jobs: self.jobs@, saved: self.saved as nat, phase: self.stage.phase() }
    }
}

impl Batch {
    /// A batch that has not begun.
    pub fn new(jobs: Vec<ImageToSave>) -> (batch: Batch)
        ensures
            batch@ == (BatchView { jobs: jobs@, saved: 0, phase: Phase::Fresh }),
            batch@.wf(),
    {
        Batch { jobs, saved: 0, stage: Stage::Fresh }
    }

    /// How many jobs are written so far.
    pub fn saved_count(&self) -> (n: usize)
        ensures
            n == self@.saved,
    {
        self.saved
    }

    /// Whether the batch is over, completed or aborted.
    pub fn is_finished(&self) -> (b: bool)
        ensures
            b == (self@.phase is Finished),
    {
        match self.stage {
            Stage::Finished => true,
            _ => false,
        }
    }

    fn abort(&mut self, error: TranscodeError) -> (action: Action)
        ensures
            aborts(old(self)@, final(self)@, action, error.kind),
            action == Action::Abort(error),
            final(self)@.wf() <== old(self)@.wf(),
    {
        self.stage = Stage::Finished;
        Action::Abort(error)
    }

    fn begin(&mut self) -> (action: Action)
        requires
            old(self)@.saved <= old(self)@.jobs.len(),
        ensures
            begins(old(self)@.jobs, old(self)@.saved, final(self)@, action),
            final(self)@.wf(),
    {
        if self.saved >= self.jobs.len() {
            self.stage = Stage::Finished;
            return Action::Complete(SaveResult { success: true, saved_count: self.saved });
        }
        match self.jobs[self.saved].validate() {
            Err(error) => {
                self.stage = Stage::Finished;
                Action::Abort(error)
            },
            Ok(()) => {
                let path = self.jobs[self.saved].path.clone();
                self.stage = Stage::Reading;
                Action::ReadSource { path }
            },
        }
    }

    fn read(&mut self, bytes: Vec<u8>) -> (action: Action)
        requires
            old(self)@.wf(),
            old(self)@.phase is Reading,
        ensures
            after_read(old(self)@, bytes@, final(self)@, action),
            final(self)@.wf(),
    {
        let job = &self.jobs[self.saved];
        let source = match DecodedImage::decode(job.path.as_str(), bytes.as_slice()) {
            Ok(source) => source,
            Err(error) => {
                return self.abort(error);
            },
        };
        match source.resize_exact(job.target_width, job.target_height) {
            Err(error) => self.abort(error),
            Ok(grid) => {
                let parent = parent_text(job.destination_path.as_str());
                self.stage = Stage::Preparing(grid);
                match parent {
                    Some(path) => Action::CreateDirectory { path },
                    None => self.write(),
                }
            },
        }
    }

    fn write(&mut self) -> (action: Action)
        requires
            old(self)@.wf(),
            old(self)@.phase is Preparing,
        ensures
            after_directory(old(self)@, old(self)@.phase->Preparing_0, final(self)@, action),
            final(self)@.wf(),
    {
        let job = &self.jobs[self.saved];
        let encoded = match &self.stage {
            Stage::Preparing(grid) => encode(
                grid,
                job.destination_path.as_str(),
                job.output_format,
                job.quality,
            ),
            _ => unreached(),
        };
        match encoded {
            Err(error) => self.abort(error),
            Ok(bytes) => {
                let destination = job.destination_path.clone();
                self.stage = Stage::Writing;
                Action::WriteFile { destination, bytes }
            },
        }
    }

    fn fail(&mut self, kind: ErrorKind, text: String) -> (action: Action)
        requires
            old(self)@.wf(),
        ensures
            aborts_with(old(self)@, final(self)@, action, kind, text@),
            final(self)@.wf(),
    {
        self.abort(TranscodeError::new(kind, text))
    }

    /// Takes the driver's report and says what to do next.
    ///
    /// Jobs run in order; the first failure ends the batch, whatever was
    /// written before it stays written, and a report that answers no
    /// outstanding request changes nothing.
    pub fn advance(&mut self, event: Event) -> (action: Action)
        requires
            old(self)@.wf(),
        ensures
            allows(old(self)@, event, final(self)@, action),
            final(self)@.wf(),
    {
        match event {
            Event::Start => match self.stage {
                Stage::Fresh => self.begin(),
                _ => Action::Ignore,
            },
            Event::SourceRead(bytes) => match self.stage {
                Stage::Reading => self.read(bytes),
                _ => Action::Ignore,
            },
            Event::DirectoryReady => match self.stage {
                Stage::Preparing(_) => self.write(),
                _ => Action::Ignore,
            },
            Event::FileWritten => match self.stage {
                Stage::Writing => {
                    assert(self.saved < self.jobs.len());
                    self.stage = Stage::Fresh;
                    self.saved = self.saved + 1;
                    self.begin()
                },
                _ => Action::Ignore,
            },
            Event::Failed(text) => match self.stage {
                Stage::Reading => self.fail(ErrorKind::Decode, text),
                Stage::Preparing(_) => self.fail(ErrorKind::Io, text),
                Stage::Writing => self.fail(ErrorKind::Io, text),
                _ => Action::Ignore,
            },
        }
    }
}

/// Whether two actions tell the driver the same thing.
pub open spec fn same_instruction(a: Action, b: Action) -> bool {
    match (a, b) {
        (Action::ReadSource { path: p }, Action::ReadSource { path: q }) => p@ == q@,
        (Action::CreateDirectory { path: p }, Action::CreateDirectory { path: q }) => p@ == q@,
        (
            Action::WriteFile { destination: p, bytes: x },
            Action::WriteFile { destination: q, bytes: y },
        ) => p@ == q@ && x@ == y@,
        (Action::Complete(r), Action::Complete(t)) => r == t,
        (Action::Abort(e), Action::Abort(f)) => e.kind == f.kind,
        (Action::Ignore, Action::Ignore) => true,
        _ => false,
    }
}

/// The index of the job that a step turns to, where it turns to one: the
/// first job at the start, the next one after a file was written.
pub open spec fn turns_to(pre: BatchView, event: Event) -> Option<nat> {
    match (pre.phase, event) {
        (Phase::Fresh, Event::Start) => Some(pre.saved),
        (Phase::Writing, Event::FileWritten) => Some(pre.saved + 1),
        _ => None,
    }
}

/// Every step keeps a batch well-formed.
pub proof fn lemma_step_keeps_wf(pre: BatchView, event: Event, post: BatchView, action: Action)
    requires
        pre.wf(),
        allows(pre, event, post, action),
    ensures
        post.wf(),
{
}

/// A batch that is over stays as it is: it ignores whatever is reported.
pub proof fn lemma_finished_stays_finished(
    pre: BatchView,
    event: Event,
    post: BatchView,
    action: Action,
)
    requires
        pre.phase is Finished,
        allows(pre, event, post, action),
    ensures
        post == pre,
        action is Ignore,
{
}

/// The count of written jobs grows by one when a write is confirmed, and at
/// no other step; the jobs themselves never change.
pub proof fn lemma_saved_counts_written_files(
    pre: BatchView,
    event: Event,
    post: BatchView,
    action: Action,
)
    requires
        allows(pre, event, post, action),
    ensures
        post.jobs == pre.jobs,
        post.saved == pre.saved + (if pre.phase is Writing && event is FileWritten {
            1nat
        } else {
            0nat
        }),
{
}

/// A result is reported only when every job was written: it says success,
/// and its count is the length of the batch.
pub proof fn lemma_completion_counts_every_job(
    pre: BatchView,
    event: Event,
    post: BatchView,
    action: Action,
)
    requires
        pre.wf(),
        allows(pre, event, post, action),
        action is Complete,
    ensures
        action->Complete_0.success,
        action->Complete_0.saved_count == pre.jobs.len(),
        post.saved == pre.jobs.len(),
        post.phase is Finished,
{
}

/// The first failure ends the batch: an abort leaves it finished, counts
/// nothing for the failing job, and no request follows it.
pub proof fn lemma_abort_ends_batch(
    pre: BatchView,
    event: Event,
    post: BatchView,
    action: Action,
    later: Event,
    after: BatchView,
    next: Action,
)
    requires
        allows(pre, event, post, action),
        action is Abort,
        allows(post, later, after, next),
    ensures
        post.phase is Finished,
        post.saved == pre.saved || post.saved == pre.saved + 1,
        post.saved == pre.saved + 1 ==> pre.phase is Writing && event is FileWritten,
        after == post,
        next is Ignore,
{
}

/// A failure that the driver reports for an outstanding request aborts the
/// batch with the driver's text: a source that cannot be read is a decode
/// error, a directory or a file that cannot be written an I/O error.
pub proof fn lemma_reported_failure_aborts(
    pre: BatchView,
    text: String,
    post: BatchView,
    action: Action,
)
    requires
        pre.phase is Reading || pre.phase is Preparing || pre.phase is Writing,
        allows(pre, Event::Failed(text), post, action),
    ensures
        action is Abort,
        action->Abort_0.message@ == text@,
        action->Abort_0.kind == (if pre.phase is Reading {
            ErrorKind::Decode
        } else {
            ErrorKind::Io
        }),
        post.phase is Finished,
        post.saved == pre.saved,
{
}

/// No file is handed out before the directory that holds it was asked for
/// and confirmed: the request for the directory follows the source that was
/// read, it names the parent of the destination, and only its confirmation
/// leads to the file. A destination without a parent is the one that needs
/// no directory.
pub proof fn lemma_directory_comes_before_file(
    pre: BatchView,
    event: Event,
    post: BatchView,
    action: Action,
)
    requires
        allows(pre, event, post, action),
    ensures
        action is WriteFile ==> (pre.phase is Preparing && event is DirectoryReady) || (
        pre.phase is Reading && event is SourceRead && parent_of(pre.current().destination_path@)
            is None),
        action is CreateDirectory ==> pre.phase is Reading && post.phase is Preparing
            && parent_of(pre.current().destination_path@) == Some(
            action->CreateDirectory_path@,
        ),
        post.phase is Preparing && !(pre.phase is Preparing) ==> action is CreateDirectory,
{
}

/// A job with a zero target width or height is rejected as a configuration
/// error at the step that turns to it: its source is never asked for, so
/// nothing is decoded, resized or written for it.
pub proof fn lemma_zero_dimension_rejected(
    pre: BatchView,
    event: Event,
    post: BatchView,
    action: Action,
)
    requires
        allows(pre, event, post, action),
        turns_to(pre, event) is Some,
        turns_to(pre, event)->0 < pre.jobs.len(),
        pre.jobs[turns_to(pre, event)->0 as int].target_width == 0 || pre.jobs[turns_to(
            pre,
            event,
        )->0 as int].target_height == 0,
    ensures
        action is Abort,
        action->Abort_0.kind == ErrorKind::Config,
        action->Abort_0.message@ == zero_dimension_message(),
        post.phase is Finished,
{
}

/// A file that is handed out encodes a grid of exactly the width and height
/// that its job asks for.
pub proof fn lemma_file_has_target_size(
    pre: BatchView,
    event: Event,
    post: BatchView,
    action: Action,
)
    requires
        pre.wf(),
        allows(pre, event, post, action),
        action is WriteFile,
    ensures
        grid_at(pre, event) is Some,
        grid_at(pre, event)->0.width == pre.current().target_width > 0,
        grid_at(pre, event)->0.height == pre.current().target_height > 0,
        encoding_allows(grid_at(pre, event)->0, pre.current(), Some(action->WriteFile_bytes@)),
{
}

/// Running a step again on the same state and the same report tells the
/// driver the same thing and leads to the same state: the same jobs and
/// sources give the same files, byte for byte. The one exception is a step
/// that encodes into a container whose file the pixels do not fix.
pub proof fn lemma_step_is_determined(
    pre: BatchView,
    event: Event,
    first: BatchView,
    action: Action,
    second: BatchView,
    again: Action,
)
    requires
        allows(pre, event, first, action),
        allows(pre, event, second, again),
        !encoder_is_free(pre, event),
    ensures
        first == second,
        same_instruction(action, again),
{
}

} // verus!
