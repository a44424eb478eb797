//! The download task: the state machine of one asset's transfer.
//!
//! A task opens its destination file, issues one streaming request, and then
//! appends body chunks to the file in the order received, advancing its
//! progress display by each chunk's length. The surrounding I/O feeds the
//! machine one event per completed step; the machine holds every decision:
//! the skip-on-bad-status policy, the expected-size fallback, and the exact
//! byte accounting.
use vstd::prelude::*;

verus! {

/// The progress-bar size estimate assumed when a response carries no
/// content length. It scales the bar only; it does not bound the transfer.
pub const DEFAULT_SIZE_ESTIMATE: u64 = 10485760;

/// How one task ended. A skipped asset is a success, not a failure: a
/// non-success HTTP status means "this asset is unavailable on the mirror",
/// and the run goes on without it.
#[derive(Clone, Copy, Debug, PartialEq, Eq, Structural)]
pub enum TaskOutcome {
    /// The whole body was streamed to disk.
    Completed,
    /// The response status was outside the success range; the (empty) file stays.
    Skipped,
    /// The request, the stream, or a file write failed mid-task.
    Failed,
}

/// Where a task stands.
#[derive(Clone, Copy, Debug, PartialEq, Eq, Structural)]
pub enum TaskPhase {
    /// Nothing has happened yet.
    Starting,
    /// The destination file exists (created or truncated); the request is out.
    AwaitingResponse,
    /// A success response arrived; chunks are being appended.
    Streaming,
    /// The task reached a terminal state.
    Done(TaskOutcome),
}

/// The observable state of one download task.
#[derive(Clone, Copy, Debug, PartialEq, Eq, Structural)]
pub struct TaskState {
    pub phase: TaskPhase,
    /// Whether the destination file has been created.
    pub file_created: bool,
    /// Whether a progress display has been registered for the transfer.
    pub display_registered: bool,
    /// The expected total size used to scale the progress display.
    pub expected_total: u64,
    /// Exactly the bytes appended to the destination file so far.
    pub bytes_written: u64,
}

/// One completed I/O step, reported to the machine by the code that did it.
#[derive(Clone, Copy, Debug)]
pub enum TaskEvent {
    /// The destination file was created or truncated.
    FileCreated,
    /// Creating the destination file failed.
    FileCreateFailed,
    /// The response headers arrived.
    ResponseReceived { status: u16, content_length: Option<u64> },
    /// The request itself failed before any response arrived.
    RequestFailed,
    /// One body chunk of `len` bytes was appended to the file.
    ChunkWritten { len: u64 },
    /// The stream or a file write failed mid-body.
    StreamFailed,
    /// The stream ended and the file was flushed.
    StreamEnded,
}

/// Whether an HTTP status code counts as success (the 2xx range).
pub open spec fn spec_is_success_status(code: u16) -> bool {
    200 <= code < 300
}

/// Classify an HTTP status code: only codes in the 2xx range are success.
pub fn is_success_status(code: u16) -> (r: bool)
    ensures
        r == spec_is_success_status(code),
{
    200 <= code && code < 300
}

/// The expected total size: the content length when the response carries
/// one, else the fixed default estimate.
pub open spec fn spec_expected_total(content_length: Option<u64>) -> u64 {
    match content_length {
        Some(n) => n,
        None => DEFAULT_SIZE_ESTIMATE,
    }
}

/// Addition that stops at the largest representable count.
pub open spec fn spec_saturating_add(a: u64, b: u64) -> u64 {
    if a + b > u64::MAX {
        u64::MAX
    } else {
        (a + b) as u64
    }
}

/// The state a fresh task starts in.
pub open spec fn spec_task_init() -> TaskState {
    TaskState {
        phase: TaskPhase::Starting,
        file_created: false,
        display_registered: false,
        expected_total: 0,
        bytes_written: 0,
    }
}

/// The transition table of a task. Events that cannot occur in the current
/// phase leave the state unchanged, and a finished task stays finished.
pub open spec fn spec_task_step(s: TaskState, e: TaskEvent) -> TaskState {
    match (s.phase, e) {
        (TaskPhase::Starting, TaskEvent::FileCreated) => (TaskState {
            phase: TaskPhase::AwaitingResponse,
            file_created: true,
            ..s
        }),
        (TaskPhase::Starting, TaskEvent::FileCreateFailed) => (TaskState {
            phase: TaskPhase::Done(TaskOutcome::Failed),
            ..s
        }),
        (TaskPhase::AwaitingResponse, TaskEvent::ResponseReceived { status, content_length }) => (
        if spec_is_success_status(status) {
            TaskState {
                phase: TaskPhase::Streaming,
                display_registered: true,
                expected_total: spec_expected_total(content_length),
                ..s
            }
        } else {
            TaskState { phase: TaskPhase::Done(TaskOutcome::Skipped), ..s }
        }),
        (TaskPhase::AwaitingResponse, TaskEvent::RequestFailed) => (TaskState {
            phase: TaskPhase::Done(TaskOutcome::Failed),
            ..s
        }),
        (TaskPhase::Streaming, TaskEvent::ChunkWritten { len }) => (TaskState {
            bytes_written: spec_saturating_add(s.bytes_written, len),
            ..s
        }),
        (TaskPhase::Streaming, TaskEvent::StreamFailed) => (TaskState {
            phase: TaskPhase::Done(TaskOutcome::Failed),
            ..s
        }),
        (TaskPhase::Streaming, TaskEvent::StreamEnded) => (TaskState {
            phase: TaskPhase::Done(TaskOutcome::Completed),
            ..s
        }),
        _ => s,
    }
}

/// The state after feeding `events` to the machine in order.
pub open spec fn spec_task_run(s: TaskState, events: Seq<TaskEvent>) -> TaskState
    decreases events.len(),
{
    if events.len() == 0 {
        s
    } else {
        spec_task_run(spec_task_step(s, events[0]), events.skip(1))
    }
}

/// A fresh task: no file, no display, nothing written.
pub fn task_start() -> (r: TaskState)
    ensures
        r == spec_task_init(),
{
    TaskState {
        phase: TaskPhase::Starting,
        file_created: false,
        display_registered: false,
        expected_total: 0,
        bytes_written: 0,
    }
}

/// Feed one event to the machine.
pub fn task_step(s: &TaskState, e: &TaskEvent) -> (r: TaskState)
    ensures
        r == spec_task_step(*s, *e),
{
    match (s.phase, e) {
        (TaskPhase::Starting, TaskEvent::FileCreated) => TaskState {
            phase: TaskPhase::AwaitingResponse,
            file_created: true,
            ..*s
        },
        (TaskPhase::Starting, TaskEvent::FileCreateFailed) => TaskState {
            phase: TaskPhase::Done(TaskOutcome::Failed),
            ..*s
        },
        (TaskPhase::AwaitingResponse, TaskEvent::ResponseReceived { status, content_length }) => {
            if is_success_status(*status) {
                let expected: u64 = match content_length {
                    Some(n) => *n,
                    None => DEFAULT_SIZE_ESTIMATE,
                };
                TaskState {
                    phase: TaskPhase::Streaming,
                    display_registered: true,
                    expected_total: expected,
                    ..*s
                }
            } else {
                TaskState { phase: TaskPhase::Done(TaskOutcome::Skipped), ..*s }
            }
        },
        (TaskPhase::AwaitingResponse, TaskEvent::RequestFailed) => TaskState {
            phase: TaskPhase::Done(TaskOutcome::Failed),
            ..*s
        },
        (TaskPhase::Streaming, TaskEvent::ChunkWritten { len }) => {
            let grown: u64 = if *len > u64::MAX - s.bytes_written {
                u64::MAX
            } else {
                s.bytes_written + *len
            };
            TaskState { bytes_written: grown, ..*s }
        },
        (TaskPhase::Streaming, TaskEvent::StreamFailed) => TaskState {
            phase: TaskPhase::Done(TaskOutcome::Failed),
            ..*s
        },
        (TaskPhase::Streaming, TaskEvent::StreamEnded) => TaskState {
            phase: TaskPhase::Done(TaskOutcome::Completed),
            ..*s
        },
        _ => *s,
    }
}

/// The chunk events for a sequence of chunk lengths.
pub open spec fn spec_chunk_events(lens: Seq<u64>) -> Seq<TaskEvent> {
    lens.map_values(|l: u64| TaskEvent::ChunkWritten { len: l })
}

/// The sum of a sequence of chunk lengths.
pub open spec fn spec_sum_lens(lens: Seq<u64>) -> int
    decreases lens.len(),
{
    if lens.len() == 0 {
        0
    } else {
        lens[0] + spec_sum_lens(lens.skip(1))
    }
}

pub proof fn lemma_sum_lens_nonneg(lens: Seq<u64>)
    ensures
        spec_sum_lens(lens) >= 0,
    decreases lens.len(),
{
    if lens.len() > 0 {
        lemma_sum_lens_nonneg(lens.skip(1));
    }
}

/// A non-success response ends the task as skipped, not failed, and the
/// destination file created before the request stays in place.
pub proof fn lemma_skip_on_bad_status(s: TaskState, status: u16, content_length: Option<u64>)
    requires
        s.phase is AwaitingResponse,
        s.file_created,
        !spec_is_success_status(status),
    ensures
        ({
            let t = spec_task_step(s, TaskEvent::ResponseReceived { status, content_length });
            &&& t.phase == TaskPhase::Done(TaskOutcome::Skipped)
            &&& t.phase != TaskPhase::Done(TaskOutcome::Failed)
            &&& t.file_created
            &&& t.bytes_written == s.bytes_written
        }),
{
}

/// When the stream fails after some chunks, the task ends as failed, the
/// file is still there, and the byte count is exactly the bytes of the
/// chunks appended before the failure: nothing is rolled back.
pub proof fn lemma_stream_error_keeps_bytes(s: TaskState, lens: Seq<u64>)
    requires
        s.phase is Streaming,
        s.bytes_written + spec_sum_lens(lens) <= u64::MAX,
    ensures
        ({
            let t = spec_task_run(s, spec_chunk_events(lens).push(TaskEvent::StreamFailed));
            &&& t.phase == TaskPhase::Done(TaskOutcome::Failed)
            &&& t.bytes_written == s.bytes_written + spec_sum_lens(lens)
            &&& t.file_created == s.file_created
        }),
    decreases lens.len(),
{
    let events = spec_chunk_events(lens).push(TaskEvent::StreamFailed);
    if lens.len() == 0 {
        assert(events[0] == TaskEvent::StreamFailed);
        assert(events.len() == 1);
        assert(events.skip(1) =~= Seq::<TaskEvent>::empty());
        assert(spec_task_run(spec_task_step(s, events[0]), Seq::<TaskEvent>::empty())
            == spec_task_step(s, events[0]));
        assert(spec_task_run(s, events) == spec_task_step(s, TaskEvent::StreamFailed));
    } else {
        lemma_sum_lens_nonneg(lens.skip(1));
        assert(spec_sum_lens(lens) == lens[0] + spec_sum_lens(lens.skip(1)));
        assert(events[0] == TaskEvent::ChunkWritten { len: lens[0] });
        let s1 = spec_task_step(s, events[0]);
        assert(s1.bytes_written == s.bytes_written + lens[0]);
        assert(s1.phase is Streaming && s1.file_created == s.file_created);
        assert(events.skip(1) =~= spec_chunk_events(lens.skip(1)).push(TaskEvent::StreamFailed));
        lemma_stream_error_keeps_bytes(s1, lens.skip(1));
        assert(spec_task_run(s, events) == spec_task_run(s1, events.skip(1)));
    }
}

/// When the stream ends cleanly after some chunks, the task completes and
/// the byte count is exactly the bytes of all chunks received, in order.
pub proof fn lemma_clean_stream_counts_bytes(s: TaskState, lens: Seq<u64>)
    requires
        s.phase is Streaming,
        s.bytes_written + spec_sum_lens(lens) <= u64::MAX,
    ensures
        ({
            let t = spec_task_run(s, spec_chunk_events(lens).push(TaskEvent::StreamEnded));
            &&& t.phase == TaskPhase::Done(TaskOutcome::Completed)
            &&& t.bytes_written == s.bytes_written + spec_sum_lens(lens)
            &&& t.file_created == s.file_created
        }),
    decreases lens.len(),
{
    let events = spec_chunk_events(lens).push(TaskEvent::StreamEnded);
    if lens.len() == 0 {
        assert(events[0] == TaskEvent::StreamEnded);
        assert(events.len() == 1);
        assert(events.skip(1) =~= Seq::<TaskEvent>::empty());
        assert(spec_task_run(spec_task_step(s, events[0]), Seq::<TaskEvent>::empty())
            == spec_task_step(s, events[0]));
        assert(spec_task_run(s, events) == spec_task_step(s, TaskEvent::StreamEnded));
    } else {
        lemma_sum_lens_nonneg(lens.skip(1));
        assert(spec_sum_lens(lens) == lens[0] + spec_sum_lens(lens.skip(1)));
        assert(events[0] == TaskEvent::ChunkWritten { len: lens[0] });
        let s1 = spec_task_step(s, events[0]);
        assert(s1.bytes_written == s.bytes_written + lens[0]);
        assert(s1.phase is Streaming && s1.file_created == s.file_created);
        assert(events.skip(1) =~= spec_chunk_events(lens.skip(1)).push(TaskEvent::StreamEnded));
        lemma_clean_stream_counts_bytes(s1, lens.skip(1));
        assert(spec_task_run(s, events) == spec_task_run(s1, events.skip(1)));
    }
}

} // verus!
