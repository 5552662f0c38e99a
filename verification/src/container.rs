use vstd::prelude::*;
use vstd::string::StrSliceExecFns;
use crate::chunk::StreamChunk;
use crate::error::BuildError;
use crate::output::Output;

verus! {

/// Number of leading characters of a full engine-assigned container
/// identifier that are shown for display. The full identifier is always
/// kept and compared internally; truncation is a display convention only.
pub const CONTAINER_ID_LEN: usize = 12;

/// Truncates a full engine-assigned identifier to its fixed-length
/// display prefix.
pub fn convert_id(id: &str) -> (short: &str)
    requires
        id@.len() >= CONTAINER_ID_LEN,
    ensures
        short@ == id@.subrange(0, CONTAINER_ID_LEN as int),
{
    id.substring_char(0, CONTAINER_ID_LEN)
}

/// The state this library tracks for one build container: the full
/// engine-assigned identifier, and whether a spawn has succeeded so that
/// the identifier refers to a real container. Every engine request for
/// the container is made by the caller with `full_id`.
pub struct ContainerHandle {
    full_id: String,
    spawned: bool,
}

impl ContainerHandle {
    /// The full engine-assigned identifier currently held; a placeholder
    /// (empty) before a spawn succeeds.
    pub closed spec fn spec_full_id(self) -> Seq<char> {
        self.full_id@
    }

    /// Whether a spawn has succeeded for this handle.
    pub closed spec fn is_spawned(self) -> bool {
        self.spawned
    }

    /// A handle that refers to no real container yet.
    pub fn new() -> (h: ContainerHandle)
        ensures
            !h.is_spawned(),
            h.spec_full_id() == Seq::<char>::empty(),
    {
        ContainerHandle { full_id: String::new(), spawned: false }
    }

    /// Records the identifier the engine assigned once create and start
    /// both succeeded; from here on the handle refers to a real container
    /// until it is removed.
    pub fn record_spawned(&mut self, id: String)
        ensures
            final(self).is_spawned(),
            final(self).spec_full_id() == id@,
    {
        self.full_id = id;
        self.spawned = true;
    }

    /// The full identifier, for engine requests.
    pub fn full_id(&self) -> (id: &str)
        ensures
            id@ == self.spec_full_id(),
    {
        self.full_id.as_str()
    }

    /// The display prefix: exactly the first `CONTAINER_ID_LEN`
    /// characters of the engine-assigned identifier.
    pub fn id(&self) -> (short: &str)
        requires
            self.spec_full_id().len() >= CONTAINER_ID_LEN,
        ensures
            short@ == self.spec_full_id().subrange(0, CONTAINER_ID_LEN as int),
    {
        convert_id(self.full_id.as_str())
    }

    /// The check-is-running decision: a cleared keep-running signal means
    /// the container must be torn down now; otherwise it stays eligible
    /// to run. This is the single point besides `ExecSession` where
    /// external cancellation turns into teardown.
    pub fn must_tear_down(&self, keep_running: bool) -> (b: bool)
        ensures
            b == !keep_running,
    {
        !keep_running
    }
}

/// What a sequence of bytes reads as text, if it is valid text.
pub uninterp spec fn utf8_of(bytes: Seq<u8>) -> Option<Seq<char>>;

/// Relies on core::str::from_utf8: whether the bytes are valid text, and
/// which characters they decode to, depends on the bytes alone; it
/// returns Err exactly on bytes that are not valid text.
#[verifier::external_body]
fn decode_utf8(bytes: &Vec<u8>) -> (text: Option<&str>)
    ensures
        (match text {
            Option::Some(s) => utf8_of(bytes@) == Option::Some(s@),
            Option::None => utf8_of(bytes@) is None,
        }),
{
    core::str::from_utf8(bytes).ok()
}

/// A text chunk with at most one trailing newline removed.
pub open spec fn strip_one_newline(s: Seq<char>) -> Seq<char> {
    if s.len() > 0 && s.last() == '\n' {
        s.drop_last()
    } else {
        s
    }
}

/// Removes exactly one trailing newline, if one is present.
pub fn strip_trailing_newline(s: &str) -> (r: String)
    ensures
        r@ == strip_one_newline(s@),
{
    let n: usize = s.unicode_len();
    if n > 0 && s.get_char(n - 1) == '\n' {
        let t = s.substring_char(0, n - 1);
        proof {
            assert(t@ =~= s@.drop_last());
        }
        t.to_owned()
    } else {
        s.to_owned()
    }
}

/// The session's instruction to the exec driver after one chunk.
#[derive(Debug)]
pub enum ExecStep {
    /// The chunk was decoded, stripped and appended; its line is the last
    /// element of the matching side, ready to be emitted; keep consuming.
    Appended,
    /// The cancellation signal was observed cleared: stop consuming the
    /// stream, remove the container, and finish with a cancellation
    /// result instead of a command result.
    CancelTeardown,
    /// The chunk was not valid text: stop and finish with a decode error;
    /// no partial data of the chunk was kept.
    InvalidText,
}

impl ExecStep {
    /// The failure, if any, that the exec call must report for this step.
    pub fn verdict(&self) -> (e: Option<BuildError>)
        ensures
            (match *self {
                ExecStep::Appended => e is None,
                ExecStep::CancelTeardown => e == Option::Some(BuildError::Cancelled),
                ExecStep::InvalidText => e == Option::Some(BuildError::Decode),
            }),
    {
        match self {
            ExecStep::Appended => Option::None,
            ExecStep::CancelTeardown => Option::Some(BuildError::Cancelled),
            ExecStep::InvalidText => Option::Some(BuildError::Decode),
        }
    }
}

/// One in-progress interactive command execution: the lines collected so
/// far from the command's multiplexed stdout/stderr stream.
pub struct ExecSession {
    pub output: Output<String>,
}

impl ExecSession {
    /// A session that has consumed no chunks yet.
    pub fn new() -> (s: ExecSession)
        ensures
            s.output.stdout@ == Seq::<String>::empty(),
            s.output.stderr@ == Seq::<String>::empty(),
    {
        ExecSession { output: Output::new() }
    }

    /// Consumes the next stream chunk. The keep-running signal, read by
    /// the driver immediately before this call, is checked first: if it
    /// is cleared the chunk is not processed and the driver must tear the
    /// container down. Otherwise the chunk is decoded as text — invalid
    /// text fails the call with nothing of the chunk kept — one trailing
    /// newline is stripped, and the line is appended to the matching side
    /// for immediate emission.
    pub fn on_chunk(&mut self, keep_running: bool, chunk: StreamChunk) -> (step: ExecStep)
        ensures
            !keep_running ==> step == ExecStep::CancelTeardown && *final(self) == *old(self),
            keep_running ==> (match utf8_of(chunk.bytes()) {
                Option::None => step == ExecStep::InvalidText && *final(self) == *old(self),
                Option::Some(text) => {
                    &&& step == ExecStep::Appended
                    &&& (chunk is StdOut ==> final(self).output.stdout.deep_view()
                        == old(self).output.stdout.deep_view().push(strip_one_newline(text))
                        && final(self).output.stderr == old(self).output.stderr)
                    &&& (chunk is StdErr ==> final(self).output.stderr.deep_view()
                        == old(self).output.stderr.deep_view().push(strip_one_newline(text))
                        && final(self).output.stdout == old(self).output.stdout)
                },
            }),
    {
        if !keep_running {
            return ExecStep::CancelTeardown;
        }
        match chunk {
            StreamChunk::StdOut(bytes) => {
                match decode_utf8(&bytes) {
                    Option::None => ExecStep::InvalidText,
                    Option::Some(text) => {
                        let line = strip_trailing_newline(text);
                        let ghost line_view = line@;
                        let ghost pre = self.output.stdout.deep_view();
                        self.output.stdout.push(line);
                        proof {
                            assert(self.output.stdout.deep_view() =~= pre.push(line_view));
                        }
                        ExecStep::Appended
                    },
                }
            },
            StreamChunk::StdErr(bytes) => {
                match decode_utf8(&bytes) {
                    Option::None => ExecStep::InvalidText,
                    Option::Some(text) => {
                        let line = strip_trailing_newline(text);
                        let ghost line_view = line@;
                        let ghost pre = self.output.stderr.deep_view();
                        self.output.stderr.push(line);
                        proof {
                            assert(self.output.stderr.deep_view() =~= pre.push(line_view));
                        }
                        ExecStep::Appended
                    },
                }
            },
        }
    }

    /// Hands the collected output over once the stream has ended.
    pub fn finish(self) -> (out: Output<String>)
        ensures
            out == self.output,
    {
        self.output
    }
}

/// What one whole exec call returns when its stream yields the given
/// chunks, with the keep-running signal as read before each chunk:
/// the collected lines of both sides, or the first failure.
pub open spec fn spec_exec(
    stdout: Seq<Seq<char>>,
    stderr: Seq<Seq<char>>,
    events: Seq<(bool, StreamChunk)>,
) -> Result<(Seq<Seq<char>>, Seq<Seq<char>>), BuildError>
    decreases events.len(),
{
    if events.len() == 0 {
        Result::Ok((stdout, stderr))
    } else {
        let ev = events[0];
        if !ev.0 {
            Result::Err(BuildError::Cancelled)
        } else {
            match utf8_of(ev.1.bytes()) {
                Option::None => Result::Err(BuildError::Decode),
                Option::Some(text) => {
                    let line = strip_one_newline(text);
                    if ev.1 is StdOut {
                        spec_exec(stdout.push(line), stderr, events.drop_first())
                    } else {
                        spec_exec(stdout, stderr.push(line), events.drop_first())
                    }
                },
            }
        }
    }
}

/// Runs a whole exec session over an already-received sequence of
/// chunks, each paired with the keep-running signal as read just before
/// it arrived. This is the loop of an exec call with the stream laid out
/// in advance; a live driver makes the same calls chunk by chunk.
pub fn exec_transcript(events: Vec<(bool, StreamChunk)>) -> (r: Result<Output<String>, BuildError>)
    ensures
        (match r {
            Result::Ok(out) => spec_exec(Seq::empty(), Seq::empty(), events@)
                == Result::<(Seq<Seq<char>>, Seq<Seq<char>>), BuildError>::Ok(
                (out.stdout.deep_view(), out.stderr.deep_view())),
            Result::Err(e) => spec_exec(Seq::empty(), Seq::empty(), events@)
                == Result::<(Seq<Seq<char>>, Seq<Seq<char>>), BuildError>::Err(e),
        }),
{
    let mut session = ExecSession::new();
    let mut rest = events;
    proof {
        assert(session.output.stdout.deep_view() =~= Seq::<Seq<char>>::empty());
        assert(session.output.stderr.deep_view() =~= Seq::<Seq<char>>::empty());
    }
    loop
        invariant
            spec_exec(Seq::empty(), Seq::empty(), events@) == spec_exec(
                session.output.stdout.deep_view(),
                session.output.stderr.deep_view(),
                rest@,
            ),
        decreases rest@.len(),
    {
        if rest.len() == 0 {
            return Result::Ok(session.finish());
        }
        let (flag, chunk) = rest.remove(0);
        let step = session.on_chunk(flag, chunk);
        match step.verdict() {
            Option::Some(e) => {
                return Result::Err(e);
            },
            Option::None => {},
        }
    }
}

/// An exec call whose stream yields no chunks reports empty stdout and
/// empty stderr.
pub proof fn lemma_exec_without_output(events: Seq<(bool, StreamChunk)>)
    requires
        events.len() == 0,
    ensures
        spec_exec(Seq::empty(), Seq::empty(), events) == Result::<(
            Seq<Seq<char>>,
            Seq<Seq<char>>,
        ), BuildError>::Ok((Seq::<Seq<char>>::empty(), Seq::<Seq<char>>::empty())),
{
}

/// If every chunk before position `k` is consumed normally and the
/// keep-running signal is observed cleared at position `k`, the exec
/// call terminates there with a cancellation result — not a decode or
/// engine failure — whatever the remaining chunks hold.
pub proof fn lemma_cancellation_wins(
    stdout: Seq<Seq<char>>,
    stderr: Seq<Seq<char>>,
    events: Seq<(bool, StreamChunk)>,
    k: int,
)
    requires
        0 <= k < events.len(),
        forall|j: int| 0 <= j < k ==> (#[trigger] events[j]).0,
        forall|j: int| 0 <= j < k ==> utf8_of((#[trigger] events[j]).1.bytes()) is Some,
        !events[k].0,
    ensures
        spec_exec(stdout, stderr, events) == Result::<(
            Seq<Seq<char>>,
            Seq<Seq<char>>,
        ), BuildError>::Err(BuildError::Cancelled),
    decreases k,
{
    if k > 0 {
        let ev = events[0];
        let text = utf8_of(ev.1.bytes())->Some_0;
        let line = strip_one_newline(text);
        if ev.1 is StdOut {
            lemma_cancellation_wins(stdout.push(line), stderr, events.drop_first(), k - 1);
        } else {
            lemma_cancellation_wins(stdout, stderr.push(line), events.drop_first(), k - 1);
        }
    }
}

/// The accumulated bytes of both sides after consuming a whole log
/// stream: each chunk's bytes appended to its side, in arrival order.
pub open spec fn spec_logs(
    stdout: Seq<u8>,
    stderr: Seq<u8>,
    chunks: Seq<StreamChunk>,
) -> (Seq<u8>, Seq<u8>)
    decreases chunks.len(),
{
    if chunks.len() == 0 {
        (stdout, stderr)
    } else {
        match chunks[0] {
            StreamChunk::StdOut(b) => spec_logs(stdout + b@, stderr, chunks.drop_first()),
            StreamChunk::StdErr(b) => spec_logs(stdout, stderr + b@, chunks.drop_first()),
        }
    }
}

/// Collects a whole log stream, already received, into raw bytes per
/// side; a live driver appends the same way chunk by chunk.
pub fn collect_logs(chunks: Vec<StreamChunk>) -> (out: Output<u8>)
    ensures
        spec_logs(Seq::empty(), Seq::empty(), chunks@) == (out.stdout@, out.stderr@),
{
    let mut out: Output<u8> = Output::new();
    let mut rest = chunks;
    loop
        invariant
            spec_logs(Seq::<u8>::empty(), Seq::<u8>::empty(), chunks@) == spec_logs(
                out.stdout@,
                out.stderr@,
                rest@,
            ),
        decreases rest@.len(),
    {
        if rest.len() == 0 {
            return out;
        }
        let chunk = rest.remove(0);
        collect_log_chunk(&mut out, chunk);
    }
}

/// Appends one log chunk's raw bytes to the matching side of an
/// accumulated log output; the other side is untouched. Unlike exec, log
/// collection does not observe the cancellation signal, an intentional
/// asymmetry of the design.
pub fn collect_log_chunk(out: &mut Output<u8>, chunk: StreamChunk)
    ensures
        (match chunk {
            StreamChunk::StdOut(b) => final(out).stdout@ == old(out).stdout@ + b@
                && final(out).stderr == old(out).stderr,
            StreamChunk::StdErr(b) => final(out).stderr@ == old(out).stderr@ + b@
                && final(out).stdout == old(out).stdout,
        }),
{
    match chunk {
        StreamChunk::StdOut(mut b) => {
            out.stdout.append(&mut b);
        },
        StreamChunk::StdErr(mut b) => {
            out.stderr.append(&mut b);
        },
    }
}

} // verus!
