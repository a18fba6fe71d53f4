//! Processes under the debugger.

use vstd::prelude::*;
use vstd::string::*;
use vstd::utf8::*;

use crate::cursor::{cursor_after, cursor_yield, remaining_usize, step_usize, yields_usize};
use crate::event::SBEvent;
use crate::text::decode_text;
use crate::StateType;

verus! {

/// A process is alive in the `Attaching`, `Launching`, `Stopped`,
/// `Running`, `Stepping`, `Crashed` and `Suspended` states.
pub open spec fn state_is_alive(state: StateType) -> bool {
    match state {
        StateType::Attaching | StateType::Launching | StateType::Stopped | StateType::Running
        | StateType::Stepping | StateType::Crashed | StateType::Suspended => true,
        _ => false,
    }
}

/// A process is running in the `Running` and `Stepping` states.
pub open spec fn state_is_running(state: StateType) -> bool {
    match state {
        StateType::Running | StateType::Stepping => true,
        _ => false,
    }
}

/// A process is stopped in the `Stopped`, `Crashed` and `Suspended` states.
pub open spec fn state_is_stopped(state: StateType) -> bool {
    match state {
        StateType::Stopped | StateType::Crashed | StateType::Suspended => true,
        _ => false,
    }
}

/// A running process and a stopped process are both alive, and no process
/// is running and stopped at once. A process that has exited, has been
/// detached, is only connected or unloaded, or has no valid state is not
/// alive.
pub proof fn lemma_process_state_classes(state: StateType)
    ensures
        state_is_running(state) ==> state_is_alive(state),
        state_is_stopped(state) ==> state_is_alive(state),
        !(state_is_running(state) && state_is_stopped(state)),
        state_is_alive(state) <==> (state_is_running(state) || state_is_stopped(state)
            || state == StateType::Attaching || state == StateType::Launching),
        (state == StateType::Exited || state == StateType::Detached || state
            == StateType::Connected || state == StateType::Unloaded || state
            == StateType::Invalid) ==> !state_is_alive(state),
{
}

/// The process associated with the target program.
///
/// You get a process by attaching to or launching a target program.
/// It is common to check whether the process [`SBProcess::is_alive()`],
/// [`SBProcess::is_running()`] or [`SBProcess::is_stopped()`]: these
/// classify the state that LLDB reports for it.
///
/// The process contains the threads of execution for the target, visited
/// with [`SBProcess::threads()`], and (on Apple platforms) a set of
/// libdispatch queues, visited with [`SBProcess::queues()`].
#[derive(Clone, Debug)]
pub struct SBProcess<R> {
    /// The underlying raw reference to LLDB's process.
    pub raw: R,
}

impl<R> SBProcess<R> {
    /// Construct a new `SBProcess`.
    pub fn wrap(raw: R) -> (r: Self)
        ensures
            r.raw == raw,
    {
        SBProcess { raw }
    }

    /// Construct a new `Some(SBProcess)` when LLDB reports `raw` valid, or
    /// `None`.
    pub fn maybe_wrap(raw: R, is_valid: bool) -> (r: Option<Self>)
        ensures
            r is Some <==> is_valid,
            r matches Some(w) ==> w.raw == raw,
    {
        if is_valid {
            Some(SBProcess { raw })
        } else {
            None
        }
    }

    /// Returns `true` if the process, in the given `state`, is alive.
    ///
    /// This corresponds to the process being in the `Attaching`,
    /// `Launching`, `Stopped`, `Running`, `Stepping`, `Crashed`
    /// or `Suspended` states.
    pub fn is_alive(&self, state: StateType) -> (r: bool)
        ensures
            r == state_is_alive(state),
    {
        match state {
            StateType::Attaching | StateType::Launching | StateType::Stopped | StateType::Running
            | StateType::Stepping | StateType::Crashed | StateType::Suspended => true,
            _ => false,
        }
    }

    /// Returns `true` if the process, in the given `state`, is running.
    ///
    /// This corresponds to the process being in the `Running`
    /// or `Stepping` states.
    pub fn is_running(&self, state: StateType) -> (r: bool)
        ensures
            r == state_is_running(state),
    {
        match state {
            StateType::Running | StateType::Stepping => true,
            _ => false,
        }
    }

    /// Returns `true` if the process, in the given `state`, is stopped.
    ///
    /// This corresponds to the process being in the `Stopped`, `Crashed`,
    /// or `Suspended` states.
    pub fn is_stopped(&self, state: StateType) -> (r: bool)
        ensures
            r == state_is_stopped(state),
    {
        match state {
            StateType::Stopped | StateType::Crashed | StateType::Suspended => true,
            _ => false,
        }
    }

    /// The text delivered by one read of the process's stdout stream, or
    /// `None` when the bytes read are not UTF-8.
    pub fn get_stdout(&self, read: &[u8]) -> (r: Option<String>)
        ensures
            r is Some <==> valid_utf8(read@),
            r matches Some(s) ==> s@ == decode_utf8(read@),
    {
        decode_text(read)
    }

    /// The text delivered by one read of the process's stderr stream, or
    /// `None` when the bytes read are not UTF-8.
    pub fn get_stderr(&self, read: &[u8]) -> (r: Option<String>)
        ensures
            r is Some <==> valid_utf8(read@),
            r matches Some(s) ==> s@ == decode_utf8(read@),
    {
        decode_text(read)
    }

    /// Get an iterator over the threads known to this process instance.
    pub fn threads(&self) -> (r: SBProcessThreadIter<'_, R>)
        ensures
            r.position() == 0,
            *r.owner() == *self,
    {
        SBProcessThreadIter { process: self, idx: 0 }
    }

    /// Get an iterator over the queues known to this process instance.
    pub fn queues(&self) -> (r: SBProcessQueueIter<'_, R>)
        ensures
            r.position() == 0,
            *r.owner() == *self,
    {
        SBProcessQueueIter { process: self, idx: 0 }
    }

    /// View `event` as a process event when LLDB reports that it is one.
    pub fn event_as_process_event<'e>(event: &'e SBEvent<R>, is_process_event: bool) -> (r:
        Option<SBProcessEvent<'e, R>>)
        ensures
            r is Some <==> is_process_event,
            r matches Some(e) ==> *e.spec_event() == *event,
    {
        if is_process_event {
            Some(SBProcessEvent::new(event))
        } else {
            None
        }
    }
}

/// Iterate over the threads in a process.
pub struct SBProcessThreadIter<'d, R> {
    process: &'d SBProcess<R>,
    idx: usize,
}

impl<'d, R> SBProcessThreadIter<'d, R> {
    /// How many threads the walk has handed out so far.
    pub closed spec fn position(&self) -> int {
        self.idx as int
    }

    /// The process whose threads are walked.
    pub closed spec fn owner(&self) -> &'d SBProcess<R> {
        self.process
    }

    /// The process whose threads are walked.
    pub fn process(&self) -> (r: &'d SBProcess<R>)
        ensures
            r == self.owner(),
    {
        self.process
    }

    /// The index of the next thread to fetch, given the number of threads
    /// LLDB reports, or `None` once the walk is over.
    pub fn next_index(&mut self, num_threads: usize) -> (r: Option<usize>)
        ensures
            yields_usize(r, cursor_yield(old(self).position(), num_threads as int)),
            final(self).position() == cursor_after(old(self).position(), num_threads as int),
            final(self).owner() == old(self).owner(),
    {
        step_usize(&mut self.idx, num_threads)
    }

    /// The number of threads still to come, exactly, as both bounds, or `None`
    /// when the walk stands past the number LLDB now reports.
    pub fn size_hint(&self, num_threads: usize) -> (r: Option<(usize, Option<usize>)>)
        ensures
            match r {
                Some(h) => self.position() <= num_threads && h.0 == num_threads - self.position() && h.1
                    == Some(h.0),
                None => self.position() > num_threads,
            },
    {
        if self.idx <= num_threads {
            Some(remaining_usize(self.idx, num_threads))
        } else {
            None
        }
    }
}

/// Iterate over the queues in a process.
pub struct SBProcessQueueIter<'d, R> {
    process: &'d SBProcess<R>,
    idx: usize,
}

impl<'d, R> SBProcessQueueIter<'d, R> {
    /// How many queues the walk has handed out so far.
    pub closed spec fn position(&self) -> int {
        self.idx as int
    }

    /// The process whose queues are walked.
    pub closed spec fn owner(&self) -> &'d SBProcess<R> {
        self.process
    }

    /// The process whose queues are walked.
    pub fn process(&self) -> (r: &'d SBProcess<R>)
        ensures
            r == self.owner(),
    {
        self.process
    }

    /// The index of the next queue to fetch, given the number of queues
    /// LLDB reports, or `None` once the walk is over.
    pub fn next_index(&mut self, num_queues: usize) -> (r: Option<usize>)
        ensures
            yields_usize(r, cursor_yield(old(self).position(), num_queues as int)),
            final(self).position() == cursor_after(old(self).position(), num_queues as int),
            final(self).owner() == old(self).owner(),
    {
        step_usize(&mut self.idx, num_queues)
    }

    /// The number of queues still to come, exactly, as both bounds, or `None`
    /// when the walk stands past the number LLDB now reports.
    pub fn size_hint(&self, num_queues: usize) -> (r: Option<(usize, Option<usize>)>)
        ensures
            match r {
                Some(h) => self.position() <= num_queues && h.0 == num_queues - self.position() && h.1
                    == Some(h.0),
                None => self.position() > num_queues,
            },
    {
        if self.idx <= num_queues {
            Some(remaining_usize(self.idx, num_queues))
        } else {
            None
        }
    }
}

/// The token to unload an image loaded into a process.
#[derive(Clone, Copy, Debug, PartialEq, Eq, Structural)]
pub struct ImageToken(pub u32);

/// What reading one more chunk of a process output stream leads to.
pub enum OutputStep {
    /// The chunk has been taken in; read the next one.
    More(OutputCollector),
    /// The reading is over, with the text of everything read, or with
    /// `None` when the bytes read, taken together, are not UTF-8.
    Done(Option<String>),
}

/// Gathers what a process writes to stdout or stderr, read chunk by chunk
/// until the stream yields nothing more.
///
/// The bytes are kept as read and decoded only once the stream has ended,
/// so a character whose encoding is split over two reads is decoded whole.
pub struct OutputCollector {
    bytes: Vec<u8>,
}

/// The bytes gathered from a stream that delivers `chunks`, from a state in
/// which `bytes` have been gathered: reading stops at the first empty chunk.
/// `None` when the chunks run out before an empty one.
pub open spec fn gathered_bytes(bytes: Seq<u8>, chunks: Seq<Seq<u8>>) -> Option<Seq<u8>>
    decreases chunks.len(),
{
    if chunks.len() == 0 {
        None
    } else if chunks[0].len() == 0 {
        Some(bytes)
    } else {
        gathered_bytes(bytes + chunks[0], chunks.drop_first())
    }
}

/// The text of what `bytes` hold, or `None` when they are not UTF-8.
pub open spec fn text_of(bytes: Seq<u8>) -> Option<Seq<char>> {
    if valid_utf8(bytes) {
        Some(decode_utf8(bytes))
    } else {
        None
    }
}

/// The text gathered from a stream that delivers `chunks`, from a state in
/// which `bytes` have been gathered: the text of all the bytes read before
/// the first empty chunk, or `None` when those bytes are not UTF-8 (or the
/// chunks run out before an empty one).
pub open spec fn gathered_text(bytes: Seq<u8>, chunks: Seq<Seq<u8>>) -> Option<Seq<char>> {
    match gathered_bytes(bytes, chunks) {
        Some(b) => text_of(b),
        None => None,
    }
}

/// The text in `d`, if any.
pub open spec fn text_view(d: Option<String>) -> Option<Seq<char>> {
    match d {
        Some(s) => Some(s@),
        None => None,
    }
}

/// The chunks of `chunks` before the first empty one.
pub open spec fn chunks_before_end(chunks: Seq<Seq<u8>>) -> Seq<Seq<u8>>
    decreases chunks.len(),
{
    if chunks.len() == 0 || chunks[0].len() == 0 {
        Seq::empty()
    } else {
        seq![chunks[0]] + chunks_before_end(chunks.drop_first())
    }
}

/// Reading a stream that ends (delivers an empty chunk) gives back the
/// text of everything read before the end, taken as one run of bytes,
/// whatever the boundaries between the chunks, exactly when that run is
/// UTF-8, and nothing otherwise; what follows the end is never looked at.
pub proof fn lemma_gathered_text(bytes: Seq<u8>, chunks: Seq<Seq<u8>>)
    requires
        exists|i: int| 0 <= i < chunks.len() && chunks[i].len() == 0,
    ensures
        gathered_bytes(bytes, chunks) == Some(bytes + chunks_before_end(chunks).flatten()),
        gathered_text(bytes, chunks) is Some <==> valid_utf8(
            bytes + chunks_before_end(chunks).flatten(),
        ),
        gathered_text(bytes, chunks) matches Some(t) ==> t == decode_utf8(
            bytes + chunks_before_end(chunks).flatten(),
        ),
    decreases chunks.len(),
{
    let before = chunks_before_end(chunks);
    if chunks[0].len() == 0 {
        assert(before =~= Seq::<Seq<u8>>::empty());
        assert(bytes + before.flatten() =~= bytes);
    } else {
        let rest = chunks.drop_first();
        let j = choose|i: int| 0 <= i < chunks.len() && chunks[i].len() == 0;
        assert(j > 0);
        assert(rest[j - 1].len() == 0);
        let rest_before = chunks_before_end(rest);
        lemma_gathered_text(bytes + chunks[0], rest);
        assert(before =~= seq![chunks[0]] + rest_before);
        assert(before.first() == chunks[0]);
        assert(before.drop_first() =~= rest_before);
        assert(before.flatten() == chunks[0] + rest_before.flatten());
        assert((bytes + chunks[0]) + rest_before.flatten() =~= bytes + before.flatten());
    }
}

/// A stream that delivers the non-empty chunks `chunks` and then ends
/// gives the text of all their bytes, in order and none left out: the
/// result is present exactly when the concatenation is UTF-8, and is then
/// its decoding, whose UTF-8 encoding is that whole run of bytes.
pub proof fn lemma_whole_stream_is_read(chunks: Seq<Seq<u8>>)
    requires
        forall|i: int| 0 <= i < chunks.len() ==> #[trigger] chunks[i].len() > 0,
    ensures
        gathered_bytes(Seq::empty(), chunks.push(Seq::empty())) == Some(chunks.flatten()),
        gathered_text(Seq::empty(), chunks.push(Seq::empty())) is Some <==> valid_utf8(
            chunks.flatten(),
        ),
        gathered_text(Seq::empty(), chunks.push(Seq::empty())) matches Some(t) ==> t
            == decode_utf8(chunks.flatten()),
{
    let all = chunks.push(Seq::empty());
    assert(all[chunks.len() as int].len() == 0);
    lemma_chunks_before_end_of_pushed(chunks);
    lemma_gathered_text(Seq::empty(), all);
    assert(Seq::<u8>::empty() + chunks.flatten() =~= chunks.flatten());
}

/// The chunks before the end of non-empty `chunks` followed by an empty
/// one are `chunks` themselves.
proof fn lemma_chunks_before_end_of_pushed(chunks: Seq<Seq<u8>>)
    requires
        forall|i: int| 0 <= i < chunks.len() ==> #[trigger] chunks[i].len() > 0,
    ensures
        chunks_before_end(chunks.push(Seq::empty())) == chunks,
    decreases chunks.len(),
{
    let all = chunks.push(Seq::empty());
    if chunks.len() == 0 {
        assert(all[0].len() == 0);
        assert(chunks_before_end(all) =~= chunks);
    } else {
        let rest = chunks.drop_first();
        assert forall|i: int| 0 <= i < rest.len() implies #[trigger] rest[i].len() > 0 by {
            assert(rest[i] == chunks[i + 1]);
        }
        lemma_chunks_before_end_of_pushed(rest);
        assert(all.drop_first() =~= rest.push(Seq::empty()));
        assert(all[0] == chunks[0]);
        assert(chunks[0].len() > 0);
        assert(chunks_before_end(all) =~= seq![chunks[0]] + rest);
        assert(seq![chunks[0]] + rest =~= chunks);
    }
}

impl OutputCollector {
    /// The bytes gathered so far.
    pub closed spec fn bytes(&self) -> Seq<u8> {
        self.bytes@
    }

    /// Start reading a stream, with nothing gathered yet.
    pub fn new() -> (r: Self)
        ensures
            r.bytes() == Seq::<u8>::empty(),
    {
        OutputCollector { bytes: Vec::new() }
    }

    /// Take in the next chunk read from the stream.
    ///
    /// An empty chunk ends the stream: the result is the text of all the
    /// bytes gathered, or `None` when they are not UTF-8. Any other chunk is
    /// appended to the bytes gathered, and reading goes on.
    pub fn accept(self, chunk: &[u8]) -> (r: OutputStep)
        ensures
            chunk@.len() == 0 ==> (r matches OutputStep::Done(d) && (d is Some <==> valid_utf8(
                self.bytes(),
            )) && (d matches Some(s) ==> s@ == decode_utf8(self.bytes()))),
            chunk@.len() > 0 ==> (r matches OutputStep::More(c) && c.bytes() == self.bytes()
                + chunk@),
            forall|rest: Seq<Seq<u8>>|
                match r {
                    OutputStep::Done(d) => text_view(d) == #[trigger] gathered_text(
                        self.bytes(),
                        seq![chunk@] + rest,
                    ),
                    OutputStep::More(c) => gathered_text(self.bytes(), seq![chunk@] + rest)
                        == gathered_text(c.bytes(), rest),
                },
    {
        proof {
            assert forall|rest: Seq<Seq<u8>>| #[trigger]
                (seq![chunk@] + rest).drop_first() =~= rest && (seq![chunk@] + rest)[0]
                    == chunk@ by {}
        }
        if chunk.len() == 0 {
            return OutputStep::Done(decode_text(self.bytes.as_slice()));
        }
        let mut bytes = self.bytes;
        let ghost start = bytes@;
        let mut i: usize = 0;
        while i < chunk.len()
            invariant
                i <= chunk@.len(),
                bytes@ =~= start + chunk@.subrange(0, i as int),
            decreases chunk@.len() - i,
        {
            bytes.push(chunk[i]);
            i = i + 1;
        }
        assert(chunk@.subrange(0, chunk@.len() as int) =~= chunk@);
        OutputStep::More(OutputCollector { bytes })
    }
}

/// A process event: what a process broadcasts when its state changes.
pub struct SBProcessEvent<'e, R> {
    event: &'e SBEvent<R>,
}

impl<'e, R> SBProcessEvent<'e, R> {
    /// The event viewed as a process event.
    pub closed spec fn spec_event(&self) -> &'e SBEvent<R> {
        self.event
    }

    /// View `event` as a process event.
    pub fn new(event: &'e SBEvent<R>) -> (r: Self)
        ensures
            *r.spec_event() == *event,
    {
        SBProcessEvent { event }
    }

    /// The event viewed as a process event.
    pub fn event(&self) -> (r: &'e SBEvent<R>)
        ensures
            r == self.spec_event(),
    {
        self.event
    }

    /// Iterate over the reasons for which the process was restarted.
    pub fn restarted_reasons(&'e self) -> (r: SBProcessEventRestartedReasonIter<'e, R>)
        ensures
            r.position() == 0,
            *r.owner() == *self,
    {
        SBProcessEventRestartedReasonIter { event: self, idx: 0 }
    }
}

/// The event bit a process broadcasts when its state changes.
pub const BROADCAST_BIT_STATE_CHANGED: u32 = 1;

/// The event bit a process broadcasts when it is interrupted.
pub const BROADCAST_BIT_INTERRUPT: u32 = 2;

/// The event bit a process broadcasts when it writes to stdout.
pub const BROADCAST_BIT_STDOUT: u32 = 4;

/// The event bit a process broadcasts when it writes to stderr.
pub const BROADCAST_BIT_STDERR: u32 = 8;

/// The event bit a process broadcasts with profile data.
pub const BROADCAST_BIT_PROFILE_DATA: u32 = 16;

/// The event bit a process broadcasts with structured data.
pub const BROADCAST_BIT_STRUCTURED_DATA: u32 = 32;

/// Iterate over the restart reasons in a process event.
pub struct SBProcessEventRestartedReasonIter<'d, R> {
    event: &'d SBProcessEvent<'d, R>,
    idx: usize,
}

impl<'d, R> SBProcessEventRestartedReasonIter<'d, R> {
    /// How many reasons the walk has handed out so far.
    pub closed spec fn position(&self) -> int {
        self.idx as int
    }

    /// The event whose restart reasons are walked.
    pub closed spec fn owner(&self) -> &'d SBProcessEvent<'d, R> {
        self.event
    }

    /// The event whose restart reasons are walked.
    pub fn event(&self) -> (r: &'d SBProcessEvent<'d, R>)
        ensures
            r == self.owner(),
    {
        self.event
    }

    /// The index of the next reason to fetch, given the number of reasons
    /// LLDB reports, or `None` once the walk is over.
    pub fn next_index(&mut self, num_reasons: usize) -> (r: Option<usize>)
        ensures
            yields_usize(r, cursor_yield(old(self).position(), num_reasons as int)),
            final(self).position() == cursor_after(old(self).position(), num_reasons as int),
            final(self).owner() == old(self).owner(),
    {
        step_usize(&mut self.idx, num_reasons)
    }

    /// The number of reasons still to come, exactly, as both bounds, or `None`
    /// when the walk stands past the number LLDB now reports.
    pub fn size_hint(&self, num_reasons: usize) -> (r: Option<(usize, Option<usize>)>)
        ensures
            match r {
                Some(h) => self.position() <= num_reasons && h.0 == num_reasons - self.position() && h.1
                    == Some(h.0),
                None => self.position() > num_reasons,
            },
    {
        if self.idx <= num_reasons {
            Some(remaining_usize(self.idx, num_reasons))
        } else {
            None
        }
    }
}

} // verus!
