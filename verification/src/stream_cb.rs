//! Custom stream protocols (`stream_cb`).
//!
//! mpv reads media through user-defined I/O: opening a URI of a registered
//! protocol yields a [`Stream`], which serves reads (and optionally seeks)
//! until mpv closes it. This module says what each callback of the C API is
//! answered with; a callback that panicked is answered like one that failed.

use vstd::prelude::*;

use crate::error;
use crate::error::{status, Result};
use crate::sys;

verus! {

/// Why a [`Stream`] method failed.
#[derive(Debug, Clone, Copy, PartialEq, Eq, Structural)]
pub enum StreamError {
    /// The operation is not supported by the stream.
    Unsupported,
    /// Any other I/O error.
    Failed,
}

/// A user-implemented, read-only media stream served to mpv.
///
/// Semantics follow POSIX `read(2)`/`lseek(2)` in blocking mode.
pub trait Stream: Send + 'static {
    /// Read up to `buf.len()` bytes. Short reads are fine (mpv retries);
    /// block until data is available; return `Ok(0)` for EOF. Errors are
    /// reported to mpv as a read error.
    fn read(&mut self, buf: &mut [u8]) -> core::result::Result<usize, StreamError>;

    /// Seek to the absolute position `offset` and return the resulting
    /// position. mpv probes seekability by seeking to `0` right after
    /// opening. The default implementation reports the stream as
    /// unseekable ([`StreamError::Unsupported`]).
    fn seek(&mut self, offset: u64) -> (r: core::result::Result<u64, StreamError>)
        default_ensures
            r == Err::<u64, StreamError>(StreamError::Unsupported),
    {
        let _ = offset;
        Err(StreamError::Unsupported)
    }

    /// Total size of the stream in bytes, if known.
    fn size(&mut self) -> (r: Option<u64>)
        default_ensures
            r is None,
    {
        None
    }
}

/// The length of the buffer that a request for `nbytes` bytes is served into:
/// a slice never exceeds `isize::MAX` bytes.
pub fn read_len(nbytes: u64) -> (len: usize)
    ensures
        len == (if nbytes <= isize::MAX {
            nbytes as int
        } else {
            isize::MAX as int
        }),
{
    if nbytes <= isize::MAX as u64 {
        nbytes as usize
    } else {
        isize::MAX as usize
    }
}

/// The answer to a read into a buffer of `len` bytes: the number of bytes read,
/// at most `len`, or `-1` if the read failed.
pub open spec fn read_answer(
    outcome: Option<core::result::Result<usize, StreamError>>,
    len: int,
) -> int {
    match outcome {
        Some(Ok(n)) => if n <= len {
            n as int
        } else {
            len
        },
        _ => -1,
    }
}

/// What a read into a buffer of `len` bytes is answered with. `outcome` is
/// what the stream returned, none if it panicked. A stream may wrongly report
/// more bytes than the buffer holds; mpv is never told more than `len`.
pub fn read_reply(
    outcome: Option<core::result::Result<usize, StreamError>>,
    len: usize,
) -> (reply: i64)
    requires
        len <= isize::MAX,
    ensures
        reply == read_answer(outcome, len as int),
{
    match outcome {
        Some(Ok(n)) => if n <= len {
            n as i64
        } else {
            len as i64
        },
        _ => -1,
    }
}

/// The offset of a seek request; none for a negative one, which is answered
/// with an error without asking the stream.
pub fn seek_offset(offset: i64) -> (r: Option<u64>)
    ensures
        r == (if offset >= 0 {
            Some(offset as u64)
        } else {
            None
        }),
{
    if offset >= 0 {
        Some(offset as u64)
    } else {
        None
    }
}

/// The answer to a seek: the resulting position, or the error code for a stream
/// that cannot seek, or the one for any other failure.
pub open spec fn seek_answer(outcome: Option<core::result::Result<u64, StreamError>>) -> int {
    match outcome {
        Some(Ok(pos)) => if pos <= i64::MAX {
            pos as int
        } else {
            sys::MPV_ERROR_GENERIC as int
        },
        Some(Err(StreamError::Unsupported)) => sys::MPV_ERROR_UNSUPPORTED as int,
        _ => sys::MPV_ERROR_GENERIC as int,
    }
}

/// What a seek is answered with. `outcome` is what the stream returned, none
/// if it panicked or was not asked.
pub fn seek_reply(outcome: Option<core::result::Result<u64, StreamError>>) -> (reply: i64)
    ensures
        reply == seek_answer(outcome),
{
    match outcome {
        Some(Ok(pos)) => if pos <= i64::MAX as u64 {
            pos as i64
        } else {
            sys::MPV_ERROR_GENERIC as i64
        },
        Some(Err(StreamError::Unsupported)) => sys::MPV_ERROR_UNSUPPORTED as i64,
        _ => sys::MPV_ERROR_GENERIC as i64,
    }
}

/// The answer to a request for the size: the size, or the error code for an
/// unknown one.
pub open spec fn size_answer(outcome: Option<Option<u64>>) -> int {
    match outcome {
        Some(Some(size)) if size <= i64::MAX => size as int,
        _ => sys::MPV_ERROR_UNSUPPORTED as int,
    }
}

/// What a request for the size is answered with. `outcome` is what the stream
/// returned, none if it panicked.
pub fn size_reply(outcome: Option<Option<u64>>) -> (reply: i64)
    ensures
        reply == size_answer(outcome),
{
    match outcome {
        Some(Some(size)) if size <= i64::MAX as u64 => size as i64,
        _ => sys::MPV_ERROR_UNSUPPORTED as i64,
    }
}

/// What a request to open a URI is answered with. `opened` is how opening it
/// went, none if that panicked. Only for `0` does mpv use the stream.
pub fn open_reply(opened: Option<Result<()>>) -> (code: i32)
    ensures
        code == (if opened matches Some(Ok(_)) {
            0
        } else {
            sys::MPV_ERROR_LOADING_FAILED
        }),
{
    match opened {
        Some(Ok(_)) => 0,
        _ => sys::MPV_ERROR_LOADING_FAILED,
    }
}

/// Serve a read of mpv from `stream` into `buf`: the stream is asked once, to
/// read into the whole buffer, and the reply is the answer to what it returned.
/// That is a count that the buffer holds, or `-1`.
pub fn serve_read<S: Stream>(stream: &mut S, buf: &mut [u8]) -> (reply: i64)
    requires
        old(buf)@.len() <= isize::MAX,
    ensures
        reply == -1 || 0 <= reply <= old(buf)@.len(),
        exists|s: &mut S, b: &mut [u8], outcome: core::result::Result<usize, StreamError>| #[trigger]
            call_ensures(S::read, (s, b), outcome) && *s == *old(stream) && *final(s)
                == *final(stream) && b@ == old(buf)@ && final(b)@ == final(buf)@ && reply
                == read_answer(Some(outcome), old(buf)@.len() as int),
{
    let len: usize = buf.len();
    read_reply(Some(stream.read(buf)), len)
}

/// Serve a seek of mpv on `stream`: the stream is asked once, to seek to
/// `offset`, and the reply is the answer to what it returned. That is a
/// position, or one of the two error codes that the callback may return. The
/// stream is not asked to seek to a negative offset.
pub fn serve_seek<S: Stream>(stream: &mut S, offset: i64) -> (reply: i64)
    ensures
        reply >= 0 || reply == sys::MPV_ERROR_GENERIC || reply == sys::MPV_ERROR_UNSUPPORTED,
        offset < 0 ==> reply == sys::MPV_ERROR_GENERIC && *final(stream) == *old(stream),
        offset >= 0 ==> exists|s: &mut S, outcome: core::result::Result<u64, StreamError>| #[trigger]
            call_ensures(S::seek, (s, offset as u64), outcome) && *s == *old(stream) && *final(s)
                == *final(stream) && reply == seek_answer(Some(outcome)),
{
    match seek_offset(offset) {
        Some(offset) => seek_reply(Some(stream.seek(offset))),
        None => seek_reply(None),
    }
}

/// Serve a request of mpv for the size of `stream`: the stream is asked once,
/// and the reply is the answer to what it returned. That is the size, or the
/// error code for an unknown one.
pub fn serve_size<S: Stream>(stream: &mut S) -> (reply: i64)
    ensures
        reply >= 0 || reply == sys::MPV_ERROR_UNSUPPORTED,
        exists|s: &mut S, size: Option<u64>| #[trigger]
            call_ensures(S::size, (s,), size) && *s == *old(stream) && *final(s) == *final(stream)
                && reply == size_answer(Some(size)),
{
    size_reply(Some(stream.size()))
}

/// What a source with a position has to be asked to find out its size.
#[derive(Debug, Clone, Copy, PartialEq, Eq, Structural)]
pub enum SizeQuery {
    /// Its position.
    Position,
    /// To go to its end, and the resulting position.
    SeekEnd,
    /// To go to this position.
    SeekStart(u64),
}

/// How the size of a source with a position is found out: go to its end, note
/// the position there, and come back.
#[derive(Debug, Clone, Copy, PartialEq, Eq, Structural)]
pub enum SizeProbe {
    /// The position is not known yet.
    Start,
    /// The source was at `pos`.
    AtPosition { pos: u64 },
    /// The source was at `pos`, and its end is at `size`.
    AtEnd { pos: u64, size: u64 },
    /// The size, none if a query failed.
    Done(Option<u64>),
}

impl SizeProbe {
    /// The next query, none when the probe is done.
    pub open spec fn query_spec(self) -> Option<SizeQuery> {
        match self {
            SizeProbe::Start => Some(SizeQuery::Position),
            SizeProbe::AtPosition { .. } => Some(SizeQuery::SeekEnd),
            SizeProbe::AtEnd { pos, .. } => Some(SizeQuery::SeekStart(pos)),
            SizeProbe::Done(_) => None,
        }
    }

    /// The probe after its query was answered.
    pub open spec fn resume_spec(self, answer: Option<u64>) -> SizeProbe {
        match (self, answer) {
            (SizeProbe::Done(size), _) => SizeProbe::Done(size),
            (_, None) => SizeProbe::Done(None),
            (SizeProbe::Start, Some(pos)) => SizeProbe::AtPosition { pos },
            (SizeProbe::AtPosition { pos }, Some(size)) => SizeProbe::AtEnd { pos, size },
            (SizeProbe::AtEnd { size, .. }, Some(_)) => SizeProbe::Done(Some(size)),
        }
    }

    /// The next query, none when the probe is done.
    pub fn query(self) -> (query: Option<SizeQuery>)
        ensures
            query == self.query_spec(),
    {
        match self {
            SizeProbe::Start => Some(SizeQuery::Position),
            SizeProbe::AtPosition { .. } => Some(SizeQuery::SeekEnd),
            SizeProbe::AtEnd { pos, .. } => Some(SizeQuery::SeekStart(pos)),
            SizeProbe::Done(_) => None,
        }
    }

    /// The probe after its query was answered with a position, or failed.
    pub fn resume(self, answer: Option<u64>) -> (probe: SizeProbe)
        ensures
            probe == self.resume_spec(answer),
    {
        match (self, answer) {
            (SizeProbe::Done(size), _) => SizeProbe::Done(size),
            (_, None) => SizeProbe::Done(None),
            (SizeProbe::Start, Some(pos)) => SizeProbe::AtPosition { pos },
            (SizeProbe::AtPosition { pos }, Some(size)) => SizeProbe::AtEnd { pos, size },
            (SizeProbe::AtEnd { size, .. }, Some(_)) => SizeProbe::Done(Some(size)),
        }
    }
}

/// The position of a source of `len` bytes at `pos` after `query`, which is
/// also its answer.
pub open spec fn position_after(query: SizeQuery, pos: u64, len: u64) -> u64 {
    match query {
        SizeQuery::Position => pos,
        SizeQuery::SeekEnd => len,
        SizeQuery::SeekStart(to) => to,
    }
}

/// Probing a source that answers every query gives its length and leaves it
/// at the position where it was.
pub proof fn law_size_probe_restores_position(pos: u64, len: u64)
    ensures
        ({
            let start = SizeProbe::Start;
            let pos1 = position_after(start.query_spec()->0, pos, len);
            let probe1 = start.resume_spec(Some(pos1));
            let pos2 = position_after(probe1.query_spec()->0, pos1, len);
            let probe2 = probe1.resume_spec(Some(pos2));
            let pos3 = position_after(probe2.query_spec()->0, pos2, len);
            let probe3 = probe2.resume_spec(Some(pos3));
            &&& probe3 == SizeProbe::Done(Some(len))
            &&& pos3 == pos
        }),
{
}

/// The open functions of the protocols registered with a player. libmpv holds
/// on to each of them until the core is destroyed, so none is ever removed.
#[derive(Debug)]
pub struct ProtocolRegistry<T> {
    open_fns: Vec<T>,
}

impl<T> View for ProtocolRegistry<T> {
    type V = Seq<T>;

    closed spec fn view(&self) -> Seq<T> {
        self.open_fns@
    }
}

impl<T> Default for ProtocolRegistry<T> {
    fn default() -> (registry: ProtocolRegistry<T>)
        ensures
            registry@ == Seq::<T>::empty(),
    {
        ProtocolRegistry::new()
    }
}

impl<T> ProtocolRegistry<T> {
    /// A registry of no protocols.
    pub fn new() -> (registry: ProtocolRegistry<T>)
        ensures
            registry@ == Seq::<T>::empty(),
    {
        ProtocolRegistry { open_fns: Vec::new() }
    }

    /// Finish a registration that returned `code`: on success the open
    /// function is kept with those registered before, else it is dropped,
    /// because libmpv did not retain it.
    pub fn registered(&mut self, open: T, code: i32) -> (r: Result<()>)
        ensures
            r == error::status_of(code),
            final(self)@ == (if code >= 0 {
                old(self)@.push(open)
            } else {
                old(self)@
            }),
    {
        match status(code) {
            Ok(()) => {
                self.open_fns.push(open);
                Ok(())
            },
            Err(e) => Err(e),
        }
    }
}

/// A read is served into a buffer of exactly the size of the request, and into
/// a smaller one only where no slice can be that long.
pub proof fn law_read_buffer_has_the_size_asked_for(nbytes: u64, len: usize)
    requires
        call_ensures(read_len, (nbytes,), len),
    ensures
        nbytes <= isize::MAX ==> len == nbytes,
        nbytes > isize::MAX ==> len == isize::MAX,
        call_requires(read_reply, (None, len)),
{
}

/// A stream that reports `n` bytes is answered with exactly `n`, for every
/// count and every buffer that holds as many; only for a larger count is mpv
/// told the length of the buffer. A read that failed or panicked is answered
/// with `-1`, which no count is.
pub proof fn law_read_is_answered_with_its_count(
    outcome: Option<core::result::Result<usize, StreamError>>,
    len: usize,
    reply: i64,
)
    requires
        len <= isize::MAX,
    ensures
        call_requires(read_reply, (outcome, len)),
        forall|n: usize|
            n <= len ==> #[trigger] read_answer(Some(Ok::<usize, StreamError>(n)), len as int) == n,
        forall|n: usize|
            n >= len ==> #[trigger] read_answer(Some(Ok::<usize, StreamError>(n)), len as int)
                == len,
        call_ensures(read_reply, (outcome, len), reply) ==> match outcome {
            Some(Ok(n)) => if n <= len {
                reply == n
            } else {
                reply == len
            },
            Some(Err(_)) => reply == -1,
            None => reply == -1,
        },
        read_answer(outcome, len as int) == -1 <==> !(outcome matches Some(Ok(_))),
{
}

/// The answers to a read grow with the count that the stream reports: one more
/// byte is one more in the answer, until the buffer is full.
pub proof fn law_read_answers_grow_with_the_count(n: usize, m: usize, len: usize)
    requires
        n < m <= len,
    ensures
        read_answer(Some(Ok(m)), len as int) - read_answer(Some(Ok(n)), len as int) == m - n,
{
}

/// A read of mpv is one read of the stream into the whole buffer, answered with
/// exactly the count that the stream reports if the buffer holds as many, with
/// the length of the buffer if it does not, and with `-1` if the stream failed.
pub proof fn law_served_read<S: Stream>()
    ensures
        forall|stream: &mut S, buf: &mut [u8], reply: i64| #[trigger]
            call_ensures(serve_read::<S>, (stream, buf), reply) ==> exists|
                s: &mut S,
                b: &mut [u8],
                outcome: core::result::Result<usize, StreamError>,
            | #[trigger]
                call_ensures(S::read, (s, b), outcome) && *s == *stream
                    && *final(s) == *final(stream) && b@ == buf@ && final(b)@ == final(buf)@
                    && match outcome {
                    Ok(n) => (n <= buf@.len() ==> reply == n) && (n > buf@.len() ==> reply
                        == buf@.len()),
                    Err(_) => reply == -1,
                },
        forall|stream: &mut S, buf: &mut [u8]|
            buf@.len() <= isize::MAX ==> #[trigger] call_requires(serve_read::<S>, (stream, buf)),
{
}

/// A stream is asked to seek to exactly the offset of the request, and never to
/// a negative one.
pub proof fn law_seek_offset_is_passed_on(offset: i64, r: Option<u64>)
    requires
        call_ensures(seek_offset, (offset,), r),
    ensures
        offset >= 0 ==> (r matches Some(to) && to == offset),
        offset < 0 ==> r is None,
{
}

/// A seek is answered with exactly the position that the stream reports,
/// wherever an `int64_t` can say it; with the code for what is not supported
/// only if the stream says that; and with the general error code otherwise.
pub proof fn law_seek_is_answered_with_its_position(
    outcome: Option<core::result::Result<u64, StreamError>>,
    reply: i64,
)
    ensures
        forall|pos: u64|
            pos < 0x8000_0000_0000_0000 ==> #[trigger] seek_answer(
                Some(Ok::<u64, StreamError>(pos)),
            ) == pos,
        call_ensures(seek_reply, (outcome,), reply) ==> match outcome {
            Some(Ok(pos)) => if pos < 0x8000_0000_0000_0000 {
                reply == pos
            } else {
                reply == -20
            },
            Some(Err(StreamError::Unsupported)) => reply == -18,
            Some(Err(StreamError::Failed)) => reply == -20,
            None => reply == -20,
        },
        seek_answer(outcome) == -18 <==> (outcome matches Some(Err(e)) && e
            == StreamError::Unsupported),
        seek_answer(outcome) >= 0 <==> (outcome matches Some(Ok(pos)) && pos
            < 0x8000_0000_0000_0000),
{
}

/// A seek of mpv to an offset that is not negative is one seek of the stream to
/// that offset, answered with the position that the stream reports or with the
/// code of its failure; to a negative offset the stream is not asked to seek.
pub proof fn law_served_seek<S: Stream>()
    ensures
        forall|stream: &mut S, offset: i64, reply: i64| #[trigger]
            call_ensures(serve_seek::<S>, (stream, offset), reply) && offset >= 0 ==> exists|
                s: &mut S,
                outcome: core::result::Result<u64, StreamError>,
            | #[trigger]
                call_ensures(S::seek, (s, offset as u64), outcome) && *s == *stream && *final(s)
                    == *final(stream) && match outcome {
                    Ok(pos) => (pos < 0x8000_0000_0000_0000 ==> reply == pos) && (pos
                        >= 0x8000_0000_0000_0000 ==> reply == -20),
                    Err(e) => (e == StreamError::Unsupported ==> reply == -18) && (e
                        == StreamError::Failed ==> reply == -20),
                },
        forall|stream: &mut S, offset: i64, reply: i64| #[trigger]
            call_ensures(serve_seek::<S>, (stream, offset), reply) && offset < 0 ==> reply == -20
                && *final(stream) == *stream,
        forall|stream: &mut S, offset: i64| #[trigger]
            call_requires(serve_seek::<S>, (stream, offset)),
{
}

/// A request for the size is answered with exactly the size, wherever an
/// `int64_t` can say it, and otherwise with the code for what is not supported.
pub proof fn law_size_is_answered_with_itself(outcome: Option<Option<u64>>, reply: i64)
    ensures
        forall|size: u64|
            size < 0x8000_0000_0000_0000 ==> #[trigger] size_answer(Some(Some(size))) == size,
        call_ensures(size_reply, (outcome,), reply) ==> match outcome {
            Some(Some(size)) => if size < 0x8000_0000_0000_0000 {
                reply == size
            } else {
                reply == -18
            },
            _ => reply == -18,
        },
        size_answer(outcome) == -18 <==> !(outcome matches Some(Some(size)) && size
            < 0x8000_0000_0000_0000),
{
}

/// A request of mpv for the size is one question to the stream, answered with
/// the size it tells, or with the code for what is not supported.
pub proof fn law_served_size<S: Stream>()
    ensures
        forall|stream: &mut S, reply: i64| #[trigger]
            call_ensures(serve_size::<S>, (stream,), reply) ==> exists|
                s: &mut S,
                size: Option<u64>,
            | #[trigger]
                call_ensures(S::size, (s,), size) && *s == *stream && *final(s) == *final(stream)
                    && match size {
                    Some(size) => (size < 0x8000_0000_0000_0000 ==> reply == size) && (size
                        >= 0x8000_0000_0000_0000 ==> reply == -18),
                    None => reply == -18,
                },
        forall|stream: &mut S| #[trigger] call_requires(serve_size::<S>, (stream,)),
{
}

/// mpv is told that a URI was opened exactly if it was; otherwise that loading
/// failed.
pub proof fn law_open_is_answered(opened: Option<Result<()>>, code: i32)
    requires
        call_ensures(open_reply, (opened,), code),
    ensures
        code == 0 <==> (opened matches Some(r) && r is Ok),
        code != 0 ==> code == -13,
{
}

/// Whatever a source answers, a probe asks at most three things: for the
/// position, for the end, and to go back to the position that was answered
/// first. The size is the second answer. A query that fails ends the probe
/// without a size, and a probe that is done stays done.
pub proof fn law_size_probe_asks_in_order(
    first: Option<u64>,
    second: Option<u64>,
    third: Option<u64>,
)
    ensures
        SizeProbe::Start.query_spec() == Some(SizeQuery::Position),
        ({
            let one = SizeProbe::Start.resume_spec(first);
            let two = one.resume_spec(second);
            let three = two.resume_spec(third);
            &&& first is None ==> one == SizeProbe::Done(None) && one.query_spec() is None
            &&& first is Some ==> one.query_spec() == Some(SizeQuery::SeekEnd)
            &&& first is Some && second is None ==> two == SizeProbe::Done(None)
                && two.query_spec() is None
            &&& first is Some && second is Some ==> two.query_spec() == Some(
                SizeQuery::SeekStart(first->0),
            )
            &&& three.query_spec() is None
            &&& three == SizeProbe::Done(
                if first is Some && third is Some {
                    second
                } else {
                    None
                },
            )
        }),
        forall|size: Option<u64>, answer: Option<u64>| #[trigger]
            SizeProbe::Done(size).resume_spec(answer) == SizeProbe::Done(size),
{
}

/// A probe asks and goes on as [`law_size_probe_asks_in_order`] says.
pub proof fn law_size_probe_runs(
    probe: SizeProbe,
    answer: Option<u64>,
    query: Option<SizeQuery>,
    next: SizeProbe,
)
    ensures
        call_ensures(SizeProbe::query, (probe,), query) ==> query == probe.query_spec(),
        call_ensures(SizeProbe::resume, (probe, answer), next) ==> next
            == probe.resume_spec(answer),
{
}

/// A registry starts with no protocols. A registration that succeeded keeps its
/// open function after those that were there, in order; one that failed changes
/// nothing and gives the error with the code of the status.
pub proof fn law_protocols_are_kept<T>()
    ensures
        forall|registry: ProtocolRegistry<T>| #[trigger]
            call_ensures(ProtocolRegistry::<T>::new, (), registry) ==> registry@.len() == 0,
        forall|registry: ProtocolRegistry<T>| #[trigger]
            call_ensures(<ProtocolRegistry<T> as Default>::default, (), registry)
                ==> registry@.len() == 0,
        forall|registry: &mut ProtocolRegistry<T>, open: T, code: i32, r: Result<()>| #[trigger]
            call_ensures(ProtocolRegistry::<T>::registered, (registry, open, code), r) ==> {
                &&& code >= 0 ==> r is Ok && final(registry)@.len() == registry@.len() + 1
                    && final(registry)@.last() == open && final(registry)@.drop_last() == registry@
                &&& code < 0 ==> final(registry)@ == registry@ && (r matches Err(e) && e.code()
                    == Some(code))
            },
{
    assert forall|registry: &mut ProtocolRegistry<T>, open: T, code: i32, r: Result<()>| #[trigger]
        call_ensures(ProtocolRegistry::<T>::registered, (registry, open, code), r) implies {
        &&& code >= 0 ==> r is Ok && final(registry)@.len() == registry@.len() + 1
            && final(registry)@.last() == open && final(registry)@.drop_last() == registry@
        &&& code < 0 ==> final(registry)@ == registry@ && (r matches Err(e) && e.code() == Some(
            code,
        ))
    } by {
        error::law_code_round_trip(code);
        assert(registry@.push(open).drop_last() =~= registry@);
    }
}

} // verus!
