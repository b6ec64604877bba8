//! One direction of a connection: bytes are read from a source in chunks
//! and each chunk is written in full to the destination before the next
//! read. The caller performs the reads and writes; the types here decide
//! what happens after each of them and keep count.

use vstd::prelude::*;
use vstd::slice::slice_subrange;

verus! {

/// Size of the buffer a direction reads into.
pub const BUF_SIZE: usize = 2048;

/// How an I/O operation failed, as far as the forwarder cares.
#[derive(Debug, Clone, Copy, PartialEq, Eq, Structural)]
pub enum FailureKind {
    /// The peer reset the connection.
    ConnectionReset,
    /// The connection was aborted.
    ConnectionAborted,
    /// Anything else.
    Other,
}

/// A failed I/O operation: its kind and a description for the operator.
#[derive(Debug, PartialEq, Eq)]
pub struct IoFailure {
    pub kind: FailureKind,
    pub detail: String,
}

impl IoFailure {
    /// A reset or aborted connection is how many peers hang up: on a read
    /// it counts as the end of the stream.
    pub open spec fn benign(&self) -> bool {
        self.kind == FailureKind::ConnectionReset || self.kind == FailureKind::ConnectionAborted
    }

    #[verifier::when_used_as_spec(benign)]
    pub fn is_benign(&self) -> (benign: bool)
        ensures
            benign == self.benign(),
    {
        match self.kind {
            FailureKind::ConnectionReset => true,
            FailureKind::ConnectionAborted => true,
            FailureKind::Other => false,
        }
    }
}

impl Clone for IoFailure {
    fn clone(&self) -> (copy: Self)
        ensures
            copy == *self,
    {
        IoFailure { kind: self.kind, detail: self.detail.clone() }
    }
}

/// What came of waiting for the source. The read and the cancellation
/// signal are awaited together.
#[derive(Debug, PartialEq, Eq)]
pub enum ReadOutcome {
    /// The read filled that many bytes at the front of the buffer; none
    /// means the source has closed.
    Filled(usize),
    /// The read failed.
    Failed(IoFailure),
    /// The other direction has finished and the signal arrived first.
    Cancelled,
}

/// What the wait for the source has come to, if anything yet, given what
/// the read has returned so far and whether the signal has arrived.
pub open spec fn settled(read: Option<Result<usize, IoFailure>>, cancelled: bool) -> Option<
    ReadOutcome,
> {
    match read {
        Some(Ok(n)) => Some(ReadOutcome::Filled(n)),
        Some(Err(failure)) => Some(ReadOutcome::Failed(failure)),
        None => if cancelled {
            Some(ReadOutcome::Cancelled)
        } else {
            None
        },
    }
}

/// Settles the race between the read and the signal. A read that has
/// returned counts, also where the signal has arrived as well, so that
/// bytes which are already there are not thrown away. The signal counts
/// where the read has not returned. With neither, the wait goes on.
pub fn settle(read: Option<Result<usize, IoFailure>>, cancelled: bool) -> (outcome: Option<
    ReadOutcome,
>)
    ensures
        outcome == settled(read, cancelled),
{
    match read {
        Some(Ok(n)) => Some(ReadOutcome::Filled(n)),
        Some(Err(failure)) => Some(ReadOutcome::Failed(failure)),
        None => {
            if cancelled {
                Some(ReadOutcome::Cancelled)
            } else {
                None
            }
        },
    }
}

/// Why a direction failed.
#[derive(Debug, PartialEq, Eq)]
pub enum RelayError {
    /// The source failed with something other than a reset or an abort.
    Read(IoFailure),
    /// The destination did not take a chunk that had already been read.
    Write(IoFailure),
}

/// How a direction ended: the number of bytes it carried, or its error.
pub type RelayResult = Result<usize, RelayError>;

/// What a read outcome means for the direction.
#[derive(Debug, PartialEq, Eq)]
pub enum Verdict {
    /// That many bytes are to be written to the destination.
    Forward(usize),
    /// The direction ends in good order.
    Close,
    /// The direction ends with this failure of the source.
    Fail(IoFailure),
}

/// The meaning of each read outcome: data is forwarded; a closed source, a
/// reset, an abort and a cancellation all end the direction in good order;
/// any other failure is an error.
pub open spec fn verdict_of(outcome: ReadOutcome) -> Verdict {
    match outcome {
        ReadOutcome::Filled(n) => if n == 0 {
            Verdict::Close
        } else {
            Verdict::Forward(n)
        },
        ReadOutcome::Failed(failure) => if failure.benign() {
            Verdict::Close
        } else {
            Verdict::Fail(failure)
        },
        ReadOutcome::Cancelled => Verdict::Close,
    }
}

/// Classifies a read outcome.
pub fn classify(outcome: ReadOutcome) -> (verdict: Verdict)
    ensures
        verdict == verdict_of(outcome),
{
    match outcome {
        ReadOutcome::Filled(n) => {
            if n == 0 {
                Verdict::Close
            } else {
                Verdict::Forward(n)
            }
        },
        ReadOutcome::Failed(failure) => {
            if failure.is_benign() {
                Verdict::Close
            } else {
                Verdict::Fail(failure)
            }
        },
        ReadOutcome::Cancelled => Verdict::Close,
    }
}

/// A direction that is about to wait for its source.
pub struct Relay {
    copied: usize,
    relayed: Ghost<Seq<u8>>,
}

/// A direction that holds a chunk it has read and not yet written.
pub struct Transfer<'a> {
    copied: usize,
    chunk: &'a [u8],
    relayed: Ghost<Seq<u8>>,
}

/// What follows a read.
pub enum AfterRead<'a> {
    /// Write the chunk in full, then report how the write went.
    Write(Transfer<'a>),
    /// The direction has ended.
    Done(RelayResult),
}

/// What follows a write.
pub enum AfterWrite {
    /// Wait for the source again.
    Continue(Relay),
    /// The direction has ended with this error.
    Failed(RelayError),
}

impl Relay {
    /// The bytes carried so far: read from the source and written to the
    /// destination, in the order they were read.
    pub closed spec fn relayed(&self) -> Seq<u8> {
        self.relayed@
    }

    /// The number of bytes carried so far.
    pub closed spec fn count(&self) -> usize {
        self.copied
    }

    /// The count is the length of what was carried.
    pub open spec fn wf(&self) -> bool {
        self.count() == self.relayed().len()
    }

    /// A direction that has carried nothing yet.
    pub fn new() -> (relay: Self)
        ensures
            relay.wf(),
            relay.relayed() == Seq::<u8>::empty(),
            relay.count() == 0,
    {
        Relay { copied: 0, relayed: Ghost(Seq::empty()) }
    }

    #[verifier::when_used_as_spec(count)]
    pub fn copied(&self) -> (n: usize)
        ensures
            n == self.count(),
    {
        self.copied
    }

    /// Decides what follows the outcome of waiting for the source, where
    /// `buf` is the buffer that the read filled from its front.
    ///
    /// Data goes to the destination as it was read. Everything else ends
    /// the direction: with the count so far where the source closed, was
    /// reset or aborted, or the signal arrived; with the failure otherwise.
    pub fn on_read<'a>(self, outcome: ReadOutcome, buf: &'a [u8]) -> (next: AfterRead<'a>)
        requires
            self.wf(),
            outcome matches ReadOutcome::Filled(n) ==> n <= buf@.len(),
        ensures
            match verdict_of(outcome) {
                Verdict::Forward(n) => next matches AfterRead::Write(transfer) && transfer.wf()
                    && transfer.chunk_view() == buf@.subrange(0, n as int)
                    && transfer.relayed() == self.relayed(),
                Verdict::Close => next == AfterRead::Done(Ok(self.count())),
                Verdict::Fail(failure) => next == AfterRead::Done(
                    Err(RelayError::Read(failure)),
                ),
            },
    {
        match classify(outcome) {
            Verdict::Forward(n) => {
                let chunk = slice_subrange(buf, 0, n);
                AfterRead::Write(Transfer { copied: self.copied, chunk, relayed: self.relayed })
            },
            Verdict::Close => AfterRead::Done(Ok(self.copied)),
            Verdict::Fail(failure) => AfterRead::Done(Err(RelayError::Read(failure))),
        }
    }
}

impl<'a> Transfer<'a> {
    /// The bytes carried before this chunk.
    pub closed spec fn relayed(&self) -> Seq<u8> {
        self.relayed@
    }

    /// The number of bytes carried before this chunk.
    pub closed spec fn count(&self) -> usize {
        self.copied
    }

    /// The bytes of the chunk.
    pub closed spec fn chunk_view(&self) -> Seq<u8> {
        self.chunk@
    }

    /// The count is the length of what was carried, and the chunk holds
    /// data.
    pub open spec fn wf(&self) -> bool {
        &&& self.count() == self.relayed().len()
        &&& self.chunk_view().len() > 0
    }

    /// Whether the count has room for the chunk.
    pub open spec fn has_room(&self) -> bool {
        self.count() + self.chunk_view().len() <= usize::MAX
    }

    #[verifier::when_used_as_spec(has_room)]
    pub fn can_count(&self) -> (fits: bool)
        ensures
            fits == self.has_room(),
    {
        self.chunk.len() <= usize::MAX - self.copied
    }

    /// The chunk to write to the destination, all of it.
    pub fn chunk(&self) -> (chunk: &'a [u8])
        ensures
            chunk@ == self.chunk_view(),
    {
        self.chunk
    }

    /// Decides what follows the write of the chunk. A chunk that was
    /// written is counted and the direction reads on; a failed write ends
    /// the direction with that failure, whatever its kind.
    pub fn on_write(self, result: Result<(), IoFailure>) -> (next: AfterWrite)
        requires
            self.wf(),
            result is Ok ==> self.has_room(),
        ensures
            match result {
                Ok(()) => next matches AfterWrite::Continue(relay) && relay.wf()
                    && relay.relayed() == self.relayed() + self.chunk_view()
                    && relay.count() == self.count() + self.chunk_view().len(),
                Err(failure) => next == AfterWrite::Failed(RelayError::Write(failure)),
            },
    {
        match result {
            Ok(()) => {
                let ghost relayed = self.relayed@ + self.chunk@;
                AfterWrite::Continue(
                    Relay { copied: self.copied + self.chunk.len(), relayed: Ghost(relayed) },
                )
            },
            Err(failure) => AfterWrite::Failed(RelayError::Write(failure)),
        }
    }
}

} // verus!
