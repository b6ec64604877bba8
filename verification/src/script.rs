//! A direction run against a script: a source and a destination given as
//! a list of turns. This is the loop that a caller runs on sockets, with
//! nothing left to chance, and the place where what a direction does over
//! its whole life is stated.

use vstd::prelude::*;
use crate::relay::{
    verdict_of, AfterRead, AfterWrite, IoFailure, ReadOutcome, Relay, RelayError, RelayResult,
    Verdict,
};

verus! {

/// One turn of the loop: what the wait for the source comes to, and for
/// data, whether the destination takes it.
#[derive(Debug, PartialEq, Eq)]
pub enum Turn {
    /// The source yields these bytes and the destination takes them.
    /// No bytes: the source has closed.
    Data(Vec<u8>),
    /// The source yields these bytes and the destination fails.
    Rejected(Vec<u8>, IoFailure),
    /// The source fails.
    ReadFailed(IoFailure),
    /// The signal arrives before the source has anything.
    Cancelled,
}

impl Turn {
    /// The bytes that the source yields in this turn.
    pub open spec fn bytes(self) -> Seq<u8> {
        match self {
            Turn::Data(bytes) => bytes@,
            Turn::Rejected(bytes, _) => bytes@,
            _ => Seq::empty(),
        }
    }

    /// What the wait for the source comes to in this turn.
    pub open spec fn outcome(self) -> ReadOutcome {
        match self {
            Turn::Data(bytes) => ReadOutcome::Filled(bytes.len()),
            Turn::Rejected(bytes, _) => ReadOutcome::Filled(bytes.len()),
            Turn::ReadFailed(failure) => ReadOutcome::Failed(failure),
            Turn::Cancelled => ReadOutcome::Cancelled,
        }
    }

    /// The failure with which the destination refuses the bytes of this
    /// turn, if it does.
    pub open spec fn refusal(self) -> Option<IoFailure> {
        match self {
            Turn::Rejected(_, failure) => Some(failure),
            _ => None,
        }
    }

    /// Whether the source yields data in this turn and the destination
    /// takes it.
    pub open spec fn carries(self) -> bool {
        self matches Turn::Data(bytes) && bytes@.len() > 0
    }

    fn read(&self) -> (outcome: ReadOutcome)
        ensures
            outcome == self.outcome(),
    {
        match self {
            Turn::Data(bytes) => ReadOutcome::Filled(bytes.len()),
            Turn::Rejected(bytes, _) => ReadOutcome::Filled(bytes.len()),
            Turn::ReadFailed(failure) => ReadOutcome::Failed(failure.clone()),
            Turn::Cancelled => ReadOutcome::Cancelled,
        }
    }

    fn written(&self) -> (result: Result<(), IoFailure>)
        ensures
            match self.refusal() {
                Some(failure) => result == Err::<(), IoFailure>(failure),
                None => result is Ok,
            },
    {
        match self {
            Turn::Rejected(_, failure) => Err(failure.clone()),
            _ => Ok(()),
        }
    }
}

/// How far a direction has come.
pub enum Ending {
    /// It is still running.
    Open,
    /// It has ended in good order.
    Closed,
    /// It has ended with this error.
    Failed(RelayError),
}

/// A direction at some point of its life.
pub struct Progress {
    /// The bytes written to the destination so far, in order.
    pub relayed: Seq<u8>,
    /// Whether and how the direction has ended.
    pub ending: Ending,
}

impl Progress {
    /// A direction that has done nothing yet.
    pub open spec fn start() -> Progress {
        Progress { relayed: Seq::empty(), ending: Ending::Open }
    }

    /// The direction one turn on. Data that the destination takes is
    /// appended to what was carried. Everything else ends the direction,
    /// and a direction that has ended stays as it is.
    pub open spec fn step(self, turn: Turn) -> Progress {
        if !(self.ending is Open) {
            self
        } else {
            match verdict_of(turn.outcome()) {
                Verdict::Forward(_) => match turn.refusal() {
                    None => Progress { relayed: self.relayed + turn.bytes(), ..self },
                    Some(failure) => Progress {
                        ending: Ending::Failed(RelayError::Write(failure)),
                        ..self
                    },
                },
                Verdict::Close => Progress { ending: Ending::Closed, ..self },
                Verdict::Fail(failure) => Progress {
                    ending: Ending::Failed(RelayError::Read(failure)),
                    ..self
                },
            }
        }
    }

    /// The direction after all of `turns`, taken in order.
    pub open spec fn run(self, turns: Seq<Turn>) -> Progress
        decreases turns.len(),
    {
        if turns.len() == 0 {
            self
        } else {
            self.step(turns[0]).run(turns.skip(1))
        }
    }

    /// Whether `result` is what the direction returns at this point: its
    /// error if it failed, and else the number of bytes it carried.
    pub open spec fn yields(self, result: RelayResult) -> bool {
        match self.ending {
            Ending::Failed(error) => result == Err::<usize, RelayError>(error),
            _ => result matches Ok(count) && count == self.relayed.len(),
        }
    }
}

/// All the bytes that the source yields over `turns`, in order.
pub open spec fn source_bytes(turns: Seq<Turn>) -> Seq<u8>
    decreases turns.len(),
{
    if turns.len() == 0 {
        Seq::empty()
    } else {
        turns[0].bytes() + source_bytes(turns.skip(1))
    }
}

/// A direction that has ended takes no further turn.
pub proof fn lemma_ended_stays(progress: Progress, turns: Seq<Turn>)
    requires
        !(progress.ending is Open),
    ensures
        progress.run(turns) == progress,
    decreases turns.len(),
{
    if turns.len() > 0 {
        lemma_ended_stays(progress, turns.skip(1));
    }
}

/// The number of turns at the head of `turns` in which data passes from
/// the source to the destination.
pub open spec fn carrying_turns(turns: Seq<Turn>) -> nat
    decreases turns.len(),
{
    if turns.len() == 0 || !turns[0].carries() {
        0
    } else {
        1 + carrying_turns(turns.skip(1))
    }
}

/// No more turns carry data than there are.
pub proof fn lemma_carrying_turns_bounded(turns: Seq<Turn>)
    ensures
        carrying_turns(turns) <= turns.len(),
    decreases turns.len(),
{
    if turns.len() > 0 && turns[0].carries() {
        lemma_carrying_turns_bounded(turns.skip(1));
    }
}

/// What arrives at the destination is what the source yielded, byte for
/// byte and in the same order, up to the first turn that ends the
/// direction; nothing is added, dropped or moved.
pub proof fn lemma_carried_in_order(progress: Progress, turns: Seq<Turn>)
    requires
        progress.ending is Open,
    ensures
        carrying_turns(turns) <= turns.len(),
        progress.run(turns).relayed == progress.relayed + source_bytes(
            turns.take(carrying_turns(turns) as int),
        ),
        progress.run(turns).ending is Open <==> carrying_turns(turns) == turns.len(),
    decreases turns.len(),
{
    lemma_carrying_turns_bounded(turns);
    let carried = turns.take(carrying_turns(turns) as int);
    if turns.len() == 0 {
        assert(progress.relayed + source_bytes(carried) =~= progress.relayed);
    } else if !turns[0].carries() {
        lemma_ended_stays(progress.step(turns[0]), turns.skip(1));
        assert(progress.relayed + source_bytes(carried) =~= progress.relayed);
    } else {
        let rest = turns.skip(1);
        let next = progress.step(turns[0]);
        lemma_carried_in_order(next, rest);
        let rest_carried = rest.take(carrying_turns(rest) as int);
        assert(carried[0] == turns[0]);
        assert(carried.skip(1) =~= rest_carried);
        assert(source_bytes(carried) == turns[0].bytes() + source_bytes(rest_carried));
        assert(next.relayed + source_bytes(rest_carried) =~= progress.relayed + source_bytes(
            carried,
        ));
    }
}

/// As long as the source stays open and readable and the destination
/// takes what it is given, every byte that the source yields arrives, in
/// order, and the direction runs on.
pub proof fn lemma_all_data_arrives(progress: Progress, turns: Seq<Turn>)
    requires
        progress.ending is Open,
        forall|i: int| 0 <= i < turns.len() ==> (#[trigger] turns[i]).carries(),
    ensures
        progress.run(turns) == (Progress {
            relayed: progress.relayed + source_bytes(turns),
            ending: Ending::Open,
        }),
    decreases turns.len(),
{
    if turns.len() == 0 {
        assert(progress.relayed + source_bytes(turns) =~= progress.relayed);
    } else {
        let rest = turns.skip(1);
        let next = progress.step(turns[0]);
        assert(turns[0].carries());
        assert forall|i: int| 0 <= i < rest.len() implies (#[trigger] rest[i]).carries() by {
            assert(rest[i] == turns[i + 1]);
        }
        lemma_all_data_arrives(next, rest);
        assert(next.relayed + source_bytes(rest) =~= progress.relayed + source_bytes(turns));
    }
}

/// A direction that finds the signal fired ends there and then, in good
/// order, with what it had carried: it reads and writes nothing more.
pub proof fn lemma_cancel_ends_at_once(progress: Progress, rest: Seq<Turn>)
    requires
        progress.ending is Open,
    ensures
        progress.run(seq![Turn::Cancelled] + rest) == (Progress {
            ending: Ending::Closed,
            ..progress
        }),
{
    let turns = seq![Turn::Cancelled] + rest;
    assert(turns[0] == Turn::Cancelled);
    lemma_ended_stays(progress.step(turns[0]), turns.skip(1));
}

/// A direction whose signal is fired while it is busy with one chunk
/// carries at most that chunk before it ends.
pub proof fn lemma_cancel_after_one_turn(progress: Progress, turn: Turn, rest: Seq<Turn>)
    requires
        progress.ending is Open,
    ensures
        !(progress.run(seq![turn, Turn::Cancelled] + rest).ending is Open),
        progress.run(seq![turn, Turn::Cancelled] + rest) == progress.step(turn).step(
            Turn::Cancelled,
        ),
        progress.run(seq![turn, Turn::Cancelled] + rest).relayed == progress.relayed
            || progress.run(seq![turn, Turn::Cancelled] + rest).relayed == progress.relayed
            + turn.bytes(),
{
    let turns = seq![turn, Turn::Cancelled] + rest;
    assert(turns[0] == turn);
    assert(turns.skip(1)[0] == Turn::Cancelled);
    let tail = turns.skip(1).skip(1);
    assert(progress.run(turns) == progress.step(turn).run(turns.skip(1)));
    assert(progress.step(turn).run(turns.skip(1)) == progress.step(turn).step(
        Turn::Cancelled,
    ).run(tail));
    lemma_ended_stays(progress.step(turn).step(Turn::Cancelled), tail);
}

/// A direction fails only where its source fails with something other
/// than a reset or an abort, or where its destination fails: a source
/// that is reset or aborted never makes an error.
pub proof fn lemma_reset_is_no_error(progress: Progress, turns: Seq<Turn>)
    requires
        !(progress.ending is Failed),
        forall|i: int|
            0 <= i < turns.len() ==> ((#[trigger] turns[i]) matches Turn::ReadFailed(failure)
                ==> failure.benign()),
        forall|i: int| 0 <= i < turns.len() ==> !((#[trigger] turns[i]) is Rejected),
    ensures
        !(progress.run(turns).ending is Failed),
    decreases turns.len(),
{
    if turns.len() > 0 {
        let rest = turns.skip(1);
        assert(!(turns[0] is Rejected));
        assert(turns[0] matches Turn::ReadFailed(failure) ==> failure.benign());
        assert forall|i: int| 0 <= i < rest.len() implies ((#[trigger] rest[i]) matches Turn::ReadFailed(
            failure,
        ) ==> failure.benign()) by {
            assert(rest[i] == turns[i + 1]);
        }
        assert forall|i: int| 0 <= i < rest.len() implies !((#[trigger] rest[i]) is Rejected) by {
            assert(rest[i] == turns[i + 1]);
        }
        lemma_reset_is_no_error(progress.step(turns[0]), rest);
    }
}

/// Runs one direction from a source to `sink`, turn by turn, until a turn
/// ends it or the script runs out, which counts as a source that has
/// closed. Returns what the direction returns.
pub fn copy_with_abort(turns: &Vec<Turn>, sink: &mut Vec<u8>) -> (result: RelayResult)
    ensures
        final(sink)@ == old(sink)@ + Progress::start().run(turns@).relayed,
        Progress::start().run(turns@).yields(result),
{
    let empty: Vec<u8> = Vec::new();
    let mut relay = Relay::new();
    let mut i: usize = 0;
    assert(turns@.skip(0) =~= turns@);
    assert(sink@ =~= old(sink)@ + relay.relayed());
    while i < turns.len()
        invariant
            i <= turns@.len(),
            relay.wf(),
            sink@ == old(sink)@ + relay.relayed(),
            Progress::start().run(turns@) == (Progress {
                relayed: relay.relayed(),
                ending: Ending::Open,
            }).run(turns@.skip(i as int)),
        decreases turns@.len() - i,
    {
        let ghost here = Progress { relayed: relay.relayed(), ending: Ending::Open };
        let ghost rest = turns@.skip(i as int);
        proof {
            assert(rest[0] == turns@[i as int]);
            assert(rest.skip(1) =~= turns@.skip(i + 1));
            assert(here.run(rest) == here.step(rest[0]).run(rest.skip(1)));
        }
        let turn = &turns[i];
        let buf: &[u8] = match turn {
            Turn::Data(bytes) => bytes.as_slice(),
            Turn::Rejected(bytes, _) => bytes.as_slice(),
            _ => empty.as_slice(),
        };
        match relay.on_read(turn.read(), buf) {
            AfterRead::Done(result) => {
                proof {
                    lemma_ended_stays(here.step(*turn), rest.skip(1));
                }
                return result;
            },
            AfterRead::Write(transfer) => {
                assert(transfer.chunk_view() =~= turn.bytes());
                let written = turn.written();
                if written.is_ok() {
                    sink.extend_from_slice(transfer.chunk());
                    let filled = sink.len();
                    assert(sink@ =~= old(sink)@ + (transfer.relayed() + turn.bytes()));
                }
                relay = match transfer.on_write(written) {
                    AfterWrite::Continue(next) => next,
                    AfterWrite::Failed(error) => {
                        proof {
                            lemma_ended_stays(here.step(*turn), rest.skip(1));
                        }
                        return Err(error);
                    },
                };
            },
        }
        i = i + 1;
    }
    Ok(relay.copied())
}

} // verus!
