//! One mailbox transfer as a state machine.
//!
//! The driver asks a [`Transfer`] for the next [`Action`], performs it on the
//! registers, and hands the word it obtained to [`Transfer::step`]. It goes on
//! until the action is [`Action::Done`].

use vstd::prelude::*;
use crate::mailbox::{
    doorbell_word, is_reply_for, poll, read_empty, response_result, spec_doorbell_word,
    spec_is_reply_for, spec_poll, spec_read_empty, spec_response_result, spec_write_full,
    write_full, MboxError, CHANNEL_MASK, POLL_LIMIT,
};

verus! {

/// What the driver has to do next.
#[derive(Clone, Copy, Debug, PartialEq, Eq)]
pub enum Action {
    /// Load the status register and hand the word to the transfer.
    ReadStatus,
    /// Issue a full data memory barrier. The word handed back is ignored.
    Barrier,
    /// Store the word in the write register. The word handed back is ignored.
    WriteDoorbell(u32),
    /// Load the read register and hand the word to the transfer.
    ReadData,
    /// Load the response code, the second word of the message buffer, and
    /// hand it to the transfer.
    ReadCode,
    /// Nothing: the transfer is over, with this result.
    Done(Result<(), MboxError>),
}

/// Where a transfer stands.
#[derive(Clone, Copy, Debug, PartialEq, Eq)]
pub enum Stage {
    /// Waiting for room in the write mailbox.
    WritePoll,
    /// Room was found; the barrier before the doorbell is due.
    WriteBarrier,
    /// The barrier was issued; the doorbell is due.
    WriteStore,
    /// Waiting for a word in the read mailbox.
    ReadPoll,
    /// A word is there; the barrier before the load is due.
    ReadBarrier,
    /// The load of the read register is due.
    ReadLoad,
    /// A word was loaded; the barrier after the load is due.
    ReadSettle,
    /// The reply was for this transfer; its response code is due.
    ReadCode,
    /// The transfer is over.
    Finished,
}

/// The state of one transfer.
#[derive(Clone, Copy, Debug, PartialEq, Eq)]
pub struct Transfer {
    /// Where the transfer stands.
    pub stage: Stage,
    /// The channel of the transfer.
    pub channel: u32,
    /// The address of the message buffer.
    pub address: u32,
    /// Failed polls so far in the current direction.
    pub polls: u32,
    /// Whether the reply is to be read once the doorbell is written.
    pub then_read: bool,
    /// The last word loaded from the read register.
    pub data: u32,
    /// The reply that was accepted for this transfer, once there is one.
    pub reply: Option<u32>,
    /// The result, once the transfer is over.
    pub outcome: Result<(), MboxError>,
}

impl Transfer {
    /// The start of a transfer that only writes the doorbell.
    pub open spec fn spec_write(channel: u32, address: u32) -> Transfer {
        Transfer {
            stage: Stage::WritePoll,
            channel,
            address,
            polls: 0,
            then_read: false,
            data: 0,
            reply: None,
            outcome: Ok(()),
        }
    }

    /// The start of a transfer that only waits for the reply.
    pub open spec fn spec_read(channel: u32, address: u32) -> Transfer {
        Transfer { stage: Stage::ReadPoll, ..Transfer::spec_write(channel, address) }
    }

    /// The start of a transfer that writes the doorbell and waits for the
    /// reply.
    pub open spec fn spec_call(channel: u32, address: u32) -> Transfer {
        Transfer { then_read: true, ..Transfer::spec_write(channel, address) }
    }

    /// The transfer, over with `outcome`.
    pub open spec fn finished(self, outcome: Result<(), MboxError>) -> Transfer {
        Transfer { stage: Stage::Finished, outcome, ..self }
    }

    /// The transfer after one more failed poll: it goes on while the polls
    /// so far are under the limit, and times out otherwise.
    pub open spec fn retried(self) -> Transfer {
        match spec_poll(self.polls, POLL_LIMIT) {
            Ok(polls) => Transfer { polls, ..self },
            Err(e) => self.finished(Err(e)),
        }
    }

    /// The action that is due in this state.
    pub open spec fn spec_action(self) -> Action {
        match self.stage {
            Stage::WritePoll => Action::ReadStatus,
            Stage::WriteBarrier => Action::Barrier,
            Stage::WriteStore => Action::WriteDoorbell(
                spec_doorbell_word(self.channel, self.address),
            ),
            Stage::ReadPoll => Action::ReadStatus,
            Stage::ReadBarrier => Action::Barrier,
            Stage::ReadLoad => Action::ReadData,
            Stage::ReadSettle => Action::Barrier,
            Stage::ReadCode => Action::ReadCode,
            Stage::Finished => Action::Done(self.outcome),
        }
    }

    /// The state after the due action was performed and produced `word`.
    pub open spec fn spec_step(self, word: u32) -> Transfer {
        match self.stage {
            Stage::WritePoll => if spec_write_full(word) {
                self.retried()
            } else {
                Transfer { stage: Stage::WriteBarrier, ..self }
            },
            Stage::WriteBarrier => Transfer { stage: Stage::WriteStore, ..self },
            Stage::WriteStore => if self.then_read {
                Transfer { stage: Stage::ReadPoll, polls: 0, then_read: false, ..self }
            } else {
                self.finished(Ok(()))
            },
            Stage::ReadPoll => if spec_read_empty(word) {
                self.retried()
            } else {
                Transfer { stage: Stage::ReadBarrier, ..self }
            },
            Stage::ReadBarrier => Transfer { stage: Stage::ReadLoad, ..self },
            Stage::ReadLoad => Transfer { stage: Stage::ReadSettle, data: word, ..self },
            Stage::ReadSettle => if spec_is_reply_for(self.data, self.channel, self.address) {
                Transfer { stage: Stage::ReadCode, reply: Some(self.data), ..self }
            } else {
                Transfer { stage: Stage::ReadPoll, ..self }
            },
            Stage::ReadCode => self.finished(spec_response_result(word)),
            Stage::Finished => self,
        }
    }

    /// The state after the actions that were due in turn produced `words`.
    pub open spec fn run(self, words: Seq<u32>) -> Transfer
        decreases words.len(),
    {
        if words.len() == 0 {
            self
        } else {
            self.run(words.drop_last()).spec_step(words.last())
        }
    }

    /// Whether the transfer is over.
    pub open spec fn is_finished(self) -> bool {
        self.stage == Stage::Finished
    }

    /// The action that is due.
    pub fn action(&self) -> (action: Action)
        ensures
            action == self.spec_action(),
    {
        match self.stage {
            Stage::WritePoll => Action::ReadStatus,
            Stage::WriteBarrier => Action::Barrier,
            Stage::WriteStore => Action::WriteDoorbell(doorbell_word(self.channel, self.address)),
            Stage::ReadPoll => Action::ReadStatus,
            Stage::ReadBarrier => Action::Barrier,
            Stage::ReadLoad => Action::ReadData,
            Stage::ReadSettle => Action::Barrier,
            Stage::ReadCode => Action::ReadCode,
            Stage::Finished => Action::Done(self.outcome),
        }
    }

    /// Counts one more failed poll.
    fn retry(self) -> (next: Transfer)
        ensures
            next == self.retried(),
    {
        match poll(self.polls, POLL_LIMIT) {
            Ok(polls) => Transfer { polls, ..self },
            Err(e) => self.finish(Err(e)),
        }
    }

    /// Ends the transfer.
    fn finish(self, outcome: Result<(), MboxError>) -> (next: Transfer)
        ensures
            next == self.finished(outcome),
    {
        Transfer { stage: Stage::Finished, outcome, ..self }
    }

    /// Takes the word that the due action produced and moves on.
    pub fn step(self, word: u32) -> (next: Transfer)
        ensures
            next == self.spec_step(word),
    {
        match self.stage {
            Stage::WritePoll => {
                if write_full(word) {
                    self.retry()
                } else {
                    Transfer { stage: Stage::WriteBarrier, ..self }
                }
            },
            Stage::WriteBarrier => Transfer { stage: Stage::WriteStore, ..self },
            Stage::WriteStore => {
                if self.then_read {
                    Transfer { stage: Stage::ReadPoll, polls: 0, then_read: false, ..self }
                } else {
                    self.finish(Ok(()))
                }
            },
            Stage::ReadPoll => {
                if read_empty(word) {
                    self.retry()
                } else {
                    Transfer { stage: Stage::ReadBarrier, ..self }
                }
            },
            Stage::ReadBarrier => Transfer { stage: Stage::ReadLoad, ..self },
            Stage::ReadLoad => Transfer { stage: Stage::ReadSettle, data: word, ..self },
            Stage::ReadSettle => {
                if is_reply_for(self.data, self.channel, self.address) {
                    Transfer { stage: Stage::ReadCode, reply: Some(self.data), ..self }
                } else {
                    Transfer { stage: Stage::ReadPoll, ..self }
                }
            },
            Stage::ReadCode => self.finish(response_result(word)),
            Stage::Finished => self,
        }
    }

    /// The result of the transfer, once it is over.
    pub fn result(&self) -> (result: Option<Result<(), MboxError>>)
        ensures
            result == (if self.is_finished() {
                Some(self.outcome)
            } else {
                None
            }),
    {
        match self.stage {
            Stage::Finished => Some(self.outcome),
            _ => None,
        }
    }
}

/// Whether a stage belongs to the writing of the doorbell.
pub open spec fn is_write_stage(stage: Stage) -> bool {
    stage == Stage::WritePoll || stage == Stage::WriteBarrier || stage == Stage::WriteStore
}

/// What holds of every state of a transfer that is to read a reply: while it
/// still writes, the read is still to come; the reply it has accepted, if
/// any, is for its channel and buffer; and it does not ask for the response
/// code, nor end without a timeout, before it has accepted one.
pub open spec fn reads_sound(t: Transfer) -> bool {
    &&& is_write_stage(t.stage) ==> t.then_read
    &&& t.reply matches Some(d) ==> spec_is_reply_for(d, t.channel, t.address)
    &&& t.stage == Stage::ReadCode ==> t.reply is Some
    &&& t.is_finished() && t.outcome != Err::<(), MboxError>(MboxError::Timeout) ==> t.reply is Some
}

/// Running on one run of words and then on another is running on both.
pub proof fn lemma_run_concat(t: Transfer, first: Seq<u32>, second: Seq<u32>)
    ensures
        t.run(first + second) == t.run(first).run(second),
    decreases second.len(),
{
    if second.len() == 0 {
        assert(first + second =~= first);
    } else {
        lemma_run_concat(t, first, second.drop_last());
        assert((first + second).drop_last() =~= first + second.drop_last());
        assert((first + second).last() == second.last());
    }
}

/// A transfer never changes its channel or the address of its buffer, and
/// the count of failed polls never passes the limit.
pub proof fn lemma_run_keeps_target(t: Transfer, words: Seq<u32>)
    requires
        t.polls <= POLL_LIMIT,
    ensures
        t.run(words).channel == t.channel,
        t.run(words).address == t.address,
        t.run(words).polls <= POLL_LIMIT,
    decreases words.len(),
{
    if words.len() > 0 {
        lemma_run_keeps_target(t, words.drop_last());
    }
}

/// A transfer that is over stays as it is, whatever words follow.
pub proof fn lemma_finished_stays(t: Transfer, words: Seq<u32>)
    requires
        t.is_finished(),
    ensures
        t.run(words) == t,
    decreases words.len(),
{
    if words.len() > 0 {
        lemma_finished_stays(t, words.drop_last());
    }
}

/// The doorbell is written right after a barrier and at no other time, and
/// the word written is the doorbell word of the transfer: whenever the
/// action due is the store to the write register, at least one action came
/// before it, the last of them was a barrier, and the word stored is the
/// buffer's address with the channel in its low four bits.
pub proof fn lemma_doorbell_follows_barrier(start: Transfer, words: Seq<u32>)
    requires
        start.stage != Stage::WriteStore,
        start.polls <= POLL_LIMIT,
    ensures
        start.run(words).spec_action() matches Action::WriteDoorbell(w) ==> {
            &&& words.len() > 0
            &&& start.run(words.drop_last()).spec_action() == Action::Barrier
            &&& w == spec_doorbell_word(start.channel, start.address)
        },
{
    if words.len() > 0 {
        lemma_run_keeps_target(start, words);
    }
}

/// Every state of a transfer that started as a read or as a call is sound
/// in the sense of [`reads_sound`]. So the reply that such a transfer
/// accepts has the requested channel in its low four bits and the buffer's
/// address in the rest, and the transfer has accepted one whenever it ends
/// with anything but a timeout: words for other channels or other buffers
/// are passed over.
pub proof fn lemma_reply_is_for_transfer(channel: u32, address: u32, with_write: bool, words: Seq<u32>)
    ensures
        ({
            let start = if with_write {
                Transfer::spec_call(channel, address)
            } else {
                Transfer::spec_read(channel, address)
            };
            let t = start.run(words);
            &&& reads_sound(t)
            &&& t.channel == channel
            &&& t.address == address
            &&& t.reply matches Some(d) ==> d & CHANNEL_MASK == channel
        }),
    decreases words.len(),
{
    if words.len() > 0 {
        lemma_reply_is_for_transfer(channel, address, with_write, words.drop_last());
    }
}

/// A word that is not for the transfer is passed over: after the barrier
/// that follows its load the transfer polls again, and no reply is accepted.
pub proof fn lemma_foreign_reply_skipped(t: Transfer, data: u32, ack: u32)
    requires
        t.stage == Stage::ReadLoad,
        !spec_is_reply_for(data, t.channel, t.address),
    ensures
        t.spec_step(data).spec_step(ack) == (Transfer { stage: Stage::ReadPoll, data, ..t }),
{
}

/// While the write of a call is under way, the call does what the write
/// alone does: the same action is due after the same words. That goes on if
/// the write fails: the call is then over with the same error, and no
/// action of a read ever becomes due.
pub proof fn lemma_call_follows_write(channel: u32, address: u32, words: Seq<u32>)
    ensures
        ({
            let w = Transfer::spec_write(channel, address).run(words);
            let c = Transfer::spec_call(channel, address).run(words);
            !w.is_finished() || w.outcome is Err ==> {
                &&& c == Transfer { then_read: true, ..w }
                &&& c.spec_action() == w.spec_action()
            }
        }),
        ({
            let w = Transfer::spec_write(channel, address).run(words);
            w.is_finished() ==> (w.outcome == Ok::<(), MboxError>(()) || w.outcome == Err::<
                (),
                MboxError,
            >(MboxError::Timeout))
        }),
    decreases words.len(),
{
    if words.len() > 0 {
        lemma_call_follows_write(channel, address, words.drop_last());
        lemma_write_stays_writing(channel, address, words.drop_last());
    }
}

/// A transfer that only writes is, in every state, either still writing or
/// over; it never reads, and on the way it has no result but the initial one.
pub proof fn lemma_write_stays_writing(channel: u32, address: u32, words: Seq<u32>)
    ensures
        ({
            let w = Transfer::spec_write(channel, address).run(words);
            &&& is_write_stage(w.stage) || w.is_finished()
            &&& !w.then_read
            &&& w.reply is None
            &&& w.data == 0
            &&& !w.is_finished() ==> w.outcome == Ok::<(), MboxError>(())
        }),
    decreases words.len(),
{
    if words.len() > 0 {
        lemma_write_stays_writing(channel, address, words.drop_last());
    }
}

/// A call is a write followed by a read. If the write alone is over after
/// `words`, and not before, then: where it succeeded, the call stands after
/// `words` where a read starts, and goes on as the read does on the words
/// that follow; where it failed, the call is over with the write's error
/// whatever follows.
pub proof fn lemma_call_is_write_then_read(
    channel: u32,
    address: u32,
    words: Seq<u32>,
    more: Seq<u32>,
)
    requires
        words.len() > 0,
        Transfer::spec_write(channel, address).run(words).is_finished(),
        !Transfer::spec_write(channel, address).run(words.drop_last()).is_finished(),
    ensures
        ({
            let w = Transfer::spec_write(channel, address).run(words);
            let c = Transfer::spec_call(channel, address).run(words + more);
            &&& w.outcome is Ok ==> c == Transfer::spec_read(channel, address).run(more)
            &&& w.outcome is Err ==> c.is_finished() && c.outcome == w.outcome
        }),
{
    let write = Transfer::spec_write(channel, address);
    let call = Transfer::spec_call(channel, address);
    lemma_run_concat(call, words, more);
    lemma_call_follows_write(channel, address, words.drop_last());
    lemma_call_follows_write(channel, address, words);
    lemma_write_stays_writing(channel, address, words.drop_last());
    lemma_run_keeps_target(write, words.drop_last());
    let w0 = write.run(words.drop_last());
    let c0 = call.run(words.drop_last());
    assert(c0 == Transfer { then_read: true, ..w0 });
    if write.run(words).outcome is Ok {
        assert(w0.stage == Stage::WriteStore);
        assert(call.run(words) == Transfer::spec_read(channel, address));
    } else {
        lemma_finished_stays(call.run(words), more);
    }
}

/// The state of a transfer that has seen `n` failed polls since it began to
/// poll.
pub open spec fn after_polls(start: Transfer, n: nat) -> Transfer {
    Transfer { polls: n as u32, ..start }
}

/// Polling is bounded. A transfer that begins to poll and meets a busy
/// register every time goes on polling for as many failed polls as the limit
/// allows, and the next failed poll ends it with a timeout: a write that
/// always finds the mailbox full, a read that always finds it empty.
pub proof fn lemma_busy_register_times_out(start: Transfer, words: Seq<u32>)
    requires
        start.polls == 0,
        start.stage == Stage::WritePoll || start.stage == Stage::ReadPoll,
        start.stage == Stage::WritePoll ==> forall|i: int|
            0 <= i < words.len() ==> spec_write_full(#[trigger] words[i]),
        start.stage == Stage::ReadPoll ==> forall|i: int|
            0 <= i < words.len() ==> spec_read_empty(#[trigger] words[i]),
    ensures
        words.len() <= POLL_LIMIT ==> start.run(words) == after_polls(start, words.len()),
        words.len() > POLL_LIMIT ==> start.run(words) == after_polls(
            start,
            POLL_LIMIT as nat,
        ).finished(Err(MboxError::Timeout)),
    decreases words.len(),
{
    if words.len() > 0 {
        let front = words.drop_last();
        assert forall|i: int| 0 <= i < front.len() implies front[i] == words[i] by {}
        lemma_busy_register_times_out(start, front);
        assert(words.last() == words[words.len() - 1]);
    }
}

/// Running on a run of words with one more word at its end is running on the
/// run and taking one more step.
pub proof fn lemma_run_push(t: Transfer, words: Seq<u32>, word: u32)
    ensures
        t.run(words.push(word)) == t.run(words).spec_step(word),
{
    assert(words.push(word).drop_last() =~= words);
}

/// For a channel of four bits and an address aligned to 16 bytes, the
/// doorbell word is the address with the channel in its low four bits: their
/// sum. The channel and the address can be read back from it, so the word is
/// the reply to itself.
pub proof fn lemma_doorbell_word(channel: u32, address: u32)
    requires
        channel <= CHANNEL_MASK,
        address % 16 == 0,
    ensures
        spec_doorbell_word(channel, address) == (address & !CHANNEL_MASK) | channel,
        spec_doorbell_word(channel, address) == address + channel,
        spec_is_reply_for(spec_doorbell_word(channel, address), channel, address),
{
    assert(channel <= 0xfu32 && address % 16 == 0 ==> {
        &&& ((address & !0xfu32) | (channel & 0xfu32)) == (address & !0xfu32) | channel
        &&& ((address & !0xfu32) | (channel & 0xfu32)) == address + channel
        &&& ((address & !0xfu32) | (channel & 0xfu32)) & 0xfu32 == channel
        &&& ((address & !0xfu32) | (channel & 0xfu32)) & !0xfu32 == address
    }) by (bit_vector);
}

/// A write, alone or as the first part of a call, stores nothing in the
/// write register but the doorbell word of its channel and buffer, and
/// stores it only right after a barrier: whenever the store is due, the
/// action before it was the barrier.
pub proof fn lemma_write_announces_after_barrier(
    channel: u32,
    address: u32,
    with_read: bool,
    words: Seq<u32>,
)
    ensures
        ({
            let start = if with_read {
                Transfer::spec_call(channel, address)
            } else {
                Transfer::spec_write(channel, address)
            };
            start.run(words).spec_action() matches Action::WriteDoorbell(w) ==> {
                &&& words.len() > 0
                &&& start.run(words.drop_last()).spec_action() == Action::Barrier
                &&& w == spec_doorbell_word(channel, address)
            }
        }),
{
    let start = if with_read {
        Transfer::spec_call(channel, address)
    } else {
        Transfer::spec_write(channel, address)
    };
    lemma_doorbell_follows_barrier(start, words);
}

/// The read register is loaded between two barriers: whenever the load is
/// due in a read or a call, the action before it was a barrier, and the
/// action after it is a barrier, whatever word the load produces.
pub proof fn lemma_load_between_barriers(
    channel: u32,
    address: u32,
    with_write: bool,
    words: Seq<u32>,
    data: u32,
)
    ensures
        ({
            let start = if with_write {
                Transfer::spec_call(channel, address)
            } else {
                Transfer::spec_read(channel, address)
            };
            start.run(words).spec_action() == Action::ReadData ==> {
                &&& words.len() > 0
                &&& start.run(words.drop_last()).spec_action() == Action::Barrier
                &&& start.run(words.push(data)).spec_action() == Action::Barrier
            }
        }),
{
    let start = if with_write {
        Transfer::spec_call(channel, address)
    } else {
        Transfer::spec_read(channel, address)
    };
    lemma_run_push(start, words, data);
}

/// A write succeeds as soon as the mailbox has room. If the status register
/// reports a full mailbox for no more polls than are tolerated and then
/// reports room, the barrier is due, then the store of the doorbell word, and
/// then the write is over with success.
pub proof fn lemma_write_completes(
    channel: u32,
    address: u32,
    busy: Seq<u32>,
    free: u32,
    first_ack: u32,
    second_ack: u32,
)
    requires
        busy.len() <= POLL_LIMIT,
        forall|i: int| 0 <= i < busy.len() ==> spec_write_full(#[trigger] busy[i]),
        !spec_write_full(free),
    ensures
        ({
            let start = Transfer::spec_write(channel, address);
            let found = start.run(busy.push(free));
            let fenced = start.run(busy.push(free).push(first_ack));
            let end = start.run(busy.push(free).push(first_ack).push(second_ack));
            &&& start.run(busy).spec_action() == Action::ReadStatus
            &&& found.spec_action() == Action::Barrier
            &&& fenced.spec_action() == Action::WriteDoorbell(
                spec_doorbell_word(channel, address),
            )
            &&& end.spec_action() == Action::Done(Ok(()))
        }),
{
    let start = Transfer::spec_write(channel, address);
    lemma_busy_register_times_out(start, busy);
    lemma_run_push(start, busy, free);
    lemma_run_push(start, busy.push(free), first_ack);
    lemma_run_push(start, busy.push(free).push(first_ack), second_ack);
}

/// A read succeeds as soon as its reply is there. If the status register
/// reports an empty mailbox for no more polls than are tolerated and then
/// reports a word, and the word loaded is the reply for the channel and the
/// buffer, the read accepts it and ends with what the response code says.
pub proof fn lemma_read_completes(
    channel: u32,
    address: u32,
    idle: Seq<u32>,
    ready: u32,
    data: u32,
    code: u32,
    first_ack: u32,
    second_ack: u32,
)
    requires
        idle.len() <= POLL_LIMIT,
        forall|i: int| 0 <= i < idle.len() ==> spec_read_empty(#[trigger] idle[i]),
        !spec_read_empty(ready),
        spec_is_reply_for(data, channel, address),
    ensures
        ({
            let start = Transfer::spec_read(channel, address);
            let words = idle.push(ready).push(first_ack).push(data).push(second_ack).push(code);
            let end = start.run(words);
            &&& end.is_finished()
            &&& end.outcome == spec_response_result(code)
            &&& end.reply == Some(data)
            &&& end.spec_action() == Action::Done(spec_response_result(code))
        }),
{
    let start = Transfer::spec_read(channel, address);
    lemma_busy_register_times_out(start, idle);
    let w1 = idle.push(ready);
    let w2 = w1.push(first_ack);
    let w3 = w2.push(data);
    let w4 = w3.push(second_ack);
    lemma_run_push(start, idle, ready);
    lemma_run_push(start, w1, first_ack);
    lemma_run_push(start, w2, data);
    lemma_run_push(start, w3, second_ack);
    lemma_run_push(start, w4, code);
}

} // verus!
