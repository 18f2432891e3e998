//! Delivery of one message to many chats.
//!
//! The machine here decides the order of the work: which chat is next, and
//! when to rest so that the messaging service is not flooded. The caller
//! performs each step and reports how each send went. A failed send is
//! recorded and changes nothing about the steps that follow.

use vstd::prelude::*;

verus! {

/// After this many sends the fan-out rests.
pub const BATCH_SIZE: usize = 25;

/// How long the fan-out rests between two batches, in milliseconds.
pub const PAUSE_MILLIS: u64 = 1000;

/// What the caller has to do next.
#[derive(Clone, Copy, Debug, PartialEq, Eq, Structural)]
pub enum FanoutStep {
    /// Send the body to this chat.
    Send { recipient: i64 },
    /// Wait before going on.
    Pause { millis: u64 },
    /// Every chat has had its send.
    Finished,
}

/// The state of a fan-out as contracts see it.
pub struct FanoutView {
    pub body: Seq<char>,
    pub recipients: Seq<i64>,
    /// How many of the recipients have had their send.
    pub dispatched: nat,
    /// Whether the rest that is due before the next send has been taken.
    pub rested: bool,
    /// The chats whose send was reported as failed, in the order of the
    /// reports.
    pub failed: Seq<i64>,
}

/// One message on its way to a list of chats.
#[derive(Debug)]
pub struct Fanout {
    body: String,
    recipients: Vec<i64>,
    dispatched: usize,
    rested: bool,
    failed: Vec<i64>,
}

impl View for Fanout {
    type V = FanoutView;

    closed spec fn view(&self) -> FanoutView {
        FanoutView {
            body: self.body@,
            recipients: self.recipients@,
            dispatched: self.dispatched as nat,
            rested: self.rested,
            failed: self.failed@,
        }
    }
}

/// Whether a rest is due before the send that follows `dispatched` sends.
pub open spec fn rest_due(state: FanoutView) -> bool {
    state.dispatched > 0 && state.dispatched % (BATCH_SIZE as nat) == 0 && !state.rested
}

/// The step that a fan-out in this state asks for.
pub open spec fn step_of(state: FanoutView) -> FanoutStep {
    if state.dispatched >= state.recipients.len() {
        FanoutStep::Finished
    } else if rest_due(state) {
        FanoutStep::Pause { millis: PAUSE_MILLIS }
    } else {
        FanoutStep::Send { recipient: state.recipients[state.dispatched as int] }
    }
}

/// The state once that step has been handed out.
pub open spec fn after_step(state: FanoutView) -> FanoutView {
    if state.dispatched >= state.recipients.len() {
        state
    } else if rest_due(state) {
        FanoutView { rested: true, ..state }
    } else {
        FanoutView { dispatched: state.dispatched + 1, rested: false, ..state }
    }
}

/// The state once the result of a send has been reported.
pub open spec fn after_report(state: FanoutView, recipient: i64, delivered: bool) -> FanoutView {
    if delivered {
        state
    } else {
        FanoutView { failed: state.failed.push(recipient), ..state }
    }
}

/// The chats that get a send from this state on, in the order of the sends,
/// when the machine is run until it has finished.
pub open spec fn sends_from(state: FanoutView) -> Seq<i64>
    decreases state.recipients.len() - state.dispatched, if state.rested { 0nat } else { 1nat },
{
    if state.dispatched >= state.recipients.len() {
        Seq::empty()
    } else if rest_due(state) {
        sends_from(after_step(state))
    } else {
        seq![state.recipients[state.dispatched as int]] + sends_from(after_step(state))
    }
}

/// The rests that the machine asks for from this state on.
pub open spec fn pauses_from(state: FanoutView) -> nat
    decreases state.recipients.len() - state.dispatched, if state.rested { 0nat } else { 1nat },
{
    if state.dispatched >= state.recipients.len() {
        0
    } else if rest_due(state) {
        1 + pauses_from(after_step(state))
    } else {
        pauses_from(after_step(state))
    }
}

/// The full batches that lie before the send with the number `upto`,
/// counted from the send with the number `from`: the rests that fall
/// between these sends.
pub open spec fn batches_between(from: nat, upto: nat) -> int {
    if from >= upto {
        0
    } else if from == 0 {
        (upto - 1) / (BATCH_SIZE as int)
    } else {
        (upto - 1) / (BATCH_SIZE as int) - (from - 1) / (BATCH_SIZE as int)
    }
}

/// From any state the machine rests once for each full batch that lies
/// before a send still to come; the rest that it has just taken is not
/// taken again.
pub proof fn lemma_pauses_from(state: FanoutView)
    requires
        state.dispatched <= state.recipients.len(),
    ensures
        pauses_from(state) == batches_between(state.dispatched, state.recipients.len()) - if state.dispatched
            < state.recipients.len() && state.dispatched > 0 && state.dispatched % (
        BATCH_SIZE as nat) == 0 && state.rested {
            1int
        } else {
            0int
        },
    decreases state.recipients.len() - state.dispatched, if state.rested { 0nat } else { 1nat },
{
    if state.dispatched < state.recipients.len() {
        lemma_pauses_from(after_step(state));
    }
}

/// A fan-out to a number of chats rests once after each full batch of
/// sends behind which a chat is still waiting: to no chat and to one
/// batch not at all, to twenty-six chats once.
pub proof fn law_one_rest_per_batch(body: Seq<char>, recipients: Seq<i64>)
    ensures
        pauses_from(
            FanoutView { body, recipients, dispatched: 0, rested: false, failed: Seq::empty() },
        ) == if recipients.len() == 0 {
            0int
        } else {
            (recipients.len() - 1) / (BATCH_SIZE as int)
        },
{
    lemma_pauses_from(
        FanoutView { body, recipients, dispatched: 0, rested: false, failed: Seq::empty() },
    );
}

/// Run to its end, the machine sends to each chat that has not had its
/// send, once and in order.
pub proof fn law_every_recipient_is_served(state: FanoutView)
    requires
        state.dispatched <= state.recipients.len(),
    ensures
        sends_from(state) == state.recipients.skip(state.dispatched as int),
    decreases state.recipients.len() - state.dispatched, if state.rested { 0nat } else { 1nat },
{
    if state.dispatched < state.recipients.len() {
        law_every_recipient_is_served(after_step(state));
        if !rest_due(state) {
            assert(seq![state.recipients[state.dispatched as int]] + state.recipients.skip(
                state.dispatched as int + 1,
            ) =~= state.recipients.skip(state.dispatched as int));
        }
    } else {
        assert(state.recipients.skip(state.dispatched as int) =~= Seq::<i64>::empty());
    }
}

/// A failed send does not touch the sends that are still to come: whatever
/// is reported about one chat, every other chat gets its send.
pub proof fn law_failures_are_isolated(state: FanoutView, recipient: i64, delivered: bool)
    requires
        state.dispatched <= state.recipients.len(),
    ensures
        step_of(after_report(state, recipient, delivered)) == step_of(state),
        sends_from(after_report(state, recipient, delivered)) == state.recipients.skip(
            state.dispatched as int,
        ),
{
    law_every_recipient_is_served(after_report(state, recipient, delivered));
}

impl Fanout {
    /// The invariant of the machine: it never counts more sends than it has
    /// recipients.
    pub open spec fn wf(&self) -> bool {
        self@.dispatched <= self@.recipients.len()
    }

    /// A fan-out of `body` to `recipients` that has not sent anything yet.
    pub fn new(body: String, recipients: Vec<i64>) -> (fanout: Fanout)
        ensures
            fanout@ == (FanoutView {
                body: body@,
                recipients: recipients@,
                dispatched: 0,
                rested: false,
                failed: Seq::empty(),
            }),
            fanout.wf(),
    {
        Fanout { body, recipients, dispatched: 0, rested: false, failed: Vec::new() }
    }

    /// The text that every chat is sent.
    pub fn body(&self) -> (body: &String)
        ensures
            body@ == self@.body,
    {
        &self.body
    }

    /// How many chats have had their send.
    pub fn dispatched(&self) -> (count: usize)
        ensures
            count == self@.dispatched,
    {
        self.dispatched
    }

    /// How many chats are still waiting for their send.
    pub fn remaining(&self) -> (count: usize)
        ensures
            count == if self@.dispatched <= self@.recipients.len() {
                self@.recipients.len() - self@.dispatched
            } else {
                0
            },
    {
        if self.dispatched <= self.recipients.len() {
            self.recipients.len() - self.dispatched
        } else {
            0
        }
    }

    /// The chats whose send was reported as failed.
    pub fn failures(&self) -> (failed: &Vec<i64>)
        ensures
            failed@ == self@.failed,
    {
        &self.failed
    }

    /// Hands out the next step: a send to the next chat, a rest after each
    /// full batch of sends while chats are waiting, or the end.
    pub fn next_step(&mut self) -> (step: FanoutStep)
        ensures
            step == step_of(old(self)@),
            final(self)@ == after_step(old(self)@),
            old(self).wf() ==> final(self).wf(),
    {
        if self.dispatched >= self.recipients.len() {
            FanoutStep::Finished
        } else if self.dispatched > 0 && self.dispatched % BATCH_SIZE == 0 && !self.rested {
            self.rested = true;
            FanoutStep::Pause { millis: PAUSE_MILLIS }
        } else {
            let recipient = self.recipients[self.dispatched];
            self.dispatched = self.dispatched + 1;
            self.rested = false;
            FanoutStep::Send { recipient }
        }
    }

    /// Takes note of how the send to `recipient` went. A failure is kept
    /// for the report; the steps to come stay as they were.
    pub fn report(&mut self, recipient: i64, delivered: bool)
        ensures
            final(self)@ == after_report(old(self)@, recipient, delivered),
            step_of(final(self)@) == step_of(old(self)@),
            old(self).wf() ==> final(self).wf(),
    {
        if !delivered {
            self.failed.push(recipient);
        }
    }

    /// Whether every chat has had its send.
    pub fn is_finished(&self) -> (done: bool)
        ensures
            done == (step_of(self@) == FanoutStep::Finished),
    {
        self.dispatched >= self.recipients.len()
    }
}

/// Prepares the delivery of `msg` to every chat of `ids`, in that order.
pub fn send_to_all(msg: &String, ids: &Vec<i64>) -> (fanout: Fanout)
    ensures
        fanout@ == (FanoutView {
            body: msg@,
            recipients: ids@,
            dispatched: 0,
            rested: false,
            failed: Seq::empty(),
        }),
        fanout.wf(),
        sends_from(fanout@) == ids@,
{
    let mut recipients: Vec<i64> = Vec::new();
    let mut i: usize = 0;
    while i < ids.len()
        invariant
            i <= ids@.len(),
            recipients@ == ids@.take(i as int),
        decreases ids@.len() - i,
    {
        recipients.push(ids[i]);
        proof {
            assert(ids@.take(i as int).push(ids@[i as int]) =~= ids@.take(i as int + 1));
        }
        i = i + 1;
    }
    proof {
        assert(ids@.take(i as int) =~= ids@);
    }
    let fanout = Fanout::new(msg.clone(), recipients);
    proof {
        law_every_recipient_is_served(fanout@);
        assert(ids@.skip(0) =~= ids@);
    }
    fanout
}

} // verus!
