//! The schedule of an animated sequence: when to sleep, when to ask for the
//! next frame, and when to stop.
//!
//! The worker that keeps the time owns an `Animator` and does what it says:
//! it reads the running flag, sleeps, or sends `RequestNextFrame`, and tells
//! the animator what came of it. The animator only decides.

use crate::img::Delay;
use vstd::prelude::*;

verus! {

/// Event emitted when the next frame in
/// an image sequence should be shown.
#[derive(Debug)]
pub struct RequestNextFrame;

/// Where the worker stands in its round.
#[derive(Clone, Copy, Debug, PartialEq, Eq, Structural)]
pub enum Phase {
    /// About to read the running flag.
    Ready,
    /// Sleeping through the delay of the frame that shows.
    Sleeping,
    /// About to send the request for the next frame.
    Sending,
    /// Stopped, for good.
    Done,
}

/// What the worker is to do next.
#[derive(Clone, Copy, Debug, PartialEq, Eq, Structural)]
pub enum Task {
    /// Read the running flag and report it as `Outcome::Flag`.
    ReadFlag,
    /// Sleep for the delay and report `Outcome::Slept`.
    Sleep(Delay),
    /// Send `RequestNextFrame` and report as `Outcome::Sent` whether it was
    /// taken.
    Send,
    /// Return: nothing more is to be done.
    Finish,
}

/// What came of the task that the worker was given.
#[derive(Clone, Copy, Debug, PartialEq, Eq, Structural)]
pub enum Outcome {
    /// The running flag, as it was read.
    Flag(bool),
    /// The sleep is over.
    Slept,
    /// Whether the request was taken; it is not once the receiver is gone.
    Sent(bool),
}

/// What an animator holds.
pub struct AnimatorModel {
    /// The delays of the frames, in order.
    pub delays: Seq<Delay>,
    /// Which frame shows.
    pub cursor: int,
    /// Where the worker stands.
    pub phase: Phase,
}

impl AnimatorModel {
    /// Unless the worker is done, the cursor is on a delay.
    pub open spec fn wf(self) -> bool {
        self.phase != Phase::Done ==> 0 <= self.cursor < self.delays.len()
    }

    /// The animator for a list of delays: ready at the first delay, or done
    /// at once where there is none.
    pub open spec fn start(delays: Seq<Delay>) -> AnimatorModel {
        AnimatorModel {
            delays,
            cursor: 0,
            phase: if delays.len() > 0 {
                Phase::Ready
            } else {
                Phase::Done
            },
        }
    }

    /// What the worker is to do in this state.
    pub open spec fn task(self) -> Task {
        match self.phase {
            Phase::Ready => Task::ReadFlag,
            Phase::Sleeping => Task::Sleep(self.delays[self.cursor]),
            Phase::Sending => Task::Send,
            Phase::Done => Task::Finish,
        }
    }

    /// The state after `outcome` has been reported. A flag that is not set,
    /// or a request that was not taken, ends the work; a request that was
    /// taken moves on to the next delay, from the last to the first. An
    /// outcome that does not answer the task at hand changes nothing.
    pub open spec fn step(self, outcome: Outcome) -> AnimatorModel {
        match (self.phase, outcome) {
            (Phase::Ready, Outcome::Flag(true)) => AnimatorModel { phase: Phase::Sleeping, ..self },
            (Phase::Ready, Outcome::Flag(false)) => AnimatorModel { phase: Phase::Done, ..self },
            (Phase::Sleeping, Outcome::Slept) => AnimatorModel { phase: Phase::Sending, ..self },
            (Phase::Sending, Outcome::Sent(true)) => AnimatorModel {
                phase: Phase::Ready,
                cursor: if self.cursor + 1 == self.delays.len() {
                    0
                } else {
                    self.cursor + 1
                },
                ..self
            },
            (Phase::Sending, Outcome::Sent(false)) => AnimatorModel { phase: Phase::Done, ..self },
            _ => self,
        }
    }

    /// The state after the outcomes `outcomes` have been reported in turn.
    pub open spec fn run(self, outcomes: Seq<Outcome>) -> AnimatorModel
        decreases outcomes.len(),
    {
        if outcomes.len() == 0 {
            self
        } else {
            self.run(outcomes.drop_last()).step(outcomes.last())
        }
    }

    /// The outcome that answers the task at hand, where the flag reads
    /// `running` and a request is taken or not as `taken` says.
    pub open spec fn answer(self, running: bool, taken: bool) -> Outcome {
        match self.phase {
            Phase::Ready => Outcome::Flag(running),
            Phase::Sleeping => Outcome::Slept,
            Phase::Sending => Outcome::Sent(taken),
            Phase::Done => Outcome::Slept,
        }
    }

    /// The state after the worker has done `n` tasks with the flag not set.
    pub open spec fn wind_down(self, n: nat, taken: bool) -> AnimatorModel
        decreases n,
    {
        if n == 0 {
            self
        } else {
            let before = self.wind_down((n - 1) as nat, taken);
            before.step(before.answer(false, taken))
        }
    }
}

/// Decides what the worker of an animated sequence does next.
pub struct Animator {
    delays: Vec<Delay>,
    cursor: usize,
    phase: Phase,
}

impl View for Animator {
    type V = AnimatorModel;

    closed spec fn view(&self) -> AnimatorModel {
        AnimatorModel { delays: self.delays@, cursor: self.cursor as int, phase: self.phase }
    }
}

impl Animator {
    /// An animator is always in order.
    #[verifier::type_invariant]
    spec fn in_order(self) -> bool {
        self.phase != Phase::Done ==> self.cursor < self.delays@.len()
    }

    /// An animator for the delays of a sequence, at the first of them.
    pub fn new(delays: &[Delay]) -> (animator: Animator)
        ensures
            animator@ == AnimatorModel::start(delays@),
            animator@.wf(),
    {
        let mut list: Vec<Delay> = Vec::new();
        let mut i: usize = 0;
        while i < delays.len()
            invariant
                i <= delays.len(),
                list@ == delays@.subrange(0, i as int),
            decreases delays.len() - i,
        {
            list.push(delays[i]);
            i += 1;
        }
        assert(list@ == delays@);
        let phase = if list.len() > 0 {
            Phase::Ready
        } else {
            Phase::Done
        };
        Animator { delays: list, cursor: 0, phase }
    }

    /// What the worker is to do now.
    pub fn task(&self) -> (task: Task)
        ensures
            task == self@.task(),
            self@.wf(),
    {
        proof {
            use_type_invariant(self);
        }
        match self.phase {
            Phase::Ready => Task::ReadFlag,
            Phase::Sleeping => Task::Sleep(self.delays[self.cursor]),
            Phase::Sending => Task::Send,
            Phase::Done => Task::Finish,
        }
    }

    /// Takes in what came of the task at hand and says what to do next.
    pub fn step(&mut self, outcome: Outcome) -> (task: Task)
        ensures
            final(self)@ == old(self)@.step(outcome),
            final(self)@.wf(),
            task == final(self)@.task(),
    {
        proof {
            use_type_invariant(&*self);
        }
        match (self.phase, outcome) {
            (Phase::Ready, Outcome::Flag(true)) => {
                self.phase = Phase::Sleeping;
            },
            (Phase::Ready, Outcome::Flag(false)) => {
                self.phase = Phase::Done;
            },
            (Phase::Sleeping, Outcome::Slept) => {
                self.phase = Phase::Sending;
            },
            (Phase::Sending, Outcome::Sent(true)) => {
                let len = self.delays.len();
                self.cursor = if self.cursor + 1 == len {
                    0
                } else {
                    self.cursor + 1
                };
                self.phase = Phase::Ready;
            },
            (Phase::Sending, Outcome::Sent(false)) => {
                self.phase = Phase::Done;
            },
            _ => {},
        }
        self.task()
    }
}

/// Every step keeps the animator in order.
pub proof fn step_keeps_order(m: AnimatorModel, outcome: Outcome)
    requires
        m.wf(),
    ensures
        m.step(outcome).wf(),
        m.step(outcome).delays == m.delays,
{
}

/// Once the work is done it stays done: whatever is reported, the task is to
/// finish, and no request is sent again.
pub proof fn done_stays_done(m: AnimatorModel, outcomes: Seq<Outcome>)
    requires
        m.phase == Phase::Done,
    ensures
        m.run(outcomes) == m,
        m.run(outcomes).task() == Task::Finish,
    decreases outcomes.len(),
{
    if outcomes.len() > 0 {
        done_stays_done(m, outcomes.drop_last());
    }
}

/// No request is sent after the flag has been seen not to be set: from the
/// moment that reading is reported, the task is to finish, whatever is
/// reported afterwards.
pub proof fn no_request_after_stop(m: AnimatorModel, later: Seq<Outcome>)
    requires
        m.phase == Phase::Ready,
    ensures
        m.step(Outcome::Flag(false)).run(later).task() == Task::Finish,
{
    done_stays_done(m.step(Outcome::Flag(false)), later);
}

/// A request that is not taken ends the work at once.
pub proof fn lost_receiver_stops(m: AnimatorModel, later: Seq<Outcome>)
    requires
        m.phase == Phase::Sending,
    ensures
        m.step(Outcome::Sent(false)).run(later).task() == Task::Finish,
{
    done_stays_done(m.step(Outcome::Sent(false)), later);
}

/// With the flag not set the worker is done after three tasks at most, and
/// begins no sleep on the way: a stop waits for no more than the sleep that
/// is under way.
pub proof fn stop_is_bounded(m: AnimatorModel, taken: bool)
    requires
        m.wf(),
    ensures
        m.wind_down(3, taken).phase == Phase::Done,
        m.wind_down(1, taken).phase != Phase::Sleeping,
        m.wind_down(2, taken).phase != Phase::Sleeping,
        m.wind_down(3, taken).phase != Phase::Sleeping,
{
    reveal_with_fuel(AnimatorModel::wind_down, 4);
}

/// One round with the flag set and the request taken: the worker sleeps for
/// the delay at the cursor, sends one request, and stands ready at the next
/// delay, the first coming after the last.
pub proof fn round_moves_on(m: AnimatorModel)
    requires
        m.wf(),
        m.phase == Phase::Ready,
    ensures
        ({
            let asleep = m.step(Outcome::Flag(true));
            let awake = asleep.step(Outcome::Slept);
            let next = awake.step(Outcome::Sent(true));
            &&& asleep.task() == Task::Sleep(m.delays[m.cursor])
            &&& awake.task() == Task::Send
            &&& next.task() == Task::ReadFlag
            &&& next.cursor == (if m.cursor + 1 == m.delays.len() {
                0
            } else {
                m.cursor + 1
            })
            &&& next.delays == m.delays
            &&& next.wf()
        }),
{
}

} // verus!
