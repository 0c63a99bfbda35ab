use vstd::prelude::*;

use crate::actions::Action;
use crate::settings::Settings;

verus! {

/// A malformed macro, with the index of the action at fault.
#[derive(Clone, Copy, Debug, PartialEq, Eq, Structural)]
pub enum PlaybackError {
    /// An `Else` with no open conditional.
    ElseWithoutIf(usize),
    /// An `EndIf` with no open conditional.
    EndIfWithoutIf(usize),
    /// A `Break` with no enclosing `Repeat`.
    BreakOutsideRepeat(usize),
    /// A `Repeat` (at this index) whose `EndRepeat` is missing.
    MissingEndRepeat(usize),
}

/// What the caller has to do after one step of playback.
#[derive(Clone, Copy, Debug, PartialEq, Eq, Structural)]
pub enum Step {
    /// Inject the mouse or keyboard input, or play the sub-macro, at this index.
    Perform(usize),
    /// Pause for this many milliseconds, polling for cancellation.
    Wait(u64),
    /// Evaluate the image or pixel query at this index and hand the answer to `resolve`.
    Evaluate(usize),
    /// Nothing to do outside: the step only moved through the control flow.
    Continue,
    Finished,
    Cancelled,
    Failed(PlaybackError),
}

/// Where a playback stands.
#[derive(Clone, Copy, Debug, PartialEq, Eq, Structural)]
pub enum Status {
    Running,
    Finished,
    Cancelled,
    Failed(PlaybackError),
}

/// One open repetition: the first index of its body, how many passes it asks
/// for (0 = forever), how many it has finished, and the depth of the
/// conditional stack when it was entered. The outermost frame is the whole
/// macro, repeated as the settings ask.
#[derive(Clone, Copy, Debug, PartialEq, Eq, Structural)]
pub struct RepeatFrame {
    pub start: usize,
    pub times: usize,
    pub done: usize,
    pub if_depth: usize,
}

/// The mathematical state of a playback.
pub struct PlayerState {
    pub actions: Seq<Action>,
    pub ignore_delays: bool,
    pub speed_permille: u32,
    pub pc: int,
    pub ifs: Seq<bool>,
    pub frames: Seq<RepeatFrame>,
    pub status: Status,
}

/// How long a recorded delay lasts at the given playback speed (in thousandths
/// of normal speed); at speed 0 it never ends.
pub open spec fn scaled_delay(ms: u32, speed_permille: u32) -> u64 {
    if speed_permille == 0 {
        u64::MAX
    } else {
        ((ms as int * 1000) / speed_permille as int) as u64
    }
}

/// The index of the `EndRepeat` that closes the repetition open at `i`, when
/// `depth` repetitions opened since are still to be closed first.
pub open spec fn matching_end(actions: Seq<Action>, i: int, depth: nat) -> Option<int>
    decreases actions.len() - i,
{
    if i < 0 || i >= actions.len() {
        None
    } else {
        match actions[i] {
            Action::EndRepeat => if depth == 0 {
                Some(i)
            } else {
                matching_end(actions, i + 1, (depth - 1) as nat)
            },
            Action::Repeat(_) => matching_end(actions, i + 1, depth + 1),
            _ => matching_end(actions, i + 1, depth),
        }
    }
}

pub open spec fn is_condition(a: Action) -> bool {
    matches!(a, Action::IfImage(_)) || matches!(a, Action::IfPixel(_))
}

pub open spec fn is_wait(a: Action) -> bool {
    matches!(a, Action::WaitForImage(_)) || matches!(a, Action::WaitForPixel(_))
}

impl PlayerState {
    /// Effect actions are skipped while the innermost conditional is false.
    pub open spec fn skipping(self) -> bool {
        self.ifs.len() > 0 && !self.ifs.last()
    }

    pub open spec fn fail(self, e: PlaybackError) -> (PlayerState, Step) {
        (PlayerState { status: Status::Failed(e), ..self }, Step::Failed(e))
    }

    pub open spec fn goto(self, pc: int) -> (PlayerState, Step) {
        (PlayerState { pc, ..self }, Step::Continue)
    }

    /// Leave the innermost repetition and go on at `after`; leaving the outermost
    /// one ends the playback.
    pub open spec fn exit_frame(self, after: int) -> (PlayerState, Step) {
        if self.frames.len() <= 1 {
            (PlayerState { status: Status::Finished, ..self }, Step::Finished)
        } else {
            let f = self.frames.last();
            let ifs = if self.ifs.len() > f.if_depth {
                self.ifs.subrange(0, f.if_depth as int)
            } else {
                self.ifs
            };
            (PlayerState { pc: after, ifs, frames: self.frames.drop_last(), ..self }, Step::Continue)
        }
    }

    /// The end of one pass of the innermost repetition: leave it after its last
    /// pass, else count the pass and go back to the start of its body.
    pub open spec fn end_of_pass(self, after: int) -> (PlayerState, Step) {
        let f = self.frames.last();
        if f.times != 0 && f.done + 1 == f.times {
            self.exit_frame(after)
        } else {
            let g = RepeatFrame { done: if f.times == 0 { f.done } else { (f.done + 1) as usize }, ..f };
            (
                PlayerState {
                    pc: f.start as int,
                    frames: self.frames.update(self.frames.len() - 1, g),
                    ..self
                },
                Step::Continue,
            )
        }
    }

    pub open spec fn missing_end(self) -> PlaybackError {
        PlaybackError::MissingEndRepeat((self.frames.last().start - 1) as usize)
    }

    /// One step of playback, given whether cancellation was requested.
    pub open spec fn transition(self, cancelled: bool) -> (PlayerState, Step) {
        if self.status != Status::Running {
            (self, status_step(self.status))
        } else if cancelled {
            (PlayerState { status: Status::Cancelled, ..self }, Step::Cancelled)
        } else if self.pc >= self.actions.len() {
            if self.frames.len() > 1 {
                self.fail(self.missing_end())
            } else {
                self.end_of_pass(self.pc)
            }
        } else {
            let pc = self.pc;
            match self.actions[pc] {
                Action::Else => if self.ifs.len() == 0 {
                    self.fail(PlaybackError::ElseWithoutIf(pc as usize))
                } else {
                    (
                        PlayerState {
                            pc: pc + 1,
                            ifs: self.ifs.update(self.ifs.len() - 1, !self.ifs.last()),
                            ..self
                        },
                        Step::Continue,
                    )
                },
                Action::EndIf => if self.ifs.len() == 0 {
                    self.fail(PlaybackError::EndIfWithoutIf(pc as usize))
                } else {
                    (PlayerState { pc: pc + 1, ifs: self.ifs.drop_last(), ..self }, Step::Continue)
                },
                Action::Repeat(n) => {
                    let f = RepeatFrame {
                        start: (pc + 1) as usize,
                        times: n,
                        done: 0,
                        if_depth: self.ifs.len() as usize,
                    };
                    (PlayerState { pc: pc + 1, frames: self.frames.push(f), ..self }, Step::Continue)
                },
                Action::EndRepeat => self.end_of_pass(pc + 1),
                Action::Break => if self.frames.len() <= 1 {
                    self.fail(PlaybackError::BreakOutsideRepeat(pc as usize))
                } else {
                    match matching_end(self.actions, pc + 1, 0) {
                        Some(j) => self.exit_frame(j + 1),
                        None => self.fail(self.missing_end()),
                    }
                },
                Action::IfImage(_) => (self, Step::Evaluate(pc as usize)),
                Action::IfPixel(_) => (self, Step::Evaluate(pc as usize)),
                Action::WaitForImage(_) => if self.skipping() {
                    self.goto(pc + 1)
                } else {
                    (self, Step::Evaluate(pc as usize))
                },
                Action::WaitForPixel(_) => if self.skipping() {
                    self.goto(pc + 1)
                } else {
                    (self, Step::Evaluate(pc as usize))
                },
                Action::Delay(ms) => if self.skipping() || self.ignore_delays {
                    self.goto(pc + 1)
                } else {
                    (PlayerState { pc: pc + 1, ..self }, Step::Wait(scaled_delay(ms, self.speed_permille)))
                },
                _ => if self.skipping() {
                    self.goto(pc + 1)
                } else {
                    (PlayerState { pc: pc + 1, ..self }, Step::Perform(pc as usize))
                },
            }
        }
    }

    /// The state after the query at the current index answered `found`: a
    /// conditional records the answer; a wait ends once its query holds.
    pub open spec fn resolved(self, found: bool) -> PlayerState {
        if self.status == Status::Running && 0 <= self.pc < self.actions.len() {
            if is_condition(self.actions[self.pc]) {
                PlayerState { pc: self.pc + 1, ifs: self.ifs.push(found), ..self }
            } else if is_wait(self.actions[self.pc]) && found {
                PlayerState { pc: self.pc + 1, ..self }
            } else {
                self
            }
        } else {
            self
        }
    }
}

pub open spec fn status_step(s: Status) -> Step {
    match s {
        Status::Running => Step::Continue,
        Status::Finished => Step::Finished,
        Status::Cancelled => Step::Cancelled,
        Status::Failed(e) => Step::Failed(e),
    }
}

/// An interpreter for one macro: it walks the action list one step at a time
/// and tells its caller which outside work each step needs.
pub struct Player {
    actions: Vec<Action>,
    ignore_delays: bool,
    speed_permille: u32,
    pc: usize,
    ifs: Vec<bool>,
    frames: Vec<RepeatFrame>,
    status: Status,
}

impl View for Player {
    type V = PlayerState;

    closed spec fn view(&self) -> PlayerState {
        PlayerState {
            actions: self.actions@,
            ignore_delays: self.ignore_delays,
            speed_permille: self.speed_permille,
            pc: self.pc as int,
            ifs: self.ifs@,
            frames: self.frames@,
            status: self.status,
        }
    }
}

impl Player {
    /// The invariant that every constructor establishes and every step keeps.
    pub closed spec fn wf(&self) -> bool {
        &&& self.frames@.len() >= 1
        &&& self.frames@[0].start == 0
        &&& self.pc <= self.actions@.len()
        &&& forall|i: int|
            0 <= i < self.frames@.len() ==> {
                &&& 1 <= i ==> 1 <= #[trigger] self.frames@[i].start
                &&& self.frames@[i].start <= self.actions@.len()
                &&& (self.frames@[i].times != 0 ==> self.frames@[i].done < self.frames@[i].times)
            }
    }

    /// A playback of `actions` from the start, repeated `settings.repeat_times`
    /// times (0 = until cancelled).
    pub fn new(actions: Vec<Action>, settings: &Settings) -> (r: Player)
        ensures
            r.wf(),
            r@.actions == actions@,
            r@.ignore_delays == settings.ignore_delays,
            r@.speed_permille == settings.playback_speed_permille,
            r@.pc == 0,
            r@.ifs == Seq::<bool>::empty(),
            r@.frames == seq![
                RepeatFrame { start: 0, times: settings.repeat_times as usize, done: 0, if_depth: 0 },
            ],
            r@.status == Status::Running,
    {
        let mut frames: Vec<RepeatFrame> = Vec::new();
        frames.push(RepeatFrame { start: 0, times: settings.repeat_times as usize, done: 0, if_depth: 0 });
        Player {
            actions,
            ignore_delays: settings.ignore_delays,
            speed_permille: settings.playback_speed_permille,
            pc: 0,
            ifs: Vec::new(),
            frames,
            status: Status::Running,
        }
    }

    /// A playback of a sub-macro: played once, with this playback's timing.
    pub fn new_sub(&self, actions: Vec<Action>) -> (r: Player)
        ensures
            r.wf(),
            r@.actions == actions@,
            r@.ignore_delays == self@.ignore_delays,
            r@.speed_permille == self@.speed_permille,
            r@.pc == 0,
            r@.ifs == Seq::<bool>::empty(),
            r@.frames == seq![RepeatFrame { start: 0, times: 1, done: 0, if_depth: 0 }],
            r@.status == Status::Running,
    {
        let mut frames: Vec<RepeatFrame> = Vec::new();
        frames.push(RepeatFrame { start: 0, times: 1, done: 0, if_depth: 0 });
        Player {
            actions,
            ignore_delays: self.ignore_delays,
            speed_permille: self.speed_permille,
            pc: 0,
            ifs: Vec::new(),
            frames,
            status: Status::Running,
        }
    }

    pub fn actions(&self) -> (r: &Vec<Action>)
        ensures
            r@ == self@.actions,
    {
        &self.actions
    }

    pub fn status(&self) -> (r: Status)
        ensures
            r == self@.status,
    {
        self.status
    }
}


/// Finds the `EndRepeat` that closes the repetition containing `from`.
fn find_matching_end(actions: &Vec<Action>, from: usize) -> (r: Option<usize>)
    requires
        from <= actions@.len(),
    ensures
        r matches Some(j) ==> j < actions@.len() && matching_end(actions@, from as int, 0) == Some(j as int),
        r is None ==> matching_end(actions@, from as int, 0) is None,
{
    let mut i: usize = from;
    let mut depth: usize = 0;
    while i < actions.len()
        invariant
            from <= i <= actions@.len(),
            depth <= i - from,
            matching_end(actions@, from as int, 0) == matching_end(actions@, i as int, depth as nat),
        decreases actions@.len() - i,
    {
        match &actions[i] {
            Action::EndRepeat => {
                if depth == 0 {
                    return Some(i);
                }
                depth = depth - 1;
            },
            Action::Repeat(_) => {
                depth = depth + 1;
            },
            _ => {},
        }
        i = i + 1;
    }
    None
}

impl Player {
    fn fail(&mut self, e: PlaybackError) -> (r: Step)
        requires
            old(self).wf(),
        ensures
            final(self).wf(),
            (final(self)@, r) == old(self)@.fail(e),
    {
        self.status = Status::Failed(e);
        Step::Failed(e)
    }

    /// Leave the innermost repetition and go on at `after`.
    fn exit_frame(&mut self, after: usize) -> (r: Step)
        requires
            old(self).wf(),
            after <= old(self)@.actions.len(),
        ensures
            final(self).wf(),
            (final(self)@, r) == old(self)@.exit_frame(after as int),
    {
        if self.frames.len() <= 1 {
            self.status = Status::Finished;
            return Step::Finished;
        }
        let f = self.frames[self.frames.len() - 1];
        if self.ifs.len() > f.if_depth {
            self.ifs.truncate(f.if_depth);
        }
        self.frames.pop();
        self.pc = after;
        Step::Continue
    }

    /// The end of one pass of the innermost repetition.
    fn end_of_pass(&mut self, after: usize) -> (r: Step)
        requires
            old(self).wf(),
            after <= old(self)@.actions.len(),
        ensures
            final(self).wf(),
            (final(self)@, r) == old(self)@.end_of_pass(after as int),
    {
        let last = self.frames.len() - 1;
        let f = self.frames[last];
        if f.times != 0 && f.done + 1 == f.times {
            return self.exit_frame(after);
        }
        let done = if f.times == 0 { f.done } else { f.done + 1 };
        let g = RepeatFrame { done, ..f };
        self.frames.set(last, g);
        self.pc = f.start;
        Step::Continue
    }

    fn missing_end(&self) -> (r: PlaybackError)
        requires
            self.wf(),
            self@.frames.len() > 1,
        ensures
            r == self@.missing_end(),
    {
        let start = self.frames[self.frames.len() - 1].start;
        PlaybackError::MissingEndRepeat(start - 1)
    }

    /// Runs one step of the playback. `cancelled` tells whether the stop chord is
    /// held; a cancelled step ends the playback at once.
    pub fn step(&mut self, cancelled: bool) -> (r: Step)
        requires
            old(self).wf(),
        ensures
            final(self).wf(),
            (final(self)@, r) == old(self)@.transition(cancelled),
    {
        match self.status {
            Status::Running => {},
            Status::Finished => { return Step::Finished; },
            Status::Cancelled => { return Step::Cancelled; },
            Status::Failed(e) => { return Step::Failed(e); },
        }
        if cancelled {
            self.status = Status::Cancelled;
            return Step::Cancelled;
        }
        let pc = self.pc;
        if pc >= self.actions.len() {
            if self.frames.len() > 1 {
                let e = self.missing_end();
                return self.fail(e);
            }
            return self.end_of_pass(pc);
        }
        let skipping = self.ifs.len() > 0 && !self.ifs[self.ifs.len() - 1];
        match &self.actions[pc] {
            Action::Else => {
                if self.ifs.len() == 0 {
                    return self.fail(PlaybackError::ElseWithoutIf(pc));
                }
                let last = self.ifs.len() - 1;
                let top = self.ifs[last];
                self.ifs.set(last, !top);
                self.pc = pc + 1;
                Step::Continue
            },
            Action::EndIf => {
                if self.ifs.len() == 0 {
                    return self.fail(PlaybackError::EndIfWithoutIf(pc));
                }
                self.ifs.pop();
                self.pc = pc + 1;
                Step::Continue
            },
            Action::Repeat(n) => {
                let f = RepeatFrame { start: pc + 1, times: *n, done: 0, if_depth: self.ifs.len() };
                self.frames.push(f);
                self.pc = pc + 1;
                Step::Continue
            },
            Action::EndRepeat => self.end_of_pass(pc + 1),
            Action::Break => {
                if self.frames.len() <= 1 {
                    return self.fail(PlaybackError::BreakOutsideRepeat(pc));
                }
                match find_matching_end(&self.actions, pc + 1) {
                    Some(j) => self.exit_frame(j + 1),
                    None => {
                        let e = self.missing_end();
                        self.fail(e)
                    },
                }
            },
            Action::IfImage(_) => Step::Evaluate(pc),
            Action::IfPixel(_) => Step::Evaluate(pc),
            Action::WaitForImage(_) => {
                if skipping {
                    self.pc = pc + 1;
                    Step::Continue
                } else {
                    Step::Evaluate(pc)
                }
            },
            Action::WaitForPixel(_) => {
                if skipping {
                    self.pc = pc + 1;
                    Step::Continue
                } else {
                    Step::Evaluate(pc)
                }
            },
            Action::Delay(ms) => {
                let ms = *ms;
                self.pc = pc + 1;
                if skipping || self.ignore_delays {
                    Step::Continue
                } else {
                    Step::Wait(scale_delay(ms, self.speed_permille))
                }
            },
            _ => {
                self.pc = pc + 1;
                if skipping {
                    Step::Continue
                } else {
                    Step::Perform(pc)
                }
            },
        }
    }

    /// Hands the answer of the query that the last `Evaluate` asked for to the
    /// playback: a conditional records it, a wait ends once it holds.
    pub fn resolve(&mut self, found: bool)
        requires
            old(self).wf(),
        ensures
            final(self).wf(),
            final(self)@ == old(self)@.resolved(found),
    {
        if self.status != Status::Running || self.pc >= self.actions.len() {
            return;
        }
        let pc = self.pc;
        match &self.actions[pc] {
            Action::IfImage(_) | Action::IfPixel(_) => {
                self.ifs.push(found);
                self.pc = pc + 1;
            },
            Action::WaitForImage(_) | Action::WaitForPixel(_) => {
                if found {
                    self.pc = pc + 1;
                }
            },
            _ => {},
        }
    }
}

/// How long a recorded delay of `ms` milliseconds lasts at the given speed.
pub fn scale_delay(ms: u32, speed_permille: u32) -> (r: u64)
    ensures
        r == scaled_delay(ms, speed_permille),
{
    if speed_permille == 0 {
        u64::MAX
    } else {
        (ms as u64) * 1000 / (speed_permille as u64)
    }
}

/// Where a pause stands after one poll.
#[derive(Clone, Copy, Debug, PartialEq, Eq, Structural)]
pub enum DelayPoll {
    Waiting,
    Elapsed,
    Cancelled,
}

/// One poll of a pause of `duration_ms`, `elapsed_ms` after it began:
/// cancellation ends it at once, whatever is left of it.
pub fn delay_poll(elapsed_ms: u64, duration_ms: u64, cancelled: bool) -> (r: DelayPoll)
    ensures
        r == (if cancelled {
            DelayPoll::Cancelled
        } else if elapsed_ms >= duration_ms {
            DelayPoll::Elapsed
        } else {
            DelayPoll::Waiting
        }),
{
    if cancelled {
        DelayPoll::Cancelled
    } else if elapsed_ms >= duration_ms {
        DelayPoll::Elapsed
    } else {
        DelayPoll::Waiting
    }
}

/// Cancellation ends a running playback at the very next step, whatever that
/// step would have done, and every later step reports the cancellation again.
pub proof fn lemma_cancel_stops_playback(s: PlayerState, later: bool)
    requires
        s.status == Status::Running,
    ensures
        s.transition(true).1 == Step::Cancelled,
        s.transition(true).0.status == Status::Cancelled,
        s.transition(true).0.transition(later) == (s.transition(true).0, Step::Cancelled),
{
}

} // verus!
