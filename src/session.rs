use vstd::prelude::*;

use crate::ui::{dispatch, key_press, transition_of, KeyEvent, Transition, UiState};

verus! {

/// How one tick ended: the poll ran, with the key event that arrived if any,
/// or refreshing, drawing or polling failed.
#[derive(Clone, Copy, Debug, PartialEq, Eq, Structural)]
pub enum TickOutcome {
    Polled(Option<KeyEvent>),
    Failed,
}

/// What the loop does after a tick.
#[derive(Clone, Copy, Debug, PartialEq, Eq, Structural)]
pub enum Action {
    /// Run the next tick; `log_modal` asks for the log record of an opened overlay.
    Continue { log_modal: bool },
    /// Leave the loop: restore the terminal first when `restore` is set, then end
    /// with an error when `fatal` is set.
    Exit { restore: bool, fatal: bool },
}

/// The loop's state between ticks. The terminal is in the alternate screen and
/// raw mode exactly while the session runs.
#[derive(Clone, Copy, Debug, PartialEq, Eq, Structural)]
pub struct Session {
    pub ui: UiState,
    pub running: bool,
    pub restored: bool,
}

impl Session {
    pub open spec fn wf(self) -> bool {
        self.running == !self.restored
    }

    /// The session at loop start, once the terminal has been set up.
    pub fn start() -> (r: Session)
        ensures
            r.wf(),
            r.running,
            !r.ui.modal_open,
    {
        Session { ui: UiState::new(), running: true, restored: false }
    }

    pub open spec fn next(self, o: TickOutcome) -> Session {
        if !self.running {
            self
        } else {
            match o {
                TickOutcome::Failed => Session { running: false, restored: true, ..self },
                TickOutcome::Polled(e) => match transition_of(e) {
                    Transition::OpenModal => Session {
                        ui: UiState { modal_open: true },
                        ..self
                    },
                    Transition::Quit => Session { running: false, restored: true, ..self },
                    Transition::Ignore => self,
                },
            }
        }
    }

    pub open spec fn action(self, o: TickOutcome) -> Action {
        if !self.running {
            Action::Exit { restore: false, fatal: false }
        } else {
            match o {
                TickOutcome::Failed => Action::Exit { restore: true, fatal: true },
                TickOutcome::Polled(e) => match transition_of(e) {
                    Transition::OpenModal => Action::Continue { log_modal: true },
                    Transition::Quit => Action::Exit { restore: true, fatal: false },
                    Transition::Ignore => Action::Continue { log_modal: false },
                },
            }
        }
    }

    /// Decides what follows a tick. A failure or a 'q' press ends the session
    /// and asks for the terminal's restoration; a session that has ended asks
    /// for nothing more.
    pub fn step(&mut self, o: TickOutcome) -> (r: Action)
        requires
            old(self).wf(),
        ensures
            final(self).wf(),
            *final(self) == old(self).next(o),
            r == old(self).action(o),
    {
        if !self.running {
            return Action::Exit { restore: false, fatal: false };
        }
        match o {
            TickOutcome::Failed => {
                self.running = false;
                self.restored = true;
                Action::Exit { restore: true, fatal: true }
            },
            TickOutcome::Polled(e) => match dispatch(&mut self.ui, e) {
                Transition::OpenModal => Action::Continue { log_modal: true },
                Transition::Quit => {
                    self.running = false;
                    self.restored = true;
                    Action::Exit { restore: true, fatal: false }
                },
                Transition::Ignore => Action::Continue { log_modal: false },
            },
        }
    }
}

pub open spec fn asks_restore(a: Action) -> bool {
    match a {
        Action::Exit { restore, .. } => restore,
        _ => false,
    }
}

/// The session after a run of ticks.
pub open spec fn run(s: Session, outcomes: Seq<TickOutcome>) -> Session
    decreases outcomes.len(),
{
    if outcomes.len() == 0 {
        s
    } else {
        run(s.next(outcomes[0]), outcomes.drop_first())
    }
}

/// How many times a run of ticks asks for the terminal's restoration.
pub open spec fn restorations(s: Session, outcomes: Seq<TickOutcome>) -> nat
    decreases outcomes.len(),
{
    if outcomes.len() == 0 {
        0
    } else {
        (if asks_restore(s.action(outcomes[0])) { 1nat } else { 0nat }) + restorations(
            s.next(outcomes[0]),
            outcomes.drop_first(),
        )
    }
}

/// Whatever the ticks bring (quit keys, failures, other events), a session
/// asks for the terminal's restoration once if it has ended, and never while it
/// still runs.
pub proof fn lemma_restored_exactly_once(s: Session, outcomes: Seq<TickOutcome>)
    requires
        s.wf(),
        s.running,
    ensures
        restorations(s, outcomes) == (if run(s, outcomes).running { 0nat } else { 1nat }),
    decreases outcomes.len(),
{
    if outcomes.len() > 0 {
        let t = s.next(outcomes[0]);
        if t.running {
            lemma_restored_exactly_once(t, outcomes.drop_first());
        } else {
            lemma_ended_stays_ended(t, outcomes.drop_first());
        }
    }
}

/// An ended session stays ended and asks for nothing more.
pub proof fn lemma_ended_stays_ended(s: Session, outcomes: Seq<TickOutcome>)
    requires
        !s.running,
    ensures
        run(s, outcomes) == s,
        restorations(s, outcomes) == 0,
    decreases outcomes.len(),
{
    if outcomes.len() > 0 {
        lemma_ended_stays_ended(s, outcomes.drop_first());
    }
}

/// A 'q' press ends any running session, with the overlay open or not, and
/// asks for restoration without an error.
pub proof fn lemma_quit_ends_session(s: Session)
    requires
        s.wf(),
        s.running,
    ensures
        !s.next(TickOutcome::Polled(Some(key_press('q')))).running,
        s.action(TickOutcome::Polled(Some(key_press('q'))))
            == (Action::Exit { restore: true, fatal: false }),
{
}

/// A '?' press opens the overlay of a running session, which goes on.
pub proof fn lemma_question_mark_opens_overlay(s: Session)
    requires
        s.wf(),
        s.running,
    ensures
        s.next(TickOutcome::Polled(Some(key_press('?')))).ui.modal_open,
        s.next(TickOutcome::Polled(Some(key_press('?')))).running,
{
}

} // verus!
