//! The life of the backend process: started once, stopped once.

use vstd::prelude::*;

verus! {

/// Where the supervised backend stands. `H` is the caller's handle to the
/// running process.
#[derive(Debug, PartialEq, Eq)]
pub enum Lifecycle<H> {
    /// No backend has been started.
    NotStarted,
    /// The backend runs, and this is its handle.
    Running(H),
    /// The backend was started and has been asked to stop.
    Terminated,
}

/// A lifecycle without its handle.
#[derive(Clone, Copy, Debug, PartialEq, Eq, Structural)]
pub enum Phase {
    /// No backend has been started.
    NotStarted,
    /// The backend runs.
    Running,
    /// The backend was started and has been asked to stop.
    Terminated,
}

/// What the host runtime reports to the shell.
#[derive(Clone, Copy, Debug, PartialEq, Eq, Structural)]
pub enum AppEvent {
    /// The application was asked to exit.
    ExitRequested,
    /// The application exits.
    Exit,
    /// Anything else.
    Other,
}

/// What the shell has to do in answer to an event.
#[derive(Debug, PartialEq, Eq)]
pub enum Action<H> {
    /// Nothing.
    Nothing,
    /// Kill the process behind the handle, then wait until it is gone;
    /// a failure of either is dropped.
    KillAndWait(H),
}

impl AppEvent {
    /// Whether the event tells the shell to stop the backend.
    pub open spec fn is_exit(self) -> bool {
        self == AppEvent::ExitRequested || self == AppEvent::Exit
    }

    /// Whether the event tells the shell to stop the backend.
    pub fn is_exit_signal(self) -> (yes: bool)
        ensures
            yes == self.is_exit(),
    {
        match self {
            AppEvent::ExitRequested => true,
            AppEvent::Exit => true,
            AppEvent::Other => false,
        }
    }
}

impl<H> Lifecycle<H> {
    /// The handle that is stored, if any.
    pub open spec fn handle(self) -> Option<H> {
        match self {
            Lifecycle::Running(h) => Some(h),
            _ => None,
        }
    }

    /// The lifecycle without its handle.
    pub open spec fn phase(self) -> Phase {
        match self {
            Lifecycle::NotStarted => Phase::NotStarted,
            Lifecycle::Running(_) => Phase::Running,
            Lifecycle::Terminated => Phase::Terminated,
        }
    }

    /// The lifecycle after an attempt to start the backend came back with
    /// `outcome`: a handle is stored, a failure changes nothing.
    pub open spec fn after_spawn<E>(self, outcome: Result<H, E>) -> Lifecycle<H> {
        match outcome {
            Ok(h) => Lifecycle::Running(h),
            Err(_) => self,
        }
    }

    /// The lifecycle after the stored handle, if any, has been taken out to
    /// stop the backend.
    pub open spec fn after_termination(self) -> Lifecycle<H> {
        match self {
            Lifecycle::Running(_) => Lifecycle::Terminated,
            _ => self,
        }
    }

    /// The lifecycle after `event`.
    pub open spec fn after_event(self, event: AppEvent) -> Lifecycle<H> {
        if event.is_exit() {
            self.after_termination()
        } else {
            self
        }
    }

    /// What the shell has to do when `event` arrives in this lifecycle.
    pub open spec fn action_on(self, event: AppEvent) -> Action<H> {
        match self {
            Lifecycle::Running(h) if event.is_exit() => Action::KillAndWait(h),
            _ => Action::Nothing,
        }
    }

    /// The handles that the shell is told to kill, in order, while `events`
    /// arrive one after another, starting from this lifecycle.
    pub open spec fn kills(self, events: Seq<AppEvent>) -> Seq<H>
        decreases events.len(),
    {
        if events.len() == 0 {
            Seq::empty()
        } else {
            let rest = self.after_event(events[0]).kills(events.drop_first());
            match self.action_on(events[0]) {
                Action::KillAndWait(h) => seq![h] + rest,
                Action::Nothing => rest,
            }
        }
    }
}

/// Whether an exit signal is among `events`.
pub open spec fn has_exit(events: Seq<AppEvent>) -> bool {
    exists|i: int| 0 <= i < events.len() && (#[trigger] events[i]).is_exit()
}

/// A handle is stored exactly while the backend runs.
pub proof fn lemma_handle_iff_running<H>(state: Lifecycle<H>)
    ensures
        state.handle().is_some() <==> state.phase() == Phase::Running,
{
}

/// A backend that was started leaves its handle stored, and a start that
/// failed leaves the lifecycle as it was.
pub proof fn lemma_spawn_stores_handle<H, E>(state: Lifecycle<H>, outcome: Result<H, E>)
    ensures
        outcome matches Ok(h) ==> state.after_spawn(outcome).handle() == Some(h),
        outcome is Err ==> state.after_spawn(outcome) == state,
{
}

/// After termination no handle is stored, and to terminate once more takes
/// nothing and changes nothing.
pub proof fn lemma_termination_is_idempotent<H>(state: Lifecycle<H>)
    ensures
        state.after_termination().handle().is_none(),
        state.after_termination().after_termination() == state.after_termination(),
        forall|event: AppEvent|
            #![trigger state.after_termination().action_on(event)]
            state.after_termination().action_on(event) == Action::<H>::Nothing,
{
}

/// The lifecycle only moves forward: from not started to running to
/// terminated, and events never bring a handle in.
pub proof fn lemma_events_move_forward<H>(state: Lifecycle<H>, event: AppEvent)
    ensures
        state.after_event(event) == state || (state.phase() == Phase::Running
            && state.after_event(event) == Lifecycle::<H>::Terminated),
        state.phase() == Phase::NotStarted ==> state.after_event(event) == state,
        state.phase() == Phase::Terminated ==> state.after_event(event) == state,
{
}

/// Whatever events arrive, in whatever number, the backend is killed at most
/// once: once if it runs and an exit signal is among the events, and then by
/// the handle that was stored; otherwise never.
pub proof fn lemma_killed_at_most_once<H>(state: Lifecycle<H>, events: Seq<AppEvent>)
    ensures
        state.kills(events) == (if state.handle().is_some() && has_exit(events) {
            seq![state.handle().unwrap()]
        } else {
            Seq::empty()
        }),
    decreases events.len(),
{
    if events.len() > 0 {
        let rest = events.drop_first();
        lemma_killed_at_most_once(state.after_event(events[0]), rest);
        assert(has_exit(events) <==> events[0].is_exit() || has_exit(rest)) by {
            if has_exit(events) && !events[0].is_exit() {
                let i = choose|i: int| 0 <= i < events.len() && (#[trigger] events[i]).is_exit();
                assert(rest[i - 1] == events[i]);
            }
        }
    }
}

/// Keeper of the backend's process handle. It takes the handle once, when the
/// backend has been started, and gives it up once, when the application
/// exits.
#[derive(Debug)]
pub struct BackendSupervisor<H> {
    handle: Option<H>,
    terminated: bool,
}

impl<H> View for BackendSupervisor<H> {
    type V = Lifecycle<H>;

    closed spec fn view(&self) -> Lifecycle<H> {
        match self.handle {
            Some(h) => Lifecycle::Running(h),
            None => if self.terminated {
                Lifecycle::Terminated
            } else {
                Lifecycle::NotStarted
            },
        }
    }
}

impl<H> BackendSupervisor<H> {
    /// A supervisor whose backend has not been started.
    pub fn new() -> (supervisor: Self)
        ensures
            supervisor@ == Lifecycle::<H>::NotStarted,
    {
        BackendSupervisor { handle: None, terminated: false }
    }

    /// Where the backend stands.
    pub fn phase(&self) -> (phase: Phase)
        ensures
            phase == self@.phase(),
    {
        if self.handle.is_some() {
            Phase::Running
        } else if self.terminated {
            Phase::Terminated
        } else {
            Phase::NotStarted
        }
    }

    /// Whether a handle is stored.
    pub fn has_handle(&self) -> (yes: bool)
        ensures
            yes == self@.handle().is_some(),
    {
        self.handle.is_some()
    }

    /// Takes in what the attempt to start the backend gave: the handle is
    /// stored, a failure is handed back unchanged for the caller to give up
    /// on.
    pub fn record_spawn<E>(&mut self, outcome: Result<H, E>) -> (recorded: Result<(), E>)
        requires
            old(self)@ == Lifecycle::<H>::NotStarted,
        ensures
            final(self)@ == old(self)@.after_spawn(outcome),
            match outcome {
                Ok(_) => recorded == Ok::<(), E>(()),
                Err(e) => recorded == Err::<(), E>(e),
            },
    {
        match outcome {
            Ok(h) => {
                self.handle = Some(h);
                Ok(())
            },
            Err(e) => Err(e),
        }
    }

    /// Takes the stored handle out, for the caller to kill the process and
    /// wait for it. Without a stored handle nothing changes.
    pub fn terminate(&mut self) -> (taken: Option<H>)
        ensures
            taken == old(self)@.handle(),
            final(self)@ == old(self)@.after_termination(),
    {
        let taken = self.handle.take();
        if taken.is_some() {
            self.terminated = true;
        }
        taken
    }

    /// Answers one event of the host runtime: an exit signal takes the
    /// stored handle out to be killed, anything else is passed over.
    pub fn handle_event(&mut self, event: AppEvent) -> (action: Action<H>)
        ensures
            action == old(self)@.action_on(event),
            final(self)@ == old(self)@.after_event(event),
    {
        if event.is_exit_signal() {
            match self.terminate() {
                Some(h) => Action::KillAndWait(h),
                None => Action::Nothing,
            }
        } else {
            Action::Nothing
        }
    }
}

} // verus!
