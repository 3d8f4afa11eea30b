//! The pipeline driver as a state machine over the events of its race.

use crate::trace::{dispatched, events_read, state_after};
use vstd::prelude::*;

verus! {

/// Where a run of the driver stands.
#[derive(Clone, Copy, Debug, PartialEq, Eq, Structural)]
pub enum Phase {
    /// Items are taken in and dispatched.
    Running,
    /// The shutdown signal was observed and the loop is being left.
    Stopping,
    /// The run is over: nothing is read and nothing is dispatched any more.
    Stopped,
}

/// The shutdown branch of the race, as the driver tracks it.
#[derive(Clone, Copy, Debug, PartialEq, Eq, Structural)]
pub enum ShutdownBranch {
    /// A notifier was supplied and has not fired yet.
    Armed,
    /// No notifier was supplied: the branch resolves once, to "do not stop".
    Sentinel,
    /// The branch has resolved and takes no further part in the race.
    Inert,
}

/// What the race between the item source and the shutdown branch yielded.
#[derive(Debug, PartialEq, Eq)]
pub enum Event<T> {
    /// The source produced an item.
    Item(T),
    /// The source reported that it has no more items.
    SourceExhausted,
    /// The shutdown branch resolved.
    ShutdownReady,
}

/// What the caller does after an event.
#[derive(Debug, PartialEq, Eq)]
pub enum Action<T> {
    /// Bind the item to a duplicate of the processor and submit it to the
    /// scheduler, then go on without waiting for it.
    Dispatch(T),
    /// Nothing to do: wait for the next event.
    Continue,
    /// Leave the loop.
    Stop,
}

/// The branches the driver waits on before its next step.
#[derive(Clone, Copy, Debug, PartialEq, Eq, Structural)]
pub struct WaitSet {
    /// The next item of the source is asked for.
    pub source: bool,
    /// The shutdown branch is polled.
    pub shutdown: bool,
}

/// The whole state of a run: its phase and the two cursors of the race.
#[derive(Clone, Copy, Debug, PartialEq, Eq, Structural)]
pub struct PipelineState {
    /// Whether the loop is running, being left, or over.
    pub phase: Phase,
    /// The source has not reported exhaustion.
    pub source_live: bool,
    /// What is left of the shutdown branch.
    pub shutdown: ShutdownBranch,
}

impl PipelineState {
    /// The state a run starts in, with or without a shutdown notifier.
    pub open spec fn initial(signal: bool) -> PipelineState {
        PipelineState {
            phase: Phase::Running,
            source_live: true,
            shutdown: if signal {
                ShutdownBranch::Armed
            } else {
                ShutdownBranch::Sentinel
            },
        }
    }

    /// The run has left the loop, or is leaving it.
    pub open spec fn halted(self) -> bool {
        self.phase != Phase::Running
    }

    /// A running driver has something left to wait for.
    pub open spec fn wf(self) -> bool {
        self.phase == Phase::Running ==> self.source_live || self.shutdown != ShutdownBranch::Inert
    }

    /// The branches that are polled in this state. A halted driver polls
    /// none, and a spent branch is never polled again.
    pub open spec fn wait_set(self) -> WaitSet {
        WaitSet {
            source: !self.halted() && self.source_live,
            shutdown: !self.halted() && self.shutdown != ShutdownBranch::Inert,
        }
    }

    /// The state in which the run has ended.
    pub open spec fn stopped(self) -> PipelineState {
        PipelineState { phase: Phase::Stopped, ..self }
    }

    /// The state a run is left in when its loop is over: a halted run has
    /// stopped, and a run that was not halted is still running.
    pub open spec fn settled(self) -> PipelineState {
        if self.halted() {
            self.stopped()
        } else {
            self
        }
    }

    /// Once both branches are spent a running driver has nothing left to
    /// wait for, and stops.
    pub open spec fn completed(self) -> PipelineState {
        if !self.halted() && !self.source_live && self.shutdown == ShutdownBranch::Inert {
            self.stopped()
        } else {
            self
        }
    }

    /// The state after one event.
    pub open spec fn next<T>(self, event: Event<T>) -> PipelineState {
        if self.halted() {
            self.stopped()
        } else {
            match event {
                Event::Item(_) => self,
                Event::SourceExhausted => PipelineState { source_live: false, ..self }.completed(),
                Event::ShutdownReady => match self.shutdown {
                    ShutdownBranch::Armed => PipelineState {
                        phase: Phase::Stopping,
                        shutdown: ShutdownBranch::Inert,
                        ..self
                    },
                    ShutdownBranch::Sentinel => PipelineState {
                        shutdown: ShutdownBranch::Inert,
                        ..self
                    }.completed(),
                    ShutdownBranch::Inert => self,
                },
            }
        }
    }

    /// What the caller is told to do with one event. An item is dispatched
    /// exactly when the driver is running and was waiting for the source.
    pub open spec fn action<T>(self, event: Event<T>) -> Action<T> {
        if self.next(event).halted() {
            Action::Stop
        } else {
            match event {
                Event::Item(item) => if self.source_live {
                    Action::Dispatch(item)
                } else {
                    Action::Continue
                },
                _ => Action::Continue,
            }
        }
    }
}

/// The driver of one run. It owns nothing but its own cursors.
pub struct PipelineDriver {
    state: PipelineState,
}

impl View for PipelineDriver {
    type V = PipelineState;

    closed spec fn view(&self) -> PipelineState {
        self.state
    }
}

impl PipelineDriver {
    /// A fresh driver, with a shutdown notifier to wait for or without.
    pub fn new(signal: bool) -> (driver: Self)
        ensures
            driver@ == PipelineState::initial(signal),
            driver@.wf(),
    {
        let shutdown = if signal {
            ShutdownBranch::Armed
        } else {
            ShutdownBranch::Sentinel
        };
        PipelineDriver {
            state: PipelineState { phase: Phase::Running, source_live: true, shutdown },
        }
    }

    /// The phase the run is in.
    pub fn phase(&self) -> (phase: Phase)
        ensures
            phase == self@.phase,
    {
        self.state.phase
    }

    /// Whether the loop has been left.
    pub fn is_halted(&self) -> (halted: bool)
        ensures
            halted == self@.halted(),
    {
        match self.state.phase {
            Phase::Running => false,
            _ => true,
        }
    }

    /// The branches to wait on before the next step.
    pub fn wait_set(&self) -> (wait: WaitSet)
        ensures
            wait == self@.wait_set(),
            self@.wf() && !self@.halted() ==> wait.source || wait.shutdown,
    {
        let running = !self.is_halted();
        let shutdown_live = match self.state.shutdown {
            ShutdownBranch::Inert => false,
            _ => true,
        };
        WaitSet { source: running && self.state.source_live, shutdown: running && shutdown_live }
    }

    /// Takes one event of the race and says what to do about it.
    ///
    /// An item is handed back for dispatch and leaves the driver as it was.
    /// Exhaustion and the resolution of the shutdown branch retire their
    /// branch for good. The armed shutdown branch stops the run; so does
    /// the retirement of the last live branch. An event of a branch that
    /// was not waited on is ignored, and a halted driver only stops.
    pub fn step<T>(&mut self, event: Event<T>) -> (action: Action<T>)
        ensures
            final(self)@ == old(self)@.next(event),
            action == old(self)@.action(event),
            old(self)@.wf() ==> final(self)@.wf(),
    {
        if self.is_halted() {
            self.state.phase = Phase::Stopped;
            return Action::Stop;
        }
        match event {
            Event::Item(item) => {
                if self.state.source_live {
                    Action::Dispatch(item)
                } else {
                    Action::Continue
                }
            },
            Event::SourceExhausted => {
                self.state.source_live = false;
                self.complete()
            },
            Event::ShutdownReady => {
                match self.state.shutdown {
                    ShutdownBranch::Armed => {
                        self.state.shutdown = ShutdownBranch::Inert;
                        self.state.phase = Phase::Stopping;
                        Action::Stop
                    },
                    ShutdownBranch::Sentinel => {
                        self.state.shutdown = ShutdownBranch::Inert;
                        self.complete()
                    },
                    ShutdownBranch::Inert => Action::Continue,
                }
            },
        }
    }

    /// Marks the end of the loop: a driver that was told to stop has
    /// stopped. A driver that is still running stays so.
    pub fn finish(&mut self) -> (phase: Phase)
        ensures
            final(self)@ == old(self)@.settled(),
            phase == final(self)@.phase,
    {
        if self.is_halted() {
            self.state.phase = Phase::Stopped;
        }
        self.state.phase
    }

    /// Stops a running driver that has no live branch left.
    fn complete<T>(&mut self) -> (action: Action<T>)
        requires
            !old(self)@.halted(),
        ensures
            final(self)@ == old(self)@.completed(),
            action == if final(self)@.halted() {
                Action::<T>::Stop
            } else {
                Action::<T>::Continue
            },
    {
        let shutdown_live = match self.state.shutdown {
            ShutdownBranch::Inert => false,
            _ => true,
        };
        if !self.state.source_live && !shutdown_live {
            self.state.phase = Phase::Stopped;
            Action::Stop
        } else {
            Action::Continue
        }
    }
}

/// What a run did with a schedule of events.
#[derive(Debug, PartialEq, Eq)]
pub struct RunReport<T> {
    /// The items handed to the scheduler, in the order of their dispatch.
    pub dispatched: Vec<T>,
    /// How many events of the schedule the run took before its loop ended.
    pub events_read: usize,
    /// `Stopped` if the run ended within the schedule, `Running` if the
    /// schedule ended first.
    pub phase: Phase,
}

/// A pipeline that is set up and not yet run.
#[derive(Clone, Copy, Debug, PartialEq, Eq, Structural)]
pub struct ServicePipeline {
    shutdown_signal: bool,
}

impl ServicePipeline {
    /// Whether a shutdown notifier was supplied.
    pub closed spec fn spec_has_shutdown_signal(&self) -> bool {
        self.shutdown_signal
    }

    /// A pipeline without a shutdown notifier: only the exhaustion of its
    /// source ends its run.
    pub fn new() -> (pipeline: Self)
        ensures
            !pipeline.has_shutdown_signal(),
    {
        ServicePipeline { shutdown_signal: false }
    }

    /// The same pipeline with a shutdown notifier.
    pub fn with_shutdown_signal(self) -> (pipeline: Self)
        ensures
            pipeline.has_shutdown_signal(),
    {
        ServicePipeline { shutdown_signal: true }
    }

    /// Whether a shutdown notifier was supplied.
    #[verifier::when_used_as_spec(spec_has_shutdown_signal)]
    pub fn has_shutdown_signal(&self) -> (signal: bool)
        ensures
            signal == self.has_shutdown_signal(),
    {
        self.shutdown_signal
    }

    /// The driver of a new run of this pipeline.
    pub fn start(&self) -> (driver: PipelineDriver)
        ensures
            driver@ == PipelineState::initial(self.has_shutdown_signal()),
            driver@.wf(),
    {
        PipelineDriver::new(self.shutdown_signal)
    }

    /// Runs the pipeline over a recorded schedule: the events of the race in
    /// the order in which they resolved.
    ///
    /// Events are taken one at a time until the run halts or the schedule
    /// ends. The report lists the dispatched items in dispatch order. The
    /// run itself never fails, whatever becomes of the dispatched work: the
    /// error type is that of the processor, and no value of it is made here.
    pub fn run<T, E>(self, events: Vec<Event<T>>) -> (result: Result<RunReport<T>, E>)
        ensures
            result matches Ok(report) && {
                let start = PipelineState::initial(self.has_shutdown_signal());
                &&& report.dispatched@ == dispatched(start, events@)
                &&& report.events_read == events_read(start, events@)
                &&& report.phase == state_after(start, events@).settled().phase
            },
    {
        let ghost start = PipelineState::initial(self.has_shutdown_signal());
        let ghost all = events@;
        let mut driver = self.start();
        let mut log: Vec<T> = Vec::new();
        let mut read: usize = 0;
        let total = events.len();
        assert(all.skip(0) == all);
        for event in it: events
            invariant
                it.seq() == all,
                all.len() == total,
                read <= it.index(),
                driver@.halted() || read == it.index(),
                state_after(driver@, all.skip(read as int)) == state_after(start, all),
                log@ + dispatched(driver@, all.skip(read as int)) == dispatched(start, all),
                read + events_read(driver@, all.skip(read as int)) == events_read(start, all),
        {
            // Once the run has halted the rest of the schedule is dropped
            // as it stands: the driver is not shown another event.
            if !driver.is_halted() {
                proof {
                    let rest = all.skip(read as int);
                    assert(rest[0] == event);
                    assert(rest.drop_first() == all.skip(read as int + 1));
                }
                read = read + 1;
                match driver.step(event) {
                    Action::Dispatch(item) => {
                        log.push(item);
                    },
                    _ => {},
                }
            }
        }
        let phase = driver.finish();
        Ok(RunReport { dispatched: log, events_read: read, phase })
    }
}

/// The end of one unit of work: a failure is handed back to be reported
/// where it happened, and goes nowhere else. The driver never sees it.
pub fn settle<E>(outcome: Result<(), E>) -> (failure: Option<E>)
    ensures
        failure == match outcome {
            Ok(_) => None::<E>,
            Err(error) => Some(error),
        },
{
    match outcome {
        Ok(_) => None,
        Err(error) => Some(error),
    }
}

} // verus!
