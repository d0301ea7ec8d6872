//! The decisions of a run over its targets, as a state machine: the caller
//! performs each action on the file system and reports back what happened.
use vstd::prelude::*;
use crate::cli::Options;
use crate::error::RunError;

verus! {

/// What the caller observed since the last action.
pub enum Event {
    /// The run begins.
    Start,
    /// The probed target exists or not, and is a directory or not.
    Probed { exists: bool, is_dir: bool },
    /// The requested description or listing was printed (`None`), or failed
    /// with the given detail.
    Done { error: Option<String> },
}

/// What the caller must do next.
#[derive(Debug)]
pub enum Action {
    /// Observe target `index`, after printing its `path:` header line when
    /// `header` is set.
    Probe { index: usize, header: bool },
    /// Print the description of target `index`; `header` asks for a `path:`
    /// prefix on the same line, `indent` for indented detail.
    ShowInfo { index: usize, header: bool, indent: bool },
    /// Print the listing of directory `index`, indented when `indent` is set.
    ListDir { index: usize, indent: bool },
    /// The run is over: `Ok(true)` for success, `Ok(false)` for failure, or
    /// an error that ends the run.
    Finish { result: Result<bool, RunError> },
}

/// One step: an optional non-fatal error to report, then the next action.
#[derive(Debug)]
pub struct Step {
    pub warning: Option<RunError>,
    pub action: Action,
}

/// Where the run stands.
#[derive(Clone, Copy, PartialEq, Eq, Structural, Debug)]
pub enum Phase {
    Ready,
    Probing,
    /// A description was asked for; `list_after` when a listing follows it.
    Describing { list_after: bool },
    Listing,
    Finished,
}

/// The state of a run over `count` targets.
#[derive(Clone, Copy, Debug)]
pub struct Runner {
    pub options: Options,
    pub count: usize,
    /// The target being handled.
    pub current: usize,
    /// How many targets were handled successfully so far.
    pub succeeded: usize,
    pub phase: Phase,
}

impl Runner {
    /// With exactly one target, its failures end the run with an error; with
    /// several, each is reported and the run goes on.
    pub open spec fn single(self) -> bool {
        self.count == 1
    }

    /// The state's invariant.
    pub open spec fn wf(self) -> bool {
        &&& self.succeeded <= self.count
        &&& (self.phase != Phase::Ready && self.phase != Phase::Finished) ==> self.current
            < self.count && self.succeeded <= self.current
        &&& self.phase == Phase::Ready ==> self.current == 0 && self.succeeded == 0
    }

    /// Whether `ev` is the report that the pending action calls for.
    pub open spec fn accepts_spec(self, ev: Event) -> bool {
        match self.phase {
            Phase::Ready => ev is Start,
            Phase::Probing => ev is Probed,
            Phase::Describing { .. } | Phase::Listing => ev is Done,
            Phase::Finished => false,
        }
    }

    /// The state after the current target is done, and the next action.
    pub open spec fn advance(self, succeeded: usize, warning: Option<RunError>) -> (Runner, Step) {
        if self.current + 1 < self.count {
            (
                Runner { current: (self.current + 1) as usize, succeeded, phase: Phase::Probing, ..self },
                Step { warning, action: Action::Probe { index: (self.current + 1) as usize, header: true } },
            )
        } else {
            (
                Runner { succeeded, phase: Phase::Finished, ..self },
                Step { warning, action: Action::Finish { result: Ok(succeeded > 0) } },
            )
        }
    }

    /// The end of a run.
    pub open spec fn finish(self, result: Result<bool, RunError>) -> (Runner, Step) {
        (Runner { phase: Phase::Finished, ..self }, Step { warning: None, action: Action::Finish { result } })
    }

    /// The transition on an accepted event.
    pub open spec fn transition(self, ev: Event) -> (Runner, Step) {
        let i = self.current;
        let single = self.single();
        match ev {
            Event::Start => if self.count == 0 {
                self.finish(Ok(false))
            } else {
                (
                    Runner { phase: Phase::Probing, ..self },
                    Step { warning: None, action: Action::Probe { index: 0, header: !single } },
                )
            },
            Event::Probed { exists, is_dir } => if !exists {
                if single {
                    self.finish(Err(RunError::NotFound))
                } else {
                    self.advance(self.succeeded, Some(RunError::NotFound))
                }
            } else if !is_dir || self.options.only_info {
                (
                    Runner { phase: Phase::Describing { list_after: false }, ..self },
                    Step { warning: None, action: Action::ShowInfo { index: i, header: single, indent: !single } },
                )
            } else if self.options.append_info {
                (
                    Runner { phase: Phase::Describing { list_after: true }, ..self },
                    Step { warning: None, action: Action::ShowInfo { index: i, header: false, indent: false } },
                )
            } else {
                (
                    Runner { phase: Phase::Listing, ..self },
                    Step { warning: None, action: Action::ListDir { index: i, indent: !single } },
                )
            },
            Event::Done { error } => match self.phase {
                Phase::Describing { list_after: true } => (
                    Runner { phase: Phase::Listing, ..self },
                    Step {
                        warning: match error {
                            Some(d) => Some(RunError::Metadata { detail: d }),
                            None => None,
                        },
                        action: Action::ListDir { index: i, indent: !single },
                    },
                ),
                Phase::Describing { list_after: false } => match error {
                    None => if single {
                        self.finish(Ok(true))
                    } else {
                        self.advance((self.succeeded + 1) as usize, None)
                    },
                    Some(d) => if single {
                        self.finish(Err(RunError::Metadata { detail: d }))
                    } else {
                        self.advance(self.succeeded, Some(RunError::Metadata { detail: d }))
                    },
                },
                _ => match error {
                    None => if single {
                        self.finish(Ok(true))
                    } else {
                        self.advance((self.succeeded + 1) as usize, None)
                    },
                    Some(d) => if single {
                        self.finish(Err(RunError::ReadDir { detail: d }))
                    } else {
                        self.advance(self.succeeded, Some(RunError::ReadDir { detail: d }))
                    },
                },
            },
        }
    }

    /// With several targets, no failure of one ends the run with an error:
    /// the run ends in success exactly when some target succeeded.
    pub proof fn lemma_batch_result(self, ev: Event)
        requires
            self.wf(),
            self.accepts_spec(ev),
            self.count >= 2,
        ensures
            self.transition(ev).1.action matches Action::Finish { result } ==> result == Ok::<
                bool,
                RunError,
            >(self.transition(ev).0.succeeded > 0),
    {
    }

    /// A run over `count` targets with the given options, not yet started.
    pub fn new(options: Options, count: usize) -> (r: Runner)
        ensures
            r.wf(),
            r == (Runner { options, count, current: 0, succeeded: 0, phase: Phase::Ready }),
    {
        Runner { options, count, current: 0, succeeded: 0, phase: Phase::Ready }
    }

    /// Whether `ev` is the report that the pending action calls for.
    pub fn accepts(&self, ev: &Event) -> (r: bool)
        ensures
            r == self.accepts_spec(*ev),
    {
        match self.phase {
            Phase::Ready => matches!(ev, Event::Start),
            Phase::Probing => matches!(ev, Event::Probed { .. }),
            Phase::Describing { .. } | Phase::Listing => matches!(ev, Event::Done { .. }),
            Phase::Finished => false,
        }
    }

    fn advance_exec(&mut self, succeeded: usize, warning: Option<RunError>) -> (r: Step)
        requires
            old(self).wf(),
            old(self).phase != Phase::Ready && old(self).phase != Phase::Finished,
            succeeded <= old(self).current + 1,
        ensures
            (*final(self), r) == old(self).advance(succeeded, warning),
    {
        if self.current + 1 < self.count {
            self.current = self.current + 1;
            self.succeeded = succeeded;
            self.phase = Phase::Probing;
            Step { warning, action: Action::Probe { index: self.current, header: true } }
        } else {
            self.succeeded = succeeded;
            self.phase = Phase::Finished;
            Step { warning, action: Action::Finish { result: Ok(succeeded > 0) } }
        }
    }

    fn finish_exec(&mut self, result: Result<bool, RunError>) -> (r: Step)
        ensures
            (*final(self), r) == old(self).finish(result),
    {
        self.phase = Phase::Finished;
        Step { warning: None, action: Action::Finish { result } }
    }

    /// Takes the report of the pending action and decides the next one.
    pub fn step(&mut self, ev: Event) -> (r: Step)
        requires
            old(self).wf(),
            old(self).accepts_spec(ev),
        ensures
            (*final(self), r) == old(self).transition(ev),
            final(self).wf(),
    {
        let i = self.current;
        let single = self.count == 1;
        match ev {
            Event::Start => {
                if self.count == 0 {
                    self.finish_exec(Ok(false))
                } else {
                    self.phase = Phase::Probing;
                    Step { warning: None, action: Action::Probe { index: 0, header: !single } }
                }
            },
            Event::Probed { exists, is_dir } => {
                if !exists {
                    if single {
                        self.finish_exec(Err(RunError::NotFound))
                    } else {
                        let s = self.succeeded;
                        self.advance_exec(s, Some(RunError::NotFound))
                    }
                } else if !is_dir || self.options.only_info {
                    self.phase = Phase::Describing { list_after: false };
                    Step { warning: None, action: Action::ShowInfo { index: i, header: single, indent: !single } }
                } else if self.options.append_info {
                    self.phase = Phase::Describing { list_after: true };
                    Step { warning: None, action: Action::ShowInfo { index: i, header: false, indent: false } }
                } else {
                    self.phase = Phase::Listing;
                    Step { warning: None, action: Action::ListDir { index: i, indent: !single } }
                }
            },
            Event::Done { error } => {
                if self.phase == (Phase::Describing { list_after: true }) {
                    self.phase = Phase::Listing;
                    let warning = match error {
                        Some(d) => Some(RunError::Metadata { detail: d }),
                        None => None,
                    };
                    Step { warning, action: Action::ListDir { index: i, indent: !single } }
                } else {
                    let describing = self.phase == (Phase::Describing { list_after: false });
                    match error {
                        None => {
                            if single {
                                self.finish_exec(Ok(true))
                            } else {
                                let s = self.succeeded + 1;
                                self.advance_exec(s, None)
                            }
                        },
                        Some(d) => {
                            let e = if describing {
                                RunError::Metadata { detail: d }
                            } else {
                                RunError::ReadDir { detail: d }
                            };
                            if single {
                                self.finish_exec(Err(e))
                            } else {
                                let s = self.succeeded;
                                self.advance_exec(s, Some(e))
                            }
                        },
                    }
                }
            },
        }
    }
}

} // verus!
