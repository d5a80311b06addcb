//! The driver: the event-loop state machine. It turns each platform event
//! and each presentation outcome into the next driver state and a directive
//! for the caller, which owns the window and the GPU queue and performs the
//! outside work.

use vstd::prelude::*;

use crate::config::SurfaceConfig;
use crate::presenter::FrameSpec;
use crate::presenter::Presenter;
use crate::presenter::PresentDecision;
use crate::presenter::PresentOutcome;
use crate::presenter::spec_decide;

verus! {

/// Process exit code on a close request or an escape key press.
pub const EXIT_OK: u32 = 0;

/// Process exit code on a fatal out-of-memory presentation outcome.
pub const EXIT_FATAL: u32 = 1;

/// A pressed key, reduced to what the driver reads of it.
#[derive(Clone, Copy, PartialEq, Eq, Structural, Debug)]
pub enum Key {
    Escape,
    Other,
}

/// One normalized platform event, in arrival order.
#[derive(Clone, Copy, PartialEq, Eq, Structural, Debug)]
pub enum Event {
    CloseRequested,
    KeyPressed(Key),
    Resized(u32, u32),
    RedrawRequested,
}

/// What the caller must do next. A `RenderFrame` directive also stands for
/// requesting the next redraw tick, so that the loop keeps running.
#[derive(Clone, Copy, PartialEq, Eq, Structural, Debug)]
pub enum Directive {
    /// Nothing to do.
    Idle,
    /// Configure the swap surface to this configuration before the next
    /// present attempt.
    Configure(SurfaceConfig),
    /// Run one acquire-clear-submit-present cycle as the frame describes,
    /// then report the outcome through `handle_present_outcome`.
    RenderFrame(FrameSpec),
    /// Leave the event loop and exit the process with this code.
    Exit(u32),
}

/// The driver's whole state: the presenter it dispatches to, and whether the
/// loop has been told to exit, with which code.
#[derive(Clone, Copy, PartialEq, Eq, Structural, Debug)]
pub struct Driver {
    pub presenter: Presenter,
    pub exited: bool,
    pub exit_code: u32,
}

/// The state and directive after one platform event. Once exited, every
/// input is ignored.
pub open spec fn spec_handle_event(s: Driver, ev: Event) -> (Driver, Directive) {
    if s.exited {
        (s, Directive::Idle)
    } else {
        match ev {
            Event::CloseRequested => (
                Driver { exited: true, exit_code: EXIT_OK, ..s },
                Directive::Exit(EXIT_OK),
            ),
            Event::KeyPressed(key) => match key {
                Key::Escape => (
                    Driver { exited: true, exit_code: EXIT_OK, ..s },
                    Directive::Exit(EXIT_OK),
                ),
                Key::Other => (s, Directive::Idle),
            },
            Event::Resized(width, height) => if width > 0 && height > 0 {
                let s2 = Driver { presenter: s.presenter.spec_reconfigure(width, height), ..s };
                (s2, Directive::Configure(s2.presenter.config))
            } else {
                (s, Directive::Idle)
            },
            Event::RedrawRequested => (s, Directive::RenderFrame(s.presenter.spec_frame())),
        }
    }
}

/// The state and directive after one presentation outcome. Once exited,
/// every input is ignored.
pub open spec fn spec_handle_outcome(s: Driver, outcome: PresentOutcome) -> (Driver, Directive) {
    if s.exited {
        (s, Directive::Idle)
    } else {
        match spec_decide(outcome) {
            PresentDecision::Proceed => (s, Directive::Idle),
            PresentDecision::Reconfigure => (s, Directive::Configure(s.presenter.config)),
            PresentDecision::Fatal => (
                Driver { exited: true, exit_code: EXIT_FATAL, ..s },
                Directive::Exit(EXIT_FATAL),
            ),
        }
    }
}

impl Driver {
    pub open spec fn wf(self) -> bool {
        self.presenter.wf()
    }

    /// Starts the loop around an initialized presenter.
    pub fn new(presenter: Presenter) -> (d: Driver)
        requires
            presenter.wf(),
        ensures
            d.wf(),
            d.presenter == presenter,
            !d.exited,
            d.exit_code == EXIT_OK,
    {
        Driver { presenter, exited: false, exit_code: EXIT_OK }
    }

    /// Dispatches one platform event: exits on a close request or the escape
    /// key, applies a resize to the presenter (ignoring zero dimensions), and
    /// answers a redraw tick with the frame to render.
    pub fn handle_event(&mut self, ev: Event) -> (d: Directive)
        requires
            old(self).wf(),
        ensures
            final(self).wf(),
            (*final(self), d) == spec_handle_event(*old(self), ev),
    {
        if self.exited {
            Directive::Idle
        } else {
            match ev {
                Event::CloseRequested => {
                    self.exited = true;
                    self.exit_code = EXIT_OK;
                    Directive::Exit(EXIT_OK)
                },
                Event::KeyPressed(key) => match key {
                    Key::Escape => {
                        self.exited = true;
                        self.exit_code = EXIT_OK;
                        Directive::Exit(EXIT_OK)
                    },
                    Key::Other => Directive::Idle,
                },
                Event::Resized(width, height) => {
                    let changed = self.presenter.reconfigure(width, height);
                    if changed {
                        Directive::Configure(self.presenter.config)
                    } else {
                        Directive::Idle
                    }
                },
                Event::RedrawRequested => Directive::RenderFrame(self.presenter.begin_frame()),
            }
        }
    }

    /// Dispatches one presentation outcome: carries on after success or a
    /// timeout, orders a reconfiguration with the last known size after a
    /// lost or outdated surface, and exits fatally on out-of-memory.
    pub fn handle_present_outcome(&mut self, outcome: PresentOutcome) -> (d: Directive)
        requires
            old(self).wf(),
        ensures
            final(self).wf(),
            (*final(self), d) == spec_handle_outcome(*old(self), outcome),
    {
        if self.exited {
            Directive::Idle
        } else {
            match crate::presenter::decide_present_outcome(outcome) {
                PresentDecision::Proceed => Directive::Idle,
                PresentDecision::Reconfigure => Directive::Configure(self.presenter.config),
                PresentDecision::Fatal => {
                    self.exited = true;
                    self.exit_code = EXIT_FATAL;
                    Directive::Exit(EXIT_FATAL)
                },
            }
        }
    }
}

} // verus!
