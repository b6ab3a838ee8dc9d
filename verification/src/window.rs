//! The frame-loop controller.
//!
//! The platform window, surface and context are external collaborators:
//! the controller only decides. Fed the platform's events (resume,
//! redraw, resize, close request), it updates the frame state — count,
//! reported frame time, pacing — and returns the [`LoopAction`]s the
//! backend must perform. Times are measured in integer microseconds.

use vstd::prelude::*;

use crate::driver::DriverCall;

verus! {

/// Window configuration options, consumed when the backend creates the
/// platform window.
pub struct WindowConfig {
    pub size: (u32, u32),
    pub position: (i32, i32),
    pub title: String,
    pub fullscreen: bool,
    pub decorated: bool,
    pub translucent: bool,
    pub clickthrough: bool,
    pub always_on_top: bool,
    pub hide_cursor: bool,
    pub vsync: bool,
    /// Optional frames-per-second cap; must be positive when present.
    pub framerate: Option<u32>,
}

impl Default for WindowConfig {
    /// A decorated 800x600 window without a framerate cap.
    fn default() -> (c: WindowConfig)
        ensures
            c.size == (800u32, 600u32),
            c.position == (100i32, 100i32),
            c.title@ == "FerrousGL Window"@,
            !c.fullscreen,
            c.decorated,
            !c.translucent,
            !c.clickthrough,
            !c.always_on_top,
            !c.hide_cursor,
            !c.vsync,
            c.framerate is None,
    {
        WindowConfig {
            size: (800, 600),
            position: (100, 100),
            title: String::from_str("FerrousGL Window"),
            fullscreen: false,
            decorated: true,
            translucent: false,
            clickthrough: false,
            always_on_top: false,
            hide_cursor: false,
            vsync: false,
            framerate: None,
        }
    }
}

/// What the driver does on a GPU reset or fault.
#[derive(Clone, Copy, Debug, PartialEq, Eq)]
pub enum RobustnessPolicy {
    NotRobust,
    NoError,
    RobustNoResetNotification,
    RobustLoseContextOnReset,
}

/// Graphics-context configuration options: the requested context version
/// and robustness policy.
#[derive(Clone, Copy, Debug, PartialEq, Eq)]
pub struct GlConfig {
    pub version_major: u8,
    pub version_minor: u8,
    pub robustness: RobustnessPolicy,
}

impl Default for GlConfig {
    /// Version 4.6, losing the context on reset.
    fn default() -> (c: GlConfig)
        ensures
            c.version_major == 4,
            c.version_minor == 6,
            c.robustness == RobustnessPolicy::RobustLoseContextOnReset,
    {
        GlConfig {
            version_major: 4,
            version_minor: 6,
            robustness: RobustnessPolicy::RobustLoseContextOnReset,
        }
    }
}

/// One platform-side step the backend must perform for the controller.
#[derive(Clone, Copy, Debug, PartialEq, Eq)]
pub enum LoopAction {
    /// Acquire the window, surface and context, and load the driver's
    /// functions: performed exactly once, on the first resume.
    InitializeGraphics,
    /// Schedule the next redraw, keeping the loop alive.
    RequestRedraw,
    /// Present the frame: swap the buffers.
    SwapBuffers,
    /// Resize the surface to the new dimensions.
    ResizeSurface { width: u32, height: u32 },
    /// Block for this many microseconds to hold the frame budget.
    Sleep { micros: u64 },
    /// Leave the event loop; no further callbacks run.
    ExitLoop,
}

/// The abstract state of the frame loop.
pub ghost struct FrameLoopView {
    pub initialized: bool,
    pub running: bool,
    pub frame_count: int,
    pub frame_time_micros: int,
    pub framerate: Option<u32>,
}

/// The per-frame budget in microseconds, or 0 when no framerate cap is
/// configured.
pub open spec fn frame_budget(framerate: Option<u32>) -> int {
    match framerate {
        Some(f) => 1_000_000int / f as int,
        None => 0,
    }
}

/// The frame time the controller reports: the true elapsed time, but
/// never below the configured budget.
pub open spec fn paced_frame_time(framerate: Option<u32>, elapsed: int) -> int {
    if elapsed < frame_budget(framerate) {
        frame_budget(framerate)
    } else {
        elapsed
    }
}

/// How long the controller blocks before the frame runs: the remainder
/// of the budget, or nothing once the budget is spent.
pub open spec fn frame_sleep(framerate: Option<u32>, elapsed: int) -> int {
    if elapsed < frame_budget(framerate) {
        frame_budget(framerate) - elapsed
    } else {
        0
    }
}

/// The frame-loop controller: running flag, frame count, the previous
/// frame's reported duration, and the configured framerate cap.
pub struct FrameLoop {
    initialized: bool,
    running: bool,
    frame_count: i32,
    frame_time_micros: u64,
    framerate: Option<u32>,
}

impl View for FrameLoop {
    type V = FrameLoopView;

    closed spec fn view(&self) -> FrameLoopView {
        FrameLoopView {
            initialized: self.initialized,
            running: self.running,
            frame_count: self.frame_count as int,
            frame_time_micros: self.frame_time_micros as int,
            framerate: self.framerate,
        }
    }
}

impl FrameLoop {
    /// The frame count never goes negative and a configured framerate is
    /// positive.
    pub open spec fn wf(self) -> bool {
        &&& self@.frame_count >= 0
        &&& (self@.framerate matches Some(f) ==> f >= 1)
    }

    /// A fresh controller: not yet initialized, running, on frame zero.
    pub fn new(framerate: Option<u32>) -> (fl: FrameLoop)
        requires
            framerate matches Some(f) ==> f >= 1,
        ensures
            fl.wf(),
            !fl@.initialized,
            fl@.running,
            fl@.frame_count == 0,
            fl@.frame_time_micros == 0,
            fl@.framerate == framerate,
    {
        FrameLoop {
            initialized: false,
            running: true,
            frame_count: 0,
            frame_time_micros: 0,
            framerate,
        }
    }

    /// Whether the close request has not yet arrived.
    pub fn is_running(&self) -> (b: bool)
        ensures
            b == self@.running,
    {
        self.running
    }

    /// Whether the window, surface and context have been acquired.
    pub fn is_initialized(&self) -> (b: bool)
        ensures
            b == self@.initialized,
    {
        self.initialized
    }

    /// How many frames have completed so far.
    pub fn get_frames_count(&self) -> (n: i32)
        ensures
            n as int == self@.frame_count,
    {
        self.frame_count
    }

    /// The previous frame's reported duration in microseconds.
    pub fn get_frame_time(&self) -> (t: u64)
        ensures
            t as int == self@.frame_time_micros,
    {
        self.frame_time_micros
    }

    /// True exactly while no frame has completed: lets a single callback
    /// serve as both setup and steady-state render logic.
    pub fn just_initialized(&self) -> (b: bool)
        ensures
            b == (self@.frame_count == 0),
    {
        self.frame_count == 0
    }

    /// The platform's resume signal. The first one acquires the
    /// graphics stack and requests the initial redraw; every later one
    /// does nothing, so the transition happens exactly once.
    pub fn on_resumed(&mut self) -> (actions: Vec<LoopAction>)
        requires
            old(self).wf(),
        ensures
            final(self).wf(),
            old(self)@.initialized ==> actions@.len() == 0 && *final(self) == *old(self),
            !old(self)@.initialized ==> {
                &&& actions@ == seq![LoopAction::InitializeGraphics, LoopAction::RequestRedraw]
                &&& final(self)@ == (FrameLoopView { initialized: true, ..old(self)@ })
            },
    {
        let mut actions: Vec<LoopAction> = Vec::new();
        if !self.initialized {
            self.initialized = true;
            actions.push(LoopAction::InitializeGraphics);
            actions.push(LoopAction::RequestRedraw);
            proof {
                assert(actions@ =~= seq![
                    LoopAction::InitializeGraphics,
                    LoopAction::RequestRedraw,
                ]);
            }
        }
        actions
    }

    /// Start one frame, `elapsed_micros` after the previous one. With a
    /// framerate cap and time left in the budget, the controller blocks
    /// for the remainder and reports exactly the budget; otherwise it
    /// reports the true elapsed time. Returns how long to sleep.
    pub fn begin_frame(&mut self, elapsed_micros: u64) -> (sleep_micros: u64)
        requires
            old(self).wf(),
        ensures
            final(self).wf(),
            sleep_micros as int == frame_sleep(old(self)@.framerate, elapsed_micros as int),
            final(self)@.frame_time_micros == paced_frame_time(
                old(self)@.framerate,
                elapsed_micros as int,
            ),
            final(self)@.frame_time_micros >= frame_budget(old(self)@.framerate),
            final(self)@ == (FrameLoopView {
                frame_time_micros: final(self)@.frame_time_micros,
                ..old(self)@
            }),
    {
        match self.framerate {
            Some(fps) => {
                let budget: u64 = 1_000_000u64 / (fps as u64);
                if elapsed_micros < budget {
                    self.frame_time_micros = budget;
                    budget - elapsed_micros
                } else {
                    self.frame_time_micros = elapsed_micros;
                    0
                }
            },
            None => {
                self.frame_time_micros = elapsed_micros;
                0
            },
        }
    }

    /// Finish one frame: present it, count it, and schedule the next
    /// redraw.
    pub fn end_frame(&mut self) -> (actions: Vec<LoopAction>)
        requires
            old(self).wf(),
            old(self)@.frame_count < i32::MAX,
        ensures
            final(self).wf(),
            final(self)@ == (FrameLoopView { frame_count: old(self)@.frame_count + 1, ..old(
                self,
            )@ }),
            actions@ == seq![LoopAction::SwapBuffers, LoopAction::RequestRedraw],
    {
        self.frame_count = self.frame_count + 1;
        let mut actions: Vec<LoopAction> = Vec::new();
        actions.push(LoopAction::SwapBuffers);
        actions.push(LoopAction::RequestRedraw);
        proof {
            assert(actions@ =~= seq![LoopAction::SwapBuffers, LoopAction::RequestRedraw]);
        }
        actions
    }

    /// The platform's resize event: resize the surface, or nothing when
    /// no surface exists yet.
    pub fn on_resized(&self, width: u32, height: u32) -> (action: Option<LoopAction>)
        ensures
            self@.initialized ==> action == Some(LoopAction::ResizeSurface { width, height }),
            !self@.initialized ==> action is None,
    {
        if self.initialized {
            Some(LoopAction::ResizeSurface { width, height })
        } else {
            None
        }
    }

    /// Cover a surface of the given size with the viewport, or nothing
    /// when no window exists yet.
    pub fn set_opengl_viewport(&self, size: (u32, u32)) -> (r: Option<DriverCall>)
        ensures
            self@.initialized ==> r == Some(
                DriverCall::SetViewport { width: size.0, height: size.1 },
            ),
            !self@.initialized ==> r is None,
    {
        if self.initialized {
            Some(DriverCall::SetViewport { width: size.0, height: size.1 })
        } else {
            None
        }
    }

    /// Set the clear color (components as 32-bit float bit patterns),
    /// enable depth testing, and clear both the color and the depth
    /// buffer.
    pub fn clear_color(&self, red: u32, green: u32, blue: u32, alpha: u32) -> (calls: Vec<
        DriverCall,
    >)
        ensures
            calls@ == seq![
                DriverCall::SetClearColor { red, green, blue, alpha },
                DriverCall::EnableDepthTest,
                DriverCall::ClearColorAndDepthBuffers,
            ],
    {
        let mut calls: Vec<DriverCall> = Vec::new();
        calls.push(DriverCall::SetClearColor { red, green, blue, alpha });
        calls.push(DriverCall::EnableDepthTest);
        calls.push(DriverCall::ClearColorAndDepthBuffers);
        proof {
            assert(calls@ =~= seq![
                DriverCall::SetClearColor { red, green, blue, alpha },
                DriverCall::EnableDepthTest,
                DriverCall::ClearColorAndDepthBuffers,
            ]);
        }
        calls
    }

    /// The platform's close request: stop running and leave the loop.
    /// No further callback runs after this.
    pub fn on_close_requested(&mut self) -> (actions: Vec<LoopAction>)
        requires
            old(self).wf(),
        ensures
            final(self).wf(),
            final(self)@ == (FrameLoopView { running: false, ..old(self)@ }),
            actions@ == seq![LoopAction::ExitLoop],
    {
        self.running = false;
        let mut actions: Vec<LoopAction> = Vec::new();
        actions.push(LoopAction::ExitLoop);
        proof {
            assert(actions@ =~= seq![LoopAction::ExitLoop]);
        }
        actions
    }
}

/// Law: with a configured framerate the reported frame time never falls
/// below the per-frame budget; a frame whose true elapsed time is within
/// the budget reports exactly the budget, and a slower frame reports its
/// true elapsed time.
pub proof fn lemma_frame_pacing(fps: u32, elapsed: int)
    requires
        fps >= 1,
        elapsed >= 0,
    ensures
        paced_frame_time(Some(fps), elapsed) >= frame_budget(Some(fps)),
        elapsed <= frame_budget(Some(fps)) ==> paced_frame_time(Some(fps), elapsed) == frame_budget(
            Some(fps),
        ),
        elapsed > frame_budget(Some(fps)) ==> paced_frame_time(Some(fps), elapsed) == elapsed,
{
}

/// Law: the controller is just-initialized exactly on frame count zero,
/// and only before the first frame completes: after any completed frame
/// the count is positive and never returns to zero, since nothing
/// decreases it.
pub proof fn lemma_just_initialized_exactly_once(before: FrameLoopView, after: FrameLoopView)
    requires
        before.frame_count >= 0,
        after.frame_count == before.frame_count + 1,
    ensures
        after.frame_count != 0,
{
}

} // verus!
