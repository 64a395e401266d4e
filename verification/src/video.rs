//! The lifecycle of the video transport, as far as the session depends on it.
//!
//! Capture, encoding and transmission are done by a media framework outside
//! this library. What is kept here is the bookkeeping around it: whether the
//! framework's event loop runs, whether a pipeline may still be started, and
//! the capture formats of the camera.

use vstd::prelude::*;

verus! {

/// The handle of the media framework's event loop. Exactly one owner holds it
/// and passes it to whoever starts or stops the loop.
#[derive(Debug)]
pub struct MainLoop {
    running: bool,
}

impl MainLoop {
    pub closed spec fn running(&self) -> bool {
        self.running
    }

    /// A loop that does not run yet.
    pub fn new() -> (main_loop: Self)
        ensures
            !main_loop.running(),
    {
        MainLoop { running: false }
    }

    pub fn is_running(&self) -> (running: bool)
        ensures
            running == self.running(),
    {
        self.running
    }
}

/// Marks the loop as running. The result says whether the caller has to enter
/// the loop now: it has unless the loop runs already.
pub fn start_main_loop(main_loop: &mut MainLoop) -> (enter: bool)
    ensures
        final(main_loop).running(),
        enter == !old(main_loop).running(),
{
    let enter = !main_loop.running;
    main_loop.running = true;
    enter
}

/// Marks the loop as stopped. The result says whether the caller has to tell
/// the loop to quit: it has if the loop was running.
pub fn stop_main_loop(main_loop: &mut MainLoop) -> (quit: bool)
    ensures
        !final(main_loop).running(),
        quit == old(main_loop).running(),
{
    let quit = main_loop.running;
    main_loop.running = false;
    quit
}

/// What to do when a pipeline is asked to start.
#[derive(Copy, Clone, Debug, PartialEq, Eq)]
pub enum StartStep {
    /// The pipeline was stopped before and cannot be used again.
    Refuse,
    /// Set the pipeline to playing and report the result to
    /// `PipelineLifecycle::finish_start`.
    Play,
}

/// What to do after the attempt to set a pipeline to playing.
#[derive(Copy, Clone, Debug, PartialEq, Eq)]
pub enum StartOutcome {
    Started,
    /// Set the pipeline back to its null state and report the failure.
    RollBack,
}

/// What to do when a pipeline is asked to stop.
#[derive(Copy, Clone, Debug, PartialEq, Eq)]
pub enum StopStep {
    /// The pipeline was stopped before; nothing is left to do.
    AlreadyStopped,
    /// Set the pipeline to its null state.
    Halt,
}

/// What to do with a frame that arrives at a pipeline.
#[derive(Copy, Clone, Debug, PartialEq, Eq)]
pub enum PushStep {
    /// Start the pipeline with the frame's format, then push the frame.
    StartFirst,
    Push,
}

/// Whether a pipeline was started and whether it was stopped.
#[derive(Copy, Clone, Debug, PartialEq, Eq)]
pub struct PipelineLifecycle {
    pub started: bool,
    pub stopped: bool,
}

impl PipelineLifecycle {
    /// A pipeline that was neither started nor stopped.
    pub fn new() -> (lifecycle: Self)
        ensures
            lifecycle == (PipelineLifecycle { started: false, stopped: false }),
    {
        PipelineLifecycle { started: false, stopped: false }
    }

    /// A stopped pipeline is never started again.
    pub fn begin_start(&self) -> (step: StartStep)
        ensures
            step == (if self.stopped {
                StartStep::Refuse
            } else {
                StartStep::Play
            }),
    {
        if self.stopped {
            StartStep::Refuse
        } else {
            StartStep::Play
        }
    }

    /// Records whether the pipeline reached the playing state.
    pub fn finish_start(&mut self, playing: bool) -> (outcome: StartOutcome)
        ensures
            final(self).stopped == old(self).stopped,
            final(self).started == (old(self).started || playing),
            outcome == (if playing {
                StartOutcome::Started
            } else {
                StartOutcome::RollBack
            }),
    {
        if playing {
            self.started = true;
            StartOutcome::Started
        } else {
            StartOutcome::RollBack
        }
    }

    /// Stops the pipeline once; later requests find it stopped.
    pub fn stop(&mut self) -> (step: StopStep)
        ensures
            final(self).stopped,
            final(self).started == old(self).started,
            step == (if old(self).stopped {
                StopStep::AlreadyStopped
            } else {
                StopStep::Halt
            }),
    {
        if self.stopped {
            StopStep::AlreadyStopped
        } else {
            self.stopped = true;
            StopStep::Halt
        }
    }

    /// A pipeline that was not started yet is started by its first frame.
    pub fn before_push(&self) -> (step: PushStep)
        ensures
            step == (if self.started {
                PushStep::Push
            } else {
                PushStep::StartFirst
            }),
    {
        if self.started {
            PushStep::Push
        } else {
            PushStep::StartFirst
        }
    }
}

/// The capture formats of the stereo camera. The camera delivers both views
/// side by side, so a frame is twice as wide as one view.
#[derive(Copy, Clone, Debug, PartialEq, Eq)]
pub enum ZedCamCaps {
    UHD2K15,
    FHD1080P30,
    FHD1080P15,
    HD720P60,
    HD720P30,
    HD720P15,
    NOHD100,
    NOHD60,
    NOHD30,
    NOHD15,
}

/// A capture format as numbers.
#[derive(Copy, Clone, Debug, PartialEq, Eq)]
pub struct CaptureFormat {
    pub width: i32,
    pub height: i32,
    pub frames_per_second: i32,
}

impl ZedCamCaps {
    /// Frame size and frame rate of each format.
    pub open spec fn format(self) -> CaptureFormat {
        match self {
            ZedCamCaps::UHD2K15 => CaptureFormat {
                width: 4416,
                height: 1242,
                frames_per_second: 15,
            },
            ZedCamCaps::FHD1080P30 => CaptureFormat {
                width: 3840,
                height: 1080,
                frames_per_second: 30,
            },
            ZedCamCaps::FHD1080P15 => CaptureFormat {
                width: 3840,
                height: 1080,
                frames_per_second: 15,
            },
            ZedCamCaps::HD720P60 => CaptureFormat {
                width: 2560,
                height: 720,
                frames_per_second: 60,
            },
            ZedCamCaps::HD720P30 => CaptureFormat {
                width: 2560,
                height: 720,
                frames_per_second: 30,
            },
            ZedCamCaps::HD720P15 => CaptureFormat {
                width: 2560,
                height: 720,
                frames_per_second: 15,
            },
            ZedCamCaps::NOHD100 => CaptureFormat {
                width: 1344,
                height: 376,
                frames_per_second: 100,
            },
            ZedCamCaps::NOHD60 => CaptureFormat { width: 1344, height: 376, frames_per_second: 60 },
            ZedCamCaps::NOHD30 => CaptureFormat { width: 1344, height: 376, frames_per_second: 30 },
            ZedCamCaps::NOHD15 => CaptureFormat { width: 1344, height: 376, frames_per_second: 15 },
        }
    }

    pub fn get_caps(&self) -> (format: CaptureFormat)
        ensures
            format == self.format(),
    {
        let (width, height): (i32, i32) = match self {
            ZedCamCaps::UHD2K15 => (4416, 1242),
            ZedCamCaps::FHD1080P30 | ZedCamCaps::FHD1080P15 => (3840, 1080),
            ZedCamCaps::HD720P60 | ZedCamCaps::HD720P30 | ZedCamCaps::HD720P15 => (2560, 720),
            ZedCamCaps::NOHD100
            | ZedCamCaps::NOHD60
            | ZedCamCaps::NOHD30
            | ZedCamCaps::NOHD15 => (1344, 376),
        };
        let frames_per_second: i32 = match self {
            ZedCamCaps::NOHD100 => 100,
            ZedCamCaps::FHD1080P30 | ZedCamCaps::HD720P30 | ZedCamCaps::NOHD30 => 30,
            ZedCamCaps::HD720P60 | ZedCamCaps::NOHD60 => 60,
            ZedCamCaps::UHD2K15
            | ZedCamCaps::FHD1080P15
            | ZedCamCaps::HD720P15
            | ZedCamCaps::NOHD15 => 15,
        };
        CaptureFormat { width, height, frames_per_second }
    }
}

} // verus!
