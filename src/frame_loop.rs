//! Decisions of the frame loop: what follows a presented frame, when logs
//! are written, and what keys ask for.
use vstd::prelude::*;
use crate::renderer::RendererCommand;

verus! {

/// Logs are written at most this often: a whole number of milliseconds
/// for 24 writes a second.
pub const MIN_LOG_INTERVAL_NANOS: u64 = 41_000_000;

/// What presenting a frame reported.
#[derive(Clone, Copy, Debug, PartialEq, Eq, Structural)]
pub enum SurfaceStatus {
    Presented,
    Lost,
    Outdated,
    Timeout,
    OutOfMemory,
}

/// What the loop does after a frame.
#[derive(Clone, Copy, Debug, PartialEq, Eq, Structural)]
pub enum FrameOutcome {
    /// Go on with the next frame.
    Continue,
    /// Reconfigure the surface and its attachments, then go on.
    Reconfigure,
    /// Log the condition and skip; the next frame resolves it.
    LogAndSkip,
    /// Stop cleanly.
    Exit,
}

/// A key the renderer, the camera controller or the loop reacts to.
#[derive(Clone, Copy, Debug, PartialEq, Eq, Structural)]
pub enum Key {
    W,
    A,
    S,
    D,
    Up,
    Down,
    Left,
    Right,
    Space,
    LControl,
    Z,
    X,
    E,
    R,
    T,
    Y,
    P,
    Escape,
    Other,
}

/// A lost surface is reconfigured, running out of device memory ends the
/// loop, and the transient errors are logged and the frame skipped.
pub fn frame_outcome(status: SurfaceStatus) -> (r: FrameOutcome)
    ensures
        r == match status {
            SurfaceStatus::Presented => FrameOutcome::Continue,
            SurfaceStatus::Lost => FrameOutcome::Reconfigure,
            SurfaceStatus::OutOfMemory => FrameOutcome::Exit,
            SurfaceStatus::Outdated | SurfaceStatus::Timeout => FrameOutcome::LogAndSkip,
        },
{
    match status {
        SurfaceStatus::Presented => FrameOutcome::Continue,
        SurfaceStatus::Lost => FrameOutcome::Reconfigure,
        SurfaceStatus::OutOfMemory => FrameOutcome::Exit,
        SurfaceStatus::Outdated | SurfaceStatus::Timeout => FrameOutcome::LogAndSkip,
    }
}

/// Whether to write the logs now, given the time since they were last
/// written (`None` if never).
pub fn should_write_logs(nanos_since_last: Option<u64>) -> (r: bool)
    ensures
        r == match nanos_since_last {
            None => true,
            Some(n) => n > MIN_LOG_INTERVAL_NANOS,
        },
{
    match nanos_since_last {
        None => true,
        Some(n) => n > MIN_LOG_INTERVAL_NANOS,
    }
}

/// The settings change a released key asks for.
pub fn command_for_key_release(key: Key) -> (r: Option<RendererCommand>)
    ensures
        r == match key {
            Key::Z => Some(RendererCommand::DecreaseRenderScale),
            Key::X => Some(RendererCommand::IncreaseRenderScale),
            Key::E => Some(RendererCommand::DecreaseExposure),
            Key::R => Some(RendererCommand::IncreaseExposure),
            Key::T => Some(RendererCommand::DecreaseBloomThreshold),
            Key::Y => Some(RendererCommand::IncreaseBloomThreshold),
            Key::P => Some(RendererCommand::ToggleAnimations),
            _ => None,
        },
{
    match key {
        Key::Z => Some(RendererCommand::DecreaseRenderScale),
        Key::X => Some(RendererCommand::IncreaseRenderScale),
        Key::E => Some(RendererCommand::DecreaseExposure),
        Key::R => Some(RendererCommand::IncreaseExposure),
        Key::T => Some(RendererCommand::DecreaseBloomThreshold),
        Key::Y => Some(RendererCommand::IncreaseBloomThreshold),
        Key::P => Some(RendererCommand::ToggleAnimations),
        _ => None,
    }
}

/// Whether a key press ends the loop.
pub fn is_exit_key(key: Key) -> (r: bool)
    ensures
        r == (key == Key::Escape),
{
    match key {
        Key::Escape => true,
        _ => false,
    }
}

} // verus!
