//! Decisions of the window event loop.

use vstd::prelude::*;

verus! {

/// What the window reported, reduced to what the loop acts on.
#[derive(Clone, Copy, Debug, PartialEq, Eq)]
pub enum WindowEvent {
    CloseRequested,
    RedrawRequested,
    Resized { width: u32, height: u32 },
    Other,
}

/// What the loop does about an event.
#[derive(Clone, Copy, Debug, PartialEq, Eq)]
pub enum Action {
    /// Leave the event loop.
    Exit,
    /// Update the scene and render a frame.
    Draw,
    /// Configure the surface for this size.
    Resize { width: u32, height: u32 },
    /// Do nothing.
    Ignore,
}

/// The action that `event` calls for in a program whose scene looks after its
/// own size. `ready` says whether the scene has been set up, which happens
/// once the window exists.
///
/// Every new size goes to the scene, an empty one too: whether a size can be
/// taken over is the scene's decision, which `SurfaceSize::resize` makes.
pub open spec fn action_for(event: WindowEvent, ready: bool) -> Action {
    match event {
        WindowEvent::CloseRequested => Action::Exit,
        WindowEvent::RedrawRequested => if ready {
            Action::Draw
        } else {
            Action::Ignore
        },
        WindowEvent::Resized { width, height } => if ready {
            Action::Resize { width, height }
        } else {
            Action::Ignore
        },
        WindowEvent::Other => Action::Ignore,
    }
}

/// Decides what to do about a window event: a close request ends the loop; a
/// redraw request draws a frame and a new size is handed on as it came, both
/// only once there is a scene.
pub fn window_event(event: WindowEvent, ready: bool) -> (action: Action)
    ensures
        action == action_for(event, ready),
{
    match event {
        WindowEvent::CloseRequested => Action::Exit,
        WindowEvent::RedrawRequested => {
            if ready {
                Action::Draw
            } else {
                Action::Ignore
            }
        },
        WindowEvent::Resized { width, height } => {
            if ready {
                Action::Resize { width, height }
            } else {
                Action::Ignore
            }
        },
        WindowEvent::Other => Action::Ignore,
    }
}

/// The action that `event` calls for in a runner whose renderer takes over
/// any size it is handed. The runner therefore drops a new size without
/// texels itself; every other event is decided as by `action_for`. `ready`
/// says whether the runner has a renderer.
pub open spec fn runner_action_for(event: WindowEvent, ready: bool) -> Action {
    match event {
        WindowEvent::Resized { width, height } => if width > 0 && height > 0 {
            action_for(event, ready)
        } else {
            Action::Ignore
        },
        _ => action_for(event, ready),
    }
}

/// Decides what a runner does about a window event: as `window_event` does,
/// but a new size with a zero width or height is ignored.
pub fn runner_event(event: WindowEvent, ready: bool) -> (action: Action)
    ensures
        action == runner_action_for(event, ready),
{
    match event {
        WindowEvent::Resized { width, height } => {
            if width > 0 && height > 0 {
                window_event(event, ready)
            } else {
                Action::Ignore
            }
        },
        _ => window_event(event, ready),
    }
}

/// A runner never asks for a size without texels, and where the size has
/// texels it decides as a program with a scene does.
pub proof fn lemma_runner_filters_empty_sizes(event: WindowEvent, ready: bool)
    ensures
        runner_action_for(event, ready) matches Action::Resize { width, height } ==> width > 0
            && height > 0,
        !(event matches WindowEvent::Resized { width, height } && (width == 0 || height == 0))
            ==> runner_action_for(event, ready) == action_for(event, ready),
{
}

} // verus!
