//! Pixel-perfect cameras with smooth sub-pixel movement.
//!
//! A scene is rendered at a low resolution into a render target, the
//! viewport, and the viewport is displayed scaled up. This library decides
//! how large the viewport is for a window ([`viewport`]), how it is laid onto
//! the window ([`scaling`]), where the scene's camera and the displayed image
//! sit for a continuous camera position ([`position`]), and when a camera's
//! viewport is made and resized ([`systems`]). It talks to no renderer: the
//! host hands in what it found and carries out what is returned.

use vstd::prelude::*;

pub mod components;
pub mod layers;
pub mod position;
pub mod prelude;
pub mod scaling;
pub mod systems;
pub mod viewport;

verus! {

/// The two phases of a frame, in the order in which they run.
#[derive(Debug, Hash, PartialEq, Eq, Clone, Copy, Structural)]
pub enum CameraSystems {
    /// Binding: cameras that have no viewport yet get one.
    Initialization,
    /// Updating: the viewports of bound cameras are resized and placed.
    Update,
}

impl CameraSystems {
    /// Whether this phase has run when `other` starts: only initialization
    /// comes before anything, and only before the update.
    pub fn precedes(&self, other: &CameraSystems) -> (earlier: bool)
        ensures
            earlier == (*self == CameraSystems::Initialization && *other == CameraSystems::Update),
    {
        match (self, other) {
            (CameraSystems::Initialization, CameraSystems::Update) => true,
            _ => false,
        }
    }
}

} // verus!
