//! Marker types for entities the surrounding application distinguishes.

use vstd::prelude::*;

verus! {

/// Marks an entity as the player-controlled spacecraft.
#[derive(Clone, Copy, Debug)]
pub struct User;

/// Marks UI elements that display user information.
#[derive(Clone, Copy, Debug)]
pub struct UserInfoUi;

} // verus!
