//! The application's modes, one per screen.

use vstd::prelude::*;

verus! {

/// A screen mode of the application.
#[derive(Debug, Clone, Copy, PartialEq, Eq, Structural, Hash)]
pub enum Mode {
    Home,
    Projects,
    Deployments,
}

/// The display name of a mode.
pub open spec fn mode_name(m: Mode) -> Seq<char> {
    match m {
        Mode::Home => "Home"@,
        Mode::Projects => "Projects"@,
        Mode::Deployments => "Deployments"@,
    }
}

impl Default for Mode {
    fn default() -> (r: Mode)
        ensures
            r == Mode::Home,
    {
        Mode::Home
    }
}

impl Mode {
    /// The display name of the mode.
    pub fn as_str(&self) -> (r: &'static str)
        ensures
            r@ == mode_name(*self),
    {
        match self {
            Mode::Home => "Home",
            Mode::Projects => "Projects",
            Mode::Deployments => "Deployments",
        }
    }
}

} // verus!
