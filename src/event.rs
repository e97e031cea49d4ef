//! Low-level events produced by the terminal driver.

use vstd::prelude::*;
use crate::key::Key;

verus! {

/// One event of the terminal driver's event stream.
#[derive(Debug)]
pub enum Event {
    Init,
    Quit,
    Error,
    Closed,
    Tick,
    Render,
    FocusGained,
    FocusLost,
    Paste(String),
    Key(Key),
    Mouse,
    Resize(u16, u16),
}

} // verus!
