//! The two-valued pane selector: which of the two panes receives navigation
//! commands.

use vstd::prelude::*;

verus! {

/// Which pane is focused. `Wsl` is the left pane, `Windows` the right one.
#[derive(Clone, Copy, Debug, PartialEq, Eq, Structural)]
pub enum Focus {
    Wsl,
    Windows,
}

impl Focus {
    /// The other pane.
    pub open spec fn spec_other(self) -> Focus {
        match self {
            Focus::Wsl => Focus::Windows,
            Focus::Windows => Focus::Wsl,
        }
    }

    /// The other pane; switching focus is a pure toggle.
    pub fn other(self) -> (r: Focus)
        ensures
            r == self.spec_other(),
    {
        match self {
            Focus::Wsl => Focus::Windows,
            Focus::Windows => Focus::Wsl,
        }
    }
}

impl Default for Focus {
    /// The left pane receives commands until focus is first switched.
    fn default() -> (r: Self)
        ensures
            r == Focus::Wsl,
    {
        Focus::Wsl
    }
}

} // verus!
