//! The one piece of view state: whether the dropdown panel is shown.
use vstd::prelude::*;

verus! {

/// Visibility of the dropdown panel of one navbar instance.
#[derive(Clone, Copy, Debug, PartialEq, Eq, Structural)]
pub enum DropdownState {
    /// The panel is hidden; every instance starts here.
    Collapsed,
    /// The panel is shown.
    Expanded,
}

/// The state that a toggle click leads to.
pub open spec fn toggled(s: DropdownState) -> DropdownState {
    match s {
        DropdownState::Collapsed => DropdownState::Expanded,
        DropdownState::Expanded => DropdownState::Collapsed,
    }
}

/// Whether the panel is shown in state `s`.
pub open spec fn visible(s: DropdownState) -> bool {
    s == DropdownState::Expanded
}

/// The state after `n` toggle clicks from `s`.
pub open spec fn toggled_times(s: DropdownState, n: nat) -> DropdownState
    decreases n,
{
    if n == 0 {
        s
    } else {
        toggled(toggled_times(s, (n - 1) as nat))
    }
}

impl DropdownState {
    /// The state of a freshly mounted navbar.
    pub fn initial() -> (r: Self)
        ensures
            r == DropdownState::Collapsed,
    {
        DropdownState::Collapsed
    }

    /// The state after one toggle click.
    pub fn toggle(self) -> (r: Self)
        ensures
            r == toggled(self),
            visible(r) == !visible(self),
    {
        match self {
            DropdownState::Collapsed => DropdownState::Expanded,
            DropdownState::Expanded => DropdownState::Collapsed,
        }
    }

    /// Whether the dropdown panel is shown.
    pub fn is_visible(self) -> (r: bool)
        ensures
            r == visible(self),
    {
        match self {
            DropdownState::Collapsed => false,
            DropdownState::Expanded => true,
        }
    }

    /// The state whose visibility is `b`.
    pub fn from_visible(b: bool) -> (r: Self)
        ensures
            visible(r) == b,
    {
        if b {
            DropdownState::Expanded
        } else {
            DropdownState::Collapsed
        }
    }
}

/// Two toggle clicks restore any state, and one click from the initial
/// state shows the panel.
pub proof fn lemma_toggle_twice(s: DropdownState)
    ensures
        toggled(toggled(s)) == s,
        toggled_times(DropdownState::Collapsed, 2) == DropdownState::Collapsed,
        toggled_times(DropdownState::Collapsed, 1) == DropdownState::Expanded,
        visible(toggled(DropdownState::Collapsed)),
        !visible(toggled(toggled(DropdownState::Collapsed))),
{
    reveal_with_fuel(toggled_times, 3);
}

/// After `n` toggle clicks the panel is shown exactly when it was shown
/// before and `n` is even, or hidden before and `n` is odd.
pub proof fn lemma_toggle_parity(s: DropdownState, n: nat)
    ensures
        toggled_times(s, n) == (if n % 2 == 0 { s } else { toggled(s) }),
    decreases n,
{
    if n > 0 {
        lemma_toggle_parity(s, (n - 1) as nat);
    }
}

} // verus!
