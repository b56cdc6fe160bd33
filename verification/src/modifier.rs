use vstd::prelude::*;

verus! {

/// Options that modify game behavior, read at the relevant decision
/// points of the state machines.
#[derive(Clone, Copy, Debug, PartialEq, Eq, Structural)]
pub struct Modifier {
    /// Caps the score at 999999, as the original game does.
    pub cap_score_at_999999: bool,

    /// Allows select + start on the level selection screen to add 20 to
    /// the selected level number, alongside the A + start button
    /// combination from the original game.
    pub select_adds_20_levels: bool,
}

impl Modifier {
    /// The unmodified configuration: score capped at 999999, no extra
    /// level-select shortcut.
    pub fn empty() -> (r: Self)
        ensures
            r == Self::spec_empty(),
    {
        Self { cap_score_at_999999: true, select_adds_20_levels: false }
    }

    /// The unmodified configuration, as a specification value.
    pub open spec fn spec_empty() -> Self {
        Modifier { cap_score_at_999999: true, select_adds_20_levels: false }
    }
}

impl Default for Modifier {
    fn default() -> (r: Self)
        ensures
            r == Self::spec_empty(),
    {
        Self::empty()
    }
}

} // verus!
