//! Play-state switching of the game client.
use vstd::prelude::*;

verus! {

/// What the player is doing while in game.
#[derive(PartialEq, Eq, Structural, Clone, Copy, Debug, Hash)]
pub enum PlayState {
    Main,
    StaffRules,
    State,
    Disabled,
}

impl Default for PlayState {
    /// A client starts with play disabled.
    fn default() -> (r: PlayState)
        ensures
            r == PlayState::Disabled,
    {
        PlayState::Disabled
    }
}

/// Text typed into the chat window.
pub struct TextEditDemo {
    pub input: String,
}

impl Default for TextEditDemo {
    /// The chat input starts empty.
    fn default() -> (r: TextEditDemo)
        ensures
            r.input@ == Seq::<char>::empty(),
    {
        TextEditDemo { input: String::new() }
    }
}

/// How the window holds the cursor.
#[derive(PartialEq, Eq, Structural, Clone, Copy, Debug, Hash)]
pub enum CursorGrab {
    Free,
    Confined,
    Locked,
}

/// New cursor settings for the window.
#[derive(PartialEq, Eq, Structural, Clone, Copy, Debug)]
pub struct CursorUpdate {
    pub grab: CursorGrab,
    pub visible: bool,
}

/// What toggling the crafting-rules view does: the next play state, whether
/// the character controller takes input, and the cursor change, if any.
#[derive(PartialEq, Eq, Structural, Clone, Copy, Debug)]
pub struct StaffRulesToggle {
    pub next: PlayState,
    pub controller_enabled: bool,
    pub cursor: Option<CursorUpdate>,
}

/// Toggles between playing and the crafting-rules view. Leaving the view
/// gives input back to the controller and confines a free cursor, hidden;
/// opening it takes input from the controller and frees a held cursor, shown.
pub fn toggle_play_staff_rules(state: PlayState, grab: CursorGrab) -> (r: StaffRulesToggle)
    ensures
        state == PlayState::StaffRules ==> r == (StaffRulesToggle {
            next: PlayState::Main,
            controller_enabled: true,
            cursor: if grab == CursorGrab::Free {
                Some(CursorUpdate { grab: CursorGrab::Confined, visible: false })
            } else {
                None
            },
        }),
        state != PlayState::StaffRules ==> r == (StaffRulesToggle {
            next: PlayState::StaffRules,
            controller_enabled: false,
            cursor: if grab == CursorGrab::Free {
                None
            } else {
                Some(CursorUpdate { grab: CursorGrab::Free, visible: true })
            },
        }),
{
    match state {
        PlayState::StaffRules => {
            let cursor = match grab {
                CursorGrab::Free => Some(CursorUpdate { grab: CursorGrab::Confined, visible: false }),
                _ => None,
            };
            StaffRulesToggle { next: PlayState::Main, controller_enabled: true, cursor }
        },
        _ => {
            let cursor = match grab {
                CursorGrab::Free => None,
                _ => Some(CursorUpdate { grab: CursorGrab::Free, visible: true }),
            };
            StaffRulesToggle { next: PlayState::StaffRules, controller_enabled: false, cursor }
        },
    }
}

} // verus!
