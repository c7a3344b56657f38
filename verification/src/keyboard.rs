use vstd::prelude::*;

verus! {

/// A key the renderer window reacts to.
#[derive(Clone, Copy, Debug, PartialEq, Eq, Structural)]
pub enum RendererKey {
    Escape,
    Left,
    Right,
    Other,
}

/// A semantic fixture navigation step.
#[derive(Clone, Copy, Debug, PartialEq, Eq, Structural)]
pub enum NavigationIntent {
    Previous,
    Next,
}

/// What the renderer does in answer to a key press.
#[derive(Clone, Copy, Debug, PartialEq, Eq, Structural)]
pub enum RendererAction {
    Close,
    Navigate(NavigationIntent),
    NoAction,
}

/// The abstract keyboard state.
pub struct KeyboardState {
    pub navigation_enabled: bool,
    pub focused: bool,
    pub left_held: bool,
    pub right_held: bool,
}

impl KeyboardState {
    /// The arrow `key` is held down and suppressed until released.
    pub open spec fn held(self, key: RendererKey) -> bool {
        match key {
            RendererKey::Left => self.left_held,
            RendererKey::Right => self.right_held,
            _ => false,
        }
    }

    /// The action a press of `key` yields in this state.
    pub open spec fn action_for(self, key: RendererKey) -> RendererAction {
        match key {
            RendererKey::Escape => RendererAction::Close,
            RendererKey::Left => if self.navigation_enabled && self.focused && !self.left_held {
                RendererAction::Navigate(NavigationIntent::Previous)
            } else {
                RendererAction::NoAction
            },
            RendererKey::Right => if self.navigation_enabled && self.focused && !self.right_held {
                RendererAction::Navigate(NavigationIntent::Next)
            } else {
                RendererAction::NoAction
            },
            RendererKey::Other => RendererAction::NoAction,
        }
    }

    /// The state after a press of `key`: a navigating arrow becomes held.
    pub open spec fn pressed(self, key: RendererKey) -> KeyboardState {
        KeyboardState {
            left_held: self.left_held || (key == RendererKey::Left && self.action_for(key)
                != RendererAction::NoAction),
            right_held: self.right_held || (key == RendererKey::Right && self.action_for(key)
                != RendererAction::NoAction),
            ..self
        }
    }

    /// The state after `key` is released.
    pub open spec fn released(self, key: RendererKey) -> KeyboardState {
        KeyboardState {
            left_held: self.left_held && key != RendererKey::Left,
            right_held: self.right_held && key != RendererKey::Right,
            ..self
        }
    }

    /// The state after the window gains or loses focus.
    pub open spec fn with_focus(self, focused: bool) -> KeyboardState {
        KeyboardState {
            focused,
            left_held: self.left_held && focused,
            right_held: self.right_held && focused,
            ..self
        }
    }
}

/// Keyboard state: arrows navigate fixtures once per physical press, only
/// while fixture navigation is enabled and the window has focus.
pub struct RendererKeyboard {
    navigation_enabled: bool,
    focused: bool,
    left_pressed: bool,
    right_pressed: bool,
}

impl View for RendererKeyboard {
    type V = KeyboardState;

    closed spec fn view(&self) -> KeyboardState {
        KeyboardState {
            navigation_enabled: self.navigation_enabled,
            focused: self.focused,
            left_held: self.left_pressed,
            right_held: self.right_pressed,
        }
    }
}

impl RendererKeyboard {
    pub fn new(navigation_enabled: bool) -> (keyboard: Self)
        ensures
            keyboard@ == (KeyboardState {
                navigation_enabled,
                focused: true,
                left_held: false,
                right_held: false,
            }),
    {
        Self { navigation_enabled, focused: true, left_pressed: false, right_pressed: false }
    }

    pub fn press(&mut self, key: RendererKey) -> (action: RendererAction)
        ensures
            action == old(self)@.action_for(key),
            final(self)@ == old(self)@.pressed(key),
    {
        match key {
            RendererKey::Escape => RendererAction::Close,
            RendererKey::Left => {
                if self.navigation_enabled && self.focused && !self.left_pressed {
                    self.left_pressed = true;
                    RendererAction::Navigate(NavigationIntent::Previous)
                } else {
                    RendererAction::NoAction
                }
            },
            RendererKey::Right => {
                if self.navigation_enabled && self.focused && !self.right_pressed {
                    self.right_pressed = true;
                    RendererAction::Navigate(NavigationIntent::Next)
                } else {
                    RendererAction::NoAction
                }
            },
            RendererKey::Other => RendererAction::NoAction,
        }
    }

    pub fn release(&mut self, key: RendererKey)
        ensures
            final(self)@ == old(self)@.released(key),
    {
        match key {
            RendererKey::Left => self.left_pressed = false,
            RendererKey::Right => self.right_pressed = false,
            RendererKey::Escape | RendererKey::Other => {},
        }
    }

    pub fn set_focused(&mut self, focused: bool)
        ensures
            final(self)@ == old(self)@.with_focus(focused),
    {
        self.focused = focused;
        if !focused {
            self.left_pressed = false;
            self.right_pressed = false;
        }
    }
}

/// Escape closes the renderer in every state, whatever mode or focus.
pub proof fn lemma_escape_always_closes(state: KeyboardState)
    ensures
        state.action_for(RendererKey::Escape) == RendererAction::Close,
{
}

/// A held arrow advances once: a second press before release is inert.
pub proof fn lemma_held_arrow_advances_once(state: KeyboardState, key: RendererKey)
    requires
        key == RendererKey::Left || key == RendererKey::Right,
    ensures
        state.pressed(key).action_for(key) == RendererAction::NoAction,
{
}

/// Once an arrow is released, a press navigates again whenever navigation is
/// enabled and the window is focused.
pub proof fn lemma_release_rearms_arrow(state: KeyboardState, key: RendererKey)
    requires
        key == RendererKey::Left || key == RendererKey::Right,
        state.navigation_enabled,
        state.focused,
    ensures
        state.released(key).action_for(key) == (if key == RendererKey::Left {
            RendererAction::Navigate(NavigationIntent::Previous)
        } else {
            RendererAction::Navigate(NavigationIntent::Next)
        }),
{
}

/// Arrows are inert without fixture navigation or without window focus.
pub proof fn lemma_arrows_inert_unless_enabled_and_focused(state: KeyboardState, key: RendererKey)
    requires
        !state.navigation_enabled || !state.focused,
        key != RendererKey::Escape,
    ensures
        state.action_for(key) == RendererAction::NoAction,
        state.pressed(key) == state,
{
}

/// Losing focus and regaining it clears any held-arrow suppression.
pub proof fn lemma_refocus_clears_suppression(state: KeyboardState)
    ensures
        !state.with_focus(false).with_focus(true).held(RendererKey::Left),
        !state.with_focus(false).with_focus(true).held(RendererKey::Right),
        state.with_focus(false).with_focus(true).focused,
{
}

/// Pressing an arrow never changes the mode or the focus.
pub proof fn lemma_press_keeps_mode_and_focus(state: KeyboardState, key: RendererKey)
    ensures
        state.pressed(key).navigation_enabled == state.navigation_enabled,
        state.pressed(key).focused == state.focused,
{
}

} // verus!
