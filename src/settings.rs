//! Player settings, the scenes, and the commands the scene controller obeys.
use vstd::prelude::*;

verus! {

#[derive(Clone, Copy, Debug, PartialEq, Eq, Structural)]
pub enum Difficulty {
    Normal,
    Hard,
}

/// How the window covers the screen.
#[derive(Clone, Copy, Debug, PartialEq, Eq, Structural)]
pub enum Fullscreen {
    Windowed,
    Borderless,
    Exclusive,
}

/// A size in pixels.
#[derive(Clone, Copy, Debug, PartialEq, Eq, Structural)]
pub struct Resolution {
    pub width: u32,
    pub height: u32,
}

#[derive(Clone, Copy, Debug, PartialEq, Eq, Structural)]
pub struct GameSettings {
    pub difficulty: Difficulty,
    pub vsync: bool,
    /// Frames per second at most; 0 for no limit.
    pub fps_limit: u32,
    pub fullscreen: Fullscreen,
    pub resolution: Resolution,
    pub particle_high: bool,
    /// Screen shake strength in percent.
    pub screen_shake: u32,
}

impl GameSettings {
    /// The settings of a fresh install.
    pub open spec fn default_spec() -> GameSettings {
        GameSettings {
            difficulty: Difficulty::Hard,
            vsync: true,
            fps_limit: 0,
            fullscreen: Fullscreen::Exclusive,
            resolution: Resolution { width: 455, height: 256 },
            particle_high: true,
            screen_shake: 100,
        }
    }
}

impl Default for GameSettings {
    fn default() -> (r: GameSettings)
        ensures
            r == GameSettings::default_spec(),
    {
        GameSettings {
            difficulty: Difficulty::Hard,
            vsync: true,
            fps_limit: 0,
            fullscreen: Fullscreen::Exclusive,
            resolution: Resolution { width: 455, height: 256 },
            particle_high: true,
            screen_shake: 100,
        }
    }
}

impl Default for Difficulty {
    fn default() -> (r: Difficulty)
        ensures
            r == Difficulty::Hard,
    {
        Difficulty::Hard
    }
}

/// The two top-level modes of the game.
#[derive(Clone, Copy, Debug, PartialEq, Eq, Structural)]
pub enum GameScene {
    Menu,
    Ingame,
}

impl Default for GameScene {
    fn default() -> (r: GameScene)
        ensures
            r == GameScene::Menu,
    {
        GameScene::Menu
    }
}

/// A command for the scene controller, the only part of the game that
/// builds and tears down scenes.
#[derive(Clone, Copy, Debug, PartialEq, Eq, Structural)]
pub enum Message {
    /// End the game.
    Exit,
    /// Show or hide the settings panel.
    ShowSettings(bool),
    /// Build this scene and release the current one.
    SwitchScene(GameScene),
    /// Take these settings and store them.
    ApplySettings(GameSettings),
    /// Continue play at this stage.
    ChangeLevel(u32),
    /// Drop cached resources to free memory.
    ClearCache,
}

/// What a button saw happen on one update.
#[derive(Clone, Copy, Debug, PartialEq, Eq, Structural)]
pub enum ButtonReport {
    Pressed,
    Released,
}

/// The state a button keeps between updates.
#[derive(Clone, Copy, Debug, PartialEq, Eq, Structural)]
pub struct ButtonState {
    pub hovered: bool,
    pub pressed: bool,
}

impl ButtonState {
    /// A button nobody touches.
    pub fn new() -> (r: ButtonState)
        ensures
            r == (ButtonState { hovered: false, pressed: false }),
    {
        ButtonState { hovered: false, pressed: false }
    }

    /// One update of a button. `on_top` tells whether the cursor is over
    /// this button rather than over something else, `over_any` whether it
    /// is over anything at all, `mouse_down` whether the left button is
    /// held. A press starts while on the button and ends in a release there;
    /// moving onto something else cancels it.
    pub fn update(&mut self, over_any: bool, on_top: bool, mouse_down: bool) -> (r: Option<ButtonReport>)
        ensures
            !over_any ==> *final(self) == *old(self) && r.is_none(),
            over_any && !on_top ==> *final(self) == (ButtonState { hovered: false, pressed: false })
                && r.is_none(),
            over_any && on_top ==> *final(self) == (ButtonState { hovered: true, pressed: mouse_down }),
            over_any && on_top ==> r == (if !old(self).pressed && mouse_down {
                Some(ButtonReport::Pressed)
            } else if old(self).pressed && !mouse_down {
                Some(ButtonReport::Released)
            } else {
                None
            }),
    {
        if !over_any {
            return None;
        }
        if !on_top {
            self.hovered = false;
            self.pressed = false;
            return None;
        }
        self.hovered = true;
        let report = if !self.pressed && mouse_down {
            Some(ButtonReport::Pressed)
        } else if self.pressed && !mouse_down {
            Some(ButtonReport::Released)
        } else {
            None
        };
        self.pressed = mouse_down;
        report
    }
}

} // verus!
