use vstd::prelude::*;

verus! {

/// Player parameters: whether playback starts by itself and whether the
/// controls show (each `0` or `1`); unset ones keep the player's default.
#[derive(Debug, Clone, Copy, PartialEq, Eq, Structural)]
pub struct PlayerVars {
    pub autoplay: Option<i32>,
    pub controls: Option<i32>,
}

impl PlayerVars {
    /// Parameters with nothing set.
    pub fn new() -> (r: Self)
        ensures
            r.autoplay is None,
            r.controls is None,
    {
        PlayerVars { autoplay: None, controls: None }
    }

    /// Sets `autoplay`, keeping the rest.
    pub fn autoplay(self, autoplay: i32) -> (r: Self)
        ensures
            r.autoplay == Some(autoplay),
            r.controls == self.controls,
    {
        PlayerVars { autoplay: Some(autoplay), controls: self.controls }
    }

    /// Sets `controls`, keeping the rest.
    pub fn controls(self, controls: i32) -> (r: Self)
        ensures
            r.controls == Some(controls),
            r.autoplay == self.autoplay,
    {
        PlayerVars { autoplay: self.autoplay, controls: Some(controls) }
    }
}

/// Options for a player: the video to show, the size, and the parameters;
/// unset ones keep the player's default.
#[derive(Debug, PartialEq)]
pub struct PlayerOptions {
    pub video_id: Option<String>,
    pub width: Option<i32>,
    pub height: Option<i32>,
    pub player_vars: Option<PlayerVars>,
}

impl PlayerOptions {
    /// Options with nothing set.
    pub fn new() -> (r: Self)
        ensures
            r.video_id is None,
            r.width is None,
            r.height is None,
            r.player_vars is None,
    {
        PlayerOptions { video_id: None, width: None, height: None, player_vars: None }
    }

    /// Sets the video id, keeping the rest.
    pub fn video_id(self, video_id: String) -> (r: Self)
        ensures
            r.video_id == Some(video_id),
            r.width == self.width,
            r.height == self.height,
            r.player_vars == self.player_vars,
    {
        PlayerOptions {
            video_id: Some(video_id),
            width: self.width,
            height: self.height,
            player_vars: self.player_vars,
        }
    }

    /// Sets the width, keeping the rest.
    pub fn width(self, width: i32) -> (r: Self)
        ensures
            r.width == Some(width),
            r.video_id == self.video_id,
            r.height == self.height,
            r.player_vars == self.player_vars,
    {
        PlayerOptions {
            video_id: self.video_id,
            width: Some(width),
            height: self.height,
            player_vars: self.player_vars,
        }
    }

    /// Sets the height, keeping the rest.
    pub fn height(self, height: i32) -> (r: Self)
        ensures
            r.height == Some(height),
            r.video_id == self.video_id,
            r.width == self.width,
            r.player_vars == self.player_vars,
    {
        PlayerOptions {
            video_id: self.video_id,
            width: self.width,
            height: Some(height),
            player_vars: self.player_vars,
        }
    }

    /// Sets the player parameters, keeping the rest.
    pub fn player_vars(self, player_vars: PlayerVars) -> (r: Self)
        ensures
            r.player_vars == Some(player_vars),
            r.video_id == self.video_id,
            r.width == self.width,
            r.height == self.height,
    {
        PlayerOptions {
            video_id: self.video_id,
            width: self.width,
            height: self.height,
            player_vars: Some(player_vars),
        }
    }
}

} // verus!
