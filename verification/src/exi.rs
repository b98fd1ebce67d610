//! The parameters the host hands over when it creates the device that owns
//! the pipeline, and the configuration of the optional music player.

use vstd::prelude::*;

verus! {

/// Paths the device needs: the game image and the user settings file.
#[derive(Clone, Debug)]
pub struct FilePathsConfig {
    pub iso: String,
    pub user_json: String,
}

/// Source-control version parameters provided by the host.
#[derive(Clone, Debug)]
pub struct SCMConfig {
    pub slippi_semver: String,
}

/// Core device parameters the host provides.
#[derive(Clone, Debug)]
pub struct Config {
    pub paths: FilePathsConfig,
    pub scm: SCMConfig,
}

/// Whether the music player is to start (with its initial volumes) or stop.
#[derive(Clone, Copy, Debug)]
pub enum JukeboxConfiguration {
    Start { initial_dolphin_system_volume: u8, initial_dolphin_music_volume: u8 },
    Stop,
}

} // verus!
