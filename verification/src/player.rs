//! Supervision of the single external player subprocess.
//!
//! The supervisor owns the player's lifecycle as an explicit state
//! machine. It never touches the operating system itself: the surrounding
//! binary performs the spawn or kill the supervisor decides on and
//! reports the outcome back, so every transition below is checked against
//! the machine. The player cannot reload a playlist in place; a content
//! change is realized by a stop followed by a fresh start.

use vstd::prelude::*;

verus! {

/// How long each image is displayed, in seconds, in the player's fixed
/// argument set.
pub const PLAYER_IMAGE_DISPLAY_SECS: u64 = 10;

/// The lifecycle of the player subprocess.
#[derive(Clone, Copy, PartialEq, Eq, Structural, Debug)]
pub enum PlayerState {
    /// No subprocess runs and none is wanted yet; a start is valid.
    Stopped,
    /// A spawn was issued and its outcome not yet reported.
    Starting,
    /// The subprocess is believed alive.
    Running,
    /// The subprocess ended on its own or failed to spawn; a start is
    /// valid again.
    Exited,
    /// The subprocess was killed for process shutdown; terminal.
    Killed,
}

/// The exclusive owner of the player subprocess's lifecycle.
#[derive(Debug)]
pub struct PlayerSupervisor {
    state: PlayerState,
}

impl PlayerSupervisor {
    /// The machine's current state.
    pub closed spec fn state(&self) -> PlayerState {
        self.state
    }

    /// A start is valid only with no live or pending subprocess.
    pub open spec fn spec_can_start(&self) -> bool {
        self.state() is Stopped || self.state() is Exited
    }

    /// A fresh supervisor: no subprocess yet.
    pub fn new() -> (s: PlayerSupervisor)
        ensures
            s.state() is Stopped,
    {
        PlayerSupervisor { state: PlayerState::Stopped }
    }

    /// Whether a start is valid now.
    pub fn can_start(&self) -> (r: bool)
        ensures
            r == self.spec_can_start(),
    {
        match self.state {
            PlayerState::Stopped => true,
            PlayerState::Exited => true,
            _ => false,
        }
    }

    /// Records that a spawn is being issued.
    pub fn begin_start(&mut self)
        requires
            old(self).spec_can_start(),
        ensures
            final(self).state() is Starting,
    {
        self.state = PlayerState::Starting;
    }

    /// Records that the issued spawn succeeded.
    pub fn confirm_spawned(&mut self)
        requires
            old(self).state() is Starting,
        ensures
            final(self).state() is Running,
    {
        self.state = PlayerState::Running;
    }

    /// Records that the issued spawn failed. The failure is recoverable:
    /// a start is valid again on a later tick.
    pub fn spawn_failed(&mut self)
        requires
            old(self).state() is Starting,
        ensures
            final(self).state() is Exited,
            final(self).spec_can_start(),
    {
        self.state = PlayerState::Exited;
    }

    /// Records that the subprocess was observed to have ended on its own.
    pub fn confirm_exit(&mut self)
        requires
            old(self).state() is Running,
        ensures
            final(self).state() is Exited,
            final(self).spec_can_start(),
    {
        self.state = PlayerState::Exited;
    }

    /// Records a stop: the kill signal was sent, or nothing was running.
    /// Idempotent, and a start is valid afterwards — this is how a content
    /// change restarts playback.
    pub fn stop(&mut self)
        requires
            !(old(self).state() is Killed),
        ensures
            final(self).state() is Stopped,
            final(self).spec_can_start(),
    {
        self.state = PlayerState::Stopped;
    }

    /// Records the final kill at process shutdown; no transition leaves
    /// this state.
    pub fn shutdown(&mut self)
        ensures
            final(self).state() is Killed,
    {
        self.state = PlayerState::Killed;
    }
}

/// The player's fixed argument set: loop the playlist forever, muted,
/// fullscreen, without a terminal, controllable over the IPC socket,
/// each image shown for the fixed duration, playing the manifest under
/// the given home directory.
pub fn player_command_args(home: &str) -> (args: Vec<String>)
    ensures
        args@.len() == 7,
        args@[0]@ == "--loop-playlist=inf"@,
        args@[1]@ == "--volume=-1"@,
        args@[2]@ == "--no-terminal"@,
        args@[3]@ == "--fullscreen"@,
        args@[4]@ == "--input-ipc-server=/tmp/mpvsocket"@,
        args@[5]@ == "--image-display-duration=10"@,
        args@[6]@ == "--playlist="@ + home@ + "/.local/share/signage/playlist.txt"@,
{
    let mut args: Vec<String> = Vec::new();
    args.push(String::from_str("--loop-playlist=inf"));
    args.push(String::from_str("--volume=-1"));
    args.push(String::from_str("--no-terminal"));
    args.push(String::from_str("--fullscreen"));
    args.push(String::from_str("--input-ipc-server=/tmp/mpvsocket"));
    args.push(String::from_str("--image-display-duration=10"));
    let mut playlist = String::from_str("--playlist=");
    playlist.append(home);
    playlist.append("/.local/share/signage/playlist.txt");
    args.push(playlist);
    args
}

/// The explicit execution environment the player is spawned with, in
/// place of mutating the process-global environment: the display the
/// kiosk renders to.
pub fn player_environment() -> (env: Vec<(String, String)>)
    ensures
        env@.len() == 1,
        env@[0].0@ == "DISPLAY"@,
        env@[0].1@ == ":0"@,
{
    let mut env: Vec<(String, String)> = Vec::new();
    env.push((String::from_str("DISPLAY"), String::from_str(":0")));
    env
}

} // verus!
