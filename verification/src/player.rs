//! The plain data behind collaboration: players and their call status.

use rand::Rng;
use vstd::prelude::*;

verus! {

/// A participant, identified by an index, with an avatar and a username.
#[derive(Clone, Debug, PartialEq)]
pub struct Player {
    pub index: usize,
    pub avatar_src: String,
    pub username: String,
}

/// The spec-level shape of a player, with strings as character sequences.
pub open spec fn player_shape(p: Player) -> (usize, Seq<char>, Seq<char>) {
    (p.index, p.avatar_src@, p.username@)
}

impl Player {
    /// A player with the given index, avatar source and username.
    pub fn new(index: usize, avatar_src: String, username: String) -> (p: Player)
        ensures
            p.index == index,
            p.avatar_src@ == avatar_src@,
            p.username@ == username@,
    {
        Player { index, avatar_src, username }
    }

    /// A copy of this player, equal to it.
    pub fn duplicate(&self) -> (p: Player)
        ensures
            p == *self,
    {
        Player {
            index: self.index,
            avatar_src: self.avatar_src.clone(),
            username: self.username.clone(),
        }
    }
}

/// The raw avatar-and-name data a player is built from.
#[derive(Debug, Clone, PartialEq)]
pub struct PlayerData {
    pub url: String,
    pub name: String,
}

/// Whether a participant's microphone is live.
#[derive(Clone, Copy, Debug, PartialEq, Eq, Structural)]
pub enum MicStatus {
    Muted,
    Unmuted,
}

/// Whether a participant's camera is on.
#[derive(Clone, Copy, Debug, PartialEq, Eq, Structural)]
pub enum VideoStatus {
    On,
    Off,
}

/// Whether a participant shares their screen.
#[derive(Clone, Copy, Debug, PartialEq, Eq, Structural)]
pub enum ScreenShareStatus {
    Shared,
    NotShared,
}

/// A participant's standing in a call. Voice activity is in thousandths
/// (0 is silent, 1000 is the loudest).
#[derive(Clone, Debug, PartialEq)]
pub struct PlayerCallStatus {
    pub mic_status: MicStatus,
    pub voice_activity: u16,
    pub video_status: VideoStatus,
    pub screen_share_status: ScreenShareStatus,
    pub in_current_project: bool,
    pub disconnected: bool,
    pub following: Option<Vec<Player>>,
    pub followers: Option<Vec<Player>>,
}

impl PlayerCallStatus {
    /// The quiet default: unmuted but silent, no video, no screen share,
    /// in the current project, connected, following nobody, followed by
    /// nobody.
    pub fn new() -> (s: PlayerCallStatus)
        ensures
            s.mic_status == MicStatus::Unmuted,
            s.voice_activity == 0,
            s.video_status == VideoStatus::Off,
            s.screen_share_status == ScreenShareStatus::NotShared,
            s.in_current_project,
            !s.disconnected,
            s.following is None,
            s.followers is None,
    {
        PlayerCallStatus {
            mic_status: MicStatus::Unmuted,
            voice_activity: 0,
            video_status: VideoStatus::Off,
            screen_share_status: ScreenShareStatus::NotShared,
            in_current_project: true,
            disconnected: false,
            following: None,
            followers: None,
        }
    }
}

/// A player together with their call status.
#[derive(Clone, Debug, PartialEq)]
pub struct PlayerWithCallStatus {
    pub player: Player,
    pub call_status: PlayerCallStatus,
}

impl PlayerWithCallStatus {
    /// Pair a player with their call status.
    pub fn new(player: Player, call_status: PlayerCallStatus) -> (p: PlayerWithCallStatus)
        ensures
            p.player == player,
            p.call_status == call_status,
    {
        PlayerWithCallStatus { player, call_status }
    }
}

/// A live stream: its participants with their call status, and the channel
/// it runs on.
#[derive(Clone, Debug, PartialEq)]
pub struct Livestream {
    pub players: Vec<PlayerWithCallStatus>,
    pub channel: Option<String>,
}

/// Relies on rand::random with the standard distribution on bool: a coin
/// flip. Nothing can be promised of the outcome.
#[verifier::external_body]
fn random_bool() -> bool {
    rand::random::<bool>()
}

/// Relies on rand::thread_rng and rand::Rng::gen_range: a sample from the
/// given inclusive range, so the result is at most 1000. Nothing more can
/// be promised of the outcome.
#[verifier::external_body]
fn random_per_mille() -> (r: u16)
    ensures
        r <= 1000,
{
    rand::thread_rng().gen_range(0..=1000u16)
}

/// A random call status for `player`: microphone, camera, screen share,
/// project membership, connectedness and voice activity are drawn at
/// random; the followers are as given and nobody is followed. Holds of
/// every outcome: the voice activity is at most 1000.
pub fn populate_player_call_status(player: Player, followers: Option<Vec<Player>>) -> (status:
    PlayerCallStatus)
    ensures
        status.voice_activity <= 1000,
        status.following is None,
        status.followers == followers,
{
    let in_current_project = random_bool();
    let disconnected = random_bool();
    let voice_activity = random_per_mille();
    let mic_status = if random_bool() {
        MicStatus::Muted
    } else {
        MicStatus::Unmuted
    };
    let video_status = if random_bool() {
        VideoStatus::On
    } else {
        VideoStatus::Off
    };
    let screen_share_status = if random_bool() {
        ScreenShareStatus::Shared
    } else {
        ScreenShareStatus::NotShared
    };
    let _ = player;
    PlayerCallStatus {
        mic_status,
        voice_activity,
        video_status,
        screen_share_status,
        in_current_project,
        disconnected,
        following: None,
        followers,
    }
}

} // verus!
