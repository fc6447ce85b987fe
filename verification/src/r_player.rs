//! The playback session's transport logic: what a command does to the
//! session, what to do with each packet, which status to publish and when to
//! rest. The caller owns the demuxer, the decoder and the audio output; it
//! reports what they did and carries out what is decided here.

use vstd::prelude::*;
use crate::schema::{PlayOptions, PlayerStatus, ToPlayerMessages};
use crate::units::{time_seconds, TimeBase};

verus! {

/// How long the player rests when it has nothing to play, in milliseconds.
pub const REST_MILLIS: u64 = 50;

/// What the session reads of one track of a container.
#[derive(Debug, Clone, Copy)]
pub struct TrackInfo {
    /// The track's id in its container.
    pub id: u32,
    /// The track's codec is one that the decoder library knows.
    pub has_codec: bool,
    /// The factor between the track's time stamps and seconds.
    pub time_base: Option<TimeBase>,
    /// The number of frames in the track.
    pub n_frames: Option<u64>,
    /// The time stamp of the track's first frame.
    pub start_ts: u64,
}

impl TrackInfo {
    /// The time stamp at which the track ends, where its length is known
    /// and its end is a `u64`.
    pub open spec fn end_ts(&self) -> Option<u64> {
        match self.n_frames {
            Some(n) => if self.start_ts + n <= u64::MAX {
                Some((self.start_ts + n) as u64)
            } else {
                None
            },
            None => None,
        }
    }
}

/// The track that a session plays, and the time stamp from which its samples
/// are let through.
#[derive(Debug, Clone, Copy)]
pub struct PlayTrackOptions {
    pub track_id: u32,
    pub seek_ts: u64,
}

/// A loaded session, as far as the transport logic reads it.
pub struct PlayingData {
    pub play_opts: PlayTrackOptions,
    /// The time stamp at which the track ends.
    pub dur: Option<u64>,
    pub tb: Option<TimeBase>,
    pub is_playing: bool,
    pub url: String,
    /// The time stamp of the last packet that went to the decoder.
    pub last_packet: Option<u64>,
}

/// What the caller is to do after a command.
pub enum Transport {
    /// Nothing.
    Nothing,
    /// Build a session for this resource. The session that was loaded, if
    /// any, is over.
    Open(PlayOptions),
    /// Ask the demuxer for an accurate seek to this many seconds.
    SeekTo(u64),
}

/// How the decoder took a packet.
#[derive(Debug, Clone, Copy, PartialEq, Eq, Structural)]
pub enum DecodeOutcome {
    /// It gave samples.
    Decoded,
    /// It could not decode this packet, but can go on with the next.
    DecodeError,
    /// It failed for good.
    Failed,
}

/// What to do with the packet that went to the decoder.
#[derive(Debug, Clone, Copy, PartialEq, Eq, Structural)]
pub enum PacketStep {
    /// Write the samples to the audio output.
    Write,
    /// Write nothing and go on.
    Pass,
    /// Give up this round of playing.
    Fail,
}

/// The place of the first track whose codec is known.
pub open spec fn is_first_supported(tracks: Seq<TrackInfo>, at: int) -> bool {
    &&& 0 <= at < tracks.len()
    &&& tracks[at].has_codec
    &&& forall|j: int| 0 <= j < at ==> !(#[trigger] tracks[j]).has_codec
}

/// No track has a known codec.
pub open spec fn none_supported(tracks: Seq<TrackInfo>) -> bool {
    forall|j: int| 0 <= j < tracks.len() ==> !(#[trigger] tracks[j]).has_codec
}

/// The first track whose codec is known.
pub fn first_supported_track(tracks: &Vec<TrackInfo>) -> (place: Option<usize>)
    ensures
        match place {
            Some(at) => is_first_supported(tracks@, at as int),
            None => none_supported(tracks@),
        },
{
    let mut i: usize = 0;
    while i < tracks.len()
        invariant
            i <= tracks@.len(),
            forall|j: int| 0 <= j < i ==> !(#[trigger] tracks@[j]).has_codec,
        decreases tracks@.len() - i,
    {
        if tracks[i].has_codec {
            return Some(i);
        }
        i += 1;
    }
    None
}

/// The session for a resource whose container holds `tracks`: it plays the
/// first track with a known codec, from the start, and is playing at once.
/// Without such a track there is no session.
pub fn create_new_player(url: &String, tracks: &Vec<TrackInfo>) -> (session: Option<PlayingData>)
    ensures
        match session {
            Some(pd) => exists|at: int|
                {
                    &&& #[trigger] is_first_supported(tracks@, at)
                    &&& pd.play_opts.track_id == tracks@[at].id
                    &&& pd.play_opts.seek_ts == 0
                    &&& pd.dur == tracks@[at].end_ts()
                    &&& pd.tb == tracks@[at].time_base
                    &&& pd.is_playing
                    &&& pd.url@ == url@
                    &&& pd.last_packet is None
                },
            None => none_supported(tracks@),
        },
{
    match first_supported_track(tracks) {
        Some(at) => {
            let track = &tracks[at];
            let dur = match track.n_frames {
                Some(n) => if n <= u64::MAX - track.start_ts {
                    Some(track.start_ts + n)
                } else {
                    None
                },
                None => None,
            };
            let pd = PlayingData {
                play_opts: PlayTrackOptions { track_id: track.id, seek_ts: 0 },
                dur,
                tb: track.time_base,
                is_playing: true,
                url: url.clone(),
                last_packet: None,
            };
            Some(pd)
        },
        None => None,
    }
}

/// The target of a seek by `delta` seconds from `current`, where it is a
/// time: not before the start, and a `u64`.
pub open spec fn seek_goal_of(current: u64, delta: i64) -> Option<u64> {
    if 0 <= current + delta <= u64::MAX {
        Some((current + delta) as u64)
    } else {
        None
    }
}

/// The target of a seek by `delta` seconds from `current`.
pub fn seek_goal(current: u64, delta: i64) -> (goal: Option<u64>)
    ensures
        goal == seek_goal_of(current, delta),
{
    let sum: i128 = current as i128 + delta as i128;
    if 0 <= sum && sum <= u64::MAX as i128 {
        Some(sum as u64)
    } else {
        None
    }
}

impl PlayingData {
    /// The seconds played so far, once a packet has gone to the decoder and
    /// where the time base is known.
    pub open spec fn position(&self) -> Option<u64> {
        match (self.tb, self.last_packet) {
            (Some(tb), Some(pts)) => Some(time_seconds(tb.numer(), tb.denom(), pts)),
            _ => None,
        }
    }

    /// The track's length in seconds, known under the same conditions as the
    /// position and where the track's end is known.
    pub open spec fn total(&self) -> Option<u64> {
        match (self.tb, self.last_packet, self.dur) {
            (Some(tb), Some(_), Some(dur)) => Some(time_seconds(tb.numer(), tb.denom(), dur)),
            _ => None,
        }
    }

    /// The status to publish.
    pub open spec fn status_of(&self) -> PlayerStatus {
        PlayerStatus {
            playing: self.is_playing,
            current_status: self.position(),
            total_time: self.total(),
        }
    }

    /// Whether a packet belongs to the track that the session plays. One that
    /// does not is passed over and does not go to the decoder.
    pub fn belongs(&self, track_id: u32) -> (mine: bool)
        ensures
            mine == (track_id == self.play_opts.track_id),
    {
        track_id == self.play_opts.track_id
    }

    /// Takes in what the decoder did with a packet of the session's track
    /// whose time stamp is `pts`. The packet becomes the last one, whatever
    /// the decoder did. Decoded samples are written where the packet is not
    /// before the session's starting time stamp.
    pub fn play(&mut self, pts: u64, outcome: DecodeOutcome) -> (step: PacketStep)
        ensures
            *final(self) == (PlayingData { last_packet: Some(pts), ..*old(self) }),
            step == match outcome {
                DecodeOutcome::Decoded => if pts >= old(self).play_opts.seek_ts {
                    PacketStep::Write
                } else {
                    PacketStep::Pass
                },
                DecodeOutcome::DecodeError => PacketStep::Pass,
                DecodeOutcome::Failed => PacketStep::Fail,
            },
    {
        self.last_packet = Some(pts);
        match outcome {
            DecodeOutcome::Decoded => if pts >= self.play_opts.seek_ts {
                PacketStep::Write
            } else {
                PacketStep::Pass
            },
            DecodeOutcome::DecodeError => PacketStep::Pass,
            DecodeOutcome::Failed => PacketStep::Fail,
        }
    }

    /// The status to publish.
    pub fn status(&self) -> (status: PlayerStatus)
        ensures
            status == self.status_of(),
    {
        let mut current_status: Option<u64> = None;
        let mut total_time: Option<u64> = None;
        if let Some(tb) = self.tb {
            if let Some(pts) = self.last_packet {
                current_status = Some(tb.seconds_at(pts));
                if let Some(dur) = self.dur {
                    total_time = Some(tb.seconds_at(dur));
                }
            }
        }
        PlayerStatus { playing: self.is_playing, current_status, total_time }
    }

    /// Whether the session has played its track to the end.
    pub open spec fn at_end(&self) -> bool {
        match (self.last_packet, self.dur) {
            (Some(pts), Some(dur)) => pts >= dur,
            (Some(pts), None) => pts == u64::MAX,
            _ => false,
        }
    }
}

/// The session is loaded with the resource at this address.
pub open spec fn loaded_with(state: Option<PlayingData>, url: Seq<char>) -> bool {
    state matches Some(pd) && pd.url@ == url
}

/// The session with its playing flag set to `playing`; no session stays none.
pub open spec fn with_playing(state: Option<PlayingData>, playing: bool) -> Option<PlayingData> {
    match state {
        Some(pd) => Some(PlayingData { is_playing: playing, ..pd }),
        None => None,
    }
}

/// The session after a command. Playing the loaded resource again only sets
/// it playing; playing another ends the session, and the caller builds the
/// next.
pub open spec fn next_state(state: Option<PlayingData>, msg: ToPlayerMessages) -> Option<
    PlayingData,
> {
    match msg {
        ToPlayerMessages::Play(options) => if loaded_with(state, options.url@) {
            with_playing(state, true)
        } else {
            None
        },
        ToPlayerMessages::Resume => with_playing(state, true),
        ToPlayerMessages::Pause => with_playing(state, false),
        ToPlayerMessages::Seek(_) => state,
    }
}

/// What the caller is to do after a command.
pub open spec fn next_action(state: Option<PlayingData>, msg: ToPlayerMessages) -> Transport {
    match msg {
        ToPlayerMessages::Play(options) => if loaded_with(state, options.url@) {
            Transport::Nothing
        } else {
            Transport::Open(options)
        },
        ToPlayerMessages::Seek(delta) => match state {
            Some(pd) => match pd.position() {
                Some(current) => match seek_goal_of(current, delta) {
                    Some(goal) => Transport::SeekTo(goal),
                    None => Transport::Nothing,
                },
                None => Transport::Nothing,
            },
            None => Transport::Nothing,
        },
        _ => Transport::Nothing,
    }
}

/// Applies a transport command to the session and says what the caller is
/// to do.
pub fn on_message(state: &mut Option<PlayingData>, msg: ToPlayerMessages) -> (action: Transport)
    ensures
        *final(state) == next_state(*old(state), msg),
        action == next_action(*old(state), msg),
{
    match msg {
        ToPlayerMessages::Play(options) => {
            let same = match state {
                Some(pd) => pd.url == options.url,
                None => false,
            };
            if same {
                set_playing(state, true);
                Transport::Nothing
            } else {
                *state = None;
                Transport::Open(options)
            }
        },
        ToPlayerMessages::Resume => {
            set_playing(state, true);
            Transport::Nothing
        },
        ToPlayerMessages::Pause => {
            set_playing(state, false);
            Transport::Nothing
        },
        ToPlayerMessages::Seek(delta) => {
            match state {
                Some(pd) => match pd.tb {
                    Some(tb) => match pd.last_packet {
                        Some(pts) => match seek_goal(tb.seconds_at(pts), delta) {
                            Some(goal) => Transport::SeekTo(goal),
                            None => Transport::Nothing,
                        },
                        None => Transport::Nothing,
                    },
                    None => Transport::Nothing,
                },
                None => Transport::Nothing,
            }
        },
    }
}

/// Sets the playing flag of the session, if there is one.
pub fn set_playing(state: &mut Option<PlayingData>, playing: bool)
    ensures
        *final(state) == with_playing(*old(state), playing),
{
    match state {
        Some(pd) => {
            pd.is_playing = playing;
        },
        None => {},
    }
}

/// What went wrong in a round of playing.
#[derive(Debug, Clone, Copy, PartialEq, Eq, Structural)]
pub enum Failure {
    /// The source under the demuxer failed: its channel is closed or a
    /// reply broke the protocol.
    Source,
    /// No audio output could be opened.
    Output,
    /// Anything else: the container's format, the decoder, or the end of
    /// the stream.
    Other,
}

/// The session after a round of playing went wrong. A failed source and a
/// missing audio output end the session; after any other failure the session
/// stays, and the next round tries again.
pub fn on_failure(state: &mut Option<PlayingData>, failure: Failure)
    ensures
        *final(state) == match failure {
            Failure::Source => None,
            Failure::Output => None,
            Failure::Other => *old(state),
        },
{
    match failure {
        Failure::Source => {
            *state = None;
        },
        Failure::Output => {
            *state = None;
        },
        Failure::Other => {},
    }
}

/// Whether the next thing to do is to decode a packet: there is a session
/// and it is playing.
pub fn should_decode(state: &Option<PlayingData>) -> (decode: bool)
    ensures
        decode == (state matches Some(pd) && pd.is_playing),
{
    match state {
        Some(pd) => pd.is_playing,
        None => false,
    }
}

/// Whether to rest a moment before the next round: there is no session, or
/// it does not play, or it has played its track to the end.
pub fn should_rest(state: &Option<PlayingData>) -> (rest: bool)
    ensures
        rest == match *state {
            Some(pd) => !pd.is_playing || pd.at_end(),
            None => true,
        },
{
    match state {
        Some(pd) => {
            if !pd.is_playing {
                true
            } else {
                match pd.last_packet {
                    Some(pts) => match pd.dur {
                        Some(dur) => pts >= dur,
                        None => pts == u64::MAX,
                    },
                    None => false,
                }
            }
        },
        None => true,
    }
}

/// A status goes out when it differs from the last one offered.
pub open spec fn goes_out(last_sent: Option<PlayerStatus>, status: PlayerStatus) -> bool {
    last_sent != Some(status)
}

/// Decides whether a status goes out: only one that differs from the last
/// one offered. The status is remembered as the last either way.
pub fn publish(last_sent: &mut Option<PlayerStatus>, status: PlayerStatus) -> (send: bool)
    ensures
        send == goes_out(*old(last_sent), status),
        *final(last_sent) == Some(status),
{
    let send = match last_sent {
        Some(last) => *last != status,
        None => true,
    };
    *last_sent = Some(status);
    send
}

/// Playing the resource that is loaded builds no session: the session stays
/// as it is but for the playing flag, which is set, and the caller has
/// nothing to do.
pub proof fn law_play_again_resumes(pd: PlayingData, options: PlayOptions)
    requires
        pd.url@ == options.url@,
    ensures
        next_action(Some(pd), ToPlayerMessages::Play(options)) == Transport::Nothing,
        next_state(Some(pd), ToPlayerMessages::Play(options)) == Some(
            PlayingData { is_playing: true, ..pd },
        ),
        next_state(Some(pd), ToPlayerMessages::Play(options))->Some_0.last_packet
            == pd.last_packet,
{
}

/// The same status never goes out twice in a row: once a status has been
/// offered, offering it again sends nothing, and offering another sends it.
pub proof fn law_status_is_not_repeated(status: PlayerStatus, other: PlayerStatus)
    ensures
        !goes_out(Some(status), status),
        other != status ==> goes_out(Some(status), other),
        goes_out(None, status),
{
}

} // verus!
