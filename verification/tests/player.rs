use rusty_pipe_cli::r_player::{
    create_new_player, first_supported_track, on_failure, on_message, publish, seek_goal,
    should_decode, should_rest, DecodeOutcome, Failure, PacketStep, PlayingData, TrackInfo,
    Transport, REST_MILLIS,
};
use rusty_pipe_cli::schema::{PlayOptions, PlayerMessage, PlayerStatus, ToPlayerMessages};
use rusty_pipe_cli::units::TimeBase;

fn track(id: u32, has_codec: bool) -> TrackInfo {
    TrackInfo {
        id,
        has_codec,
        time_base: TimeBase::new(1, 1000),
        n_frames: Some(180_000),
        start_ts: 500,
    }
}

fn options(url: &str) -> PlayOptions {
    PlayOptions {
        video_id: String::from("R"),
        url: String::from(url),
        length: Some(1000),
        file_path: None,
    }
}

fn loaded(url: &str) -> Option<PlayingData> {
    create_new_player(&String::from(url), &vec![track(1, true)])
}

#[test]
fn first_supported_track_skips_unknown_codecs() {
    assert_eq!(first_supported_track(&vec![]), None);
    assert_eq!(first_supported_track(&vec![track(1, false)]), None);
    assert_eq!(
        first_supported_track(&vec![track(1, false), track(2, true), track(3, true)]),
        Some(1)
    );
}

#[test]
fn new_session_plays_first_supported_track() {
    let pd = create_new_player(&String::from("u"), &vec![track(7, false), track(9, true)]).unwrap();
    assert_eq!(pd.play_opts.track_id, 9);
    assert_eq!(pd.play_opts.seek_ts, 0);
    assert_eq!(pd.dur, Some(180_500));
    assert_eq!(pd.tb, TimeBase::new(1, 1000));
    assert_eq!(pd.tb.unwrap().parts(), (1, 1000));
    assert!(pd.is_playing);
    assert_eq!(pd.url, "u");
    assert_eq!(pd.last_packet, None);
}

#[test]
fn no_session_without_a_supported_track() {
    assert!(create_new_player(&String::from("u"), &vec![track(7, false)]).is_none());
    assert!(create_new_player(&String::from("u"), &vec![]).is_none());
}

#[test]
fn play_while_idle_opens_a_session() {
    let mut state = None;
    match on_message(&mut state, ToPlayerMessages::Play(options("u"))) {
        Transport::Open(o) => {
            assert_eq!(o.url, "u");
            assert_eq!(o.video_id, "R");
            assert_eq!(o.length, Some(1000));
        }
        _ => panic!("an idle player opens a session"),
    }
    assert!(state.is_none());
}

#[test]
fn play_of_another_resource_ends_the_session() {
    let mut state = loaded("u");
    match on_message(&mut state, ToPlayerMessages::Play(options("v"))) {
        Transport::Open(o) => assert_eq!(o.url, "v"),
        _ => panic!("another resource needs a new session"),
    }
    assert!(state.is_none());
}

#[test]
fn play_of_the_loaded_resource_resumes() {
    let mut state = loaded("u");
    state.as_mut().unwrap().play(42_000, DecodeOutcome::Decoded);
    assert!(matches!(
        on_message(&mut state, ToPlayerMessages::Pause),
        Transport::Nothing
    ));
    assert!(!state.as_ref().unwrap().is_playing);
    assert!(matches!(
        on_message(&mut state, ToPlayerMessages::Play(options("u"))),
        Transport::Nothing
    ));
    let pd = state.as_ref().unwrap();
    assert!(pd.is_playing);
    assert_eq!(pd.last_packet, Some(42_000));
    assert_eq!(pd.play_opts.track_id, 1);
    assert_eq!(pd.dur, Some(180_500));
}

#[test]
fn pause_and_resume_set_the_flag() {
    let mut state = loaded("u");
    on_message(&mut state, ToPlayerMessages::Pause);
    assert!(!state.as_ref().unwrap().is_playing);
    assert!(!should_decode(&state));
    on_message(&mut state, ToPlayerMessages::Resume);
    assert!(state.as_ref().unwrap().is_playing);
    assert!(should_decode(&state));
    let mut idle = None;
    assert!(matches!(
        on_message(&mut idle, ToPlayerMessages::Pause),
        Transport::Nothing
    ));
    assert!(matches!(
        on_message(&mut idle, ToPlayerMessages::Resume),
        Transport::Nothing
    ));
    assert!(idle.is_none());
    assert!(!should_decode(&idle));
}

#[test]
fn seek_back_thirty_seconds_from_ninety() {
    assert_eq!(seek_goal(90, -30), Some(60));
    let mut state = loaded("u");
    state.as_mut().unwrap().play(90_000, DecodeOutcome::Decoded);
    match on_message(&mut state, ToPlayerMessages::Seek(-30)) {
        Transport::SeekTo(seconds) => assert_eq!(seconds, 60),
        _ => panic!("a seek is due"),
    }
    assert_eq!(state.as_ref().unwrap().last_packet, Some(90_000));
    assert!(state.as_ref().unwrap().is_playing);
}

#[test]
fn seek_needs_a_session_and_a_position() {
    let mut idle = None;
    assert!(matches!(
        on_message(&mut idle, ToPlayerMessages::Seek(5)),
        Transport::Nothing
    ));
    let mut fresh = loaded("u");
    assert!(matches!(
        on_message(&mut fresh, ToPlayerMessages::Seek(5)),
        Transport::Nothing
    ));
    let mut no_tb = create_new_player(
        &String::from("u"),
        &vec![TrackInfo { id: 1, has_codec: true, time_base: None, n_frames: None, start_ts: 0 }],
    );
    no_tb.as_mut().unwrap().play(10, DecodeOutcome::Decoded);
    assert!(matches!(
        on_message(&mut no_tb, ToPlayerMessages::Seek(5)),
        Transport::Nothing
    ));
}

#[test]
fn seek_goal_is_a_time_or_nothing() {
    assert_eq!(seek_goal(10, 5), Some(15));
    assert_eq!(seek_goal(10, -10), Some(0));
    assert_eq!(seek_goal(10, -11), None);
    assert_eq!(seek_goal(u64::MAX, 1), None);
    assert_eq!(seek_goal(u64::MAX, 0), Some(u64::MAX));
    assert_eq!(seek_goal(u64::MAX, i64::MIN), Some(u64::MAX - (1u64 << 63)));
    assert_eq!(seek_goal(0, i64::MAX), Some(i64::MAX as u64));
}

#[test]
fn packet_of_another_track_is_passed_over() {
    let pd = loaded("u").unwrap();
    assert!(pd.belongs(1));
    assert!(!pd.belongs(2));
}

#[test]
fn packet_steps() {
    let mut pd = loaded("u").unwrap();
    pd.play_opts.seek_ts = 100;
    assert_eq!(pd.play(99, DecodeOutcome::Decoded), PacketStep::Pass);
    assert_eq!(pd.last_packet, Some(99));
    assert_eq!(pd.play(100, DecodeOutcome::Decoded), PacketStep::Write);
    assert_eq!(pd.play(200, DecodeOutcome::DecodeError), PacketStep::Pass);
    assert_eq!(pd.last_packet, Some(200));
    assert_eq!(pd.play(300, DecodeOutcome::Failed), PacketStep::Fail);
    assert_eq!(pd.last_packet, Some(300));
}

#[test]
fn status_counts_whole_seconds() {
    let mut pd = loaded("u").unwrap();
    assert_eq!(
        pd.status(),
        PlayerStatus { playing: true, current_status: None, total_time: None }
    );
    pd.play(90_999, DecodeOutcome::Decoded);
    assert_eq!(
        pd.status(),
        PlayerStatus { playing: true, current_status: Some(90), total_time: Some(180) }
    );
    pd.is_playing = false;
    pd.dur = None;
    assert_eq!(
        pd.status(),
        PlayerStatus { playing: false, current_status: Some(90), total_time: None }
    );
    pd.tb = None;
    assert_eq!(
        pd.status(),
        PlayerStatus { playing: false, current_status: None, total_time: None }
    );
}

#[test]
fn time_base_scales_time_stamps() {
    assert_eq!(TimeBase::new(1, 1000).unwrap().seconds_at(90_000), 90);
    assert_eq!(TimeBase::new(1, 44_100).unwrap().seconds_at(44_099), 0);
    assert_eq!(TimeBase::new(1, 44_100).unwrap().seconds_at(44_100), 1);
    assert_eq!(TimeBase::new(3, 2).unwrap().seconds_at(5), 7);
    assert_eq!(TimeBase::new(1, 1).unwrap().seconds_at(u64::MAX), u64::MAX);
}

#[test]
fn status_goes_out_only_on_change() {
    let a = PlayerStatus { playing: true, current_status: Some(1), total_time: Some(9) };
    let b = PlayerStatus { playing: true, current_status: Some(2), total_time: Some(9) };
    let mut last = None;
    assert!(publish(&mut last, a));
    assert_eq!(last, Some(a));
    assert!(!publish(&mut last, a));
    assert!(publish(&mut last, b));
    assert!(!publish(&mut last, b));
    assert!(publish(&mut last, PlayerStatus { playing: false, ..b }));
    assert!(publish(&mut last, PlayerStatus { playing: false, total_time: None, ..b }));
    assert!(publish(&mut last, a));
    assert!(PlayerMessage::Status(a) == PlayerMessage::Status(a));
    assert!(PlayerMessage::Status(a) != PlayerMessage::Status(b));
}

#[test]
fn rest_when_idle_paused_or_at_the_end() {
    assert!(should_rest(&None));
    let mut state = loaded("u");
    assert!(!should_rest(&state));
    state.as_mut().unwrap().play(10, DecodeOutcome::Decoded);
    assert!(!should_rest(&state));
    state.as_mut().unwrap().play(180_500, DecodeOutcome::Decoded);
    assert!(should_rest(&state));
    state.as_mut().unwrap().play(10, DecodeOutcome::Decoded);
    on_message(&mut state, ToPlayerMessages::Pause);
    assert!(should_rest(&state));
    on_message(&mut state, ToPlayerMessages::Resume);
    state.as_mut().unwrap().dur = None;
    assert!(!should_rest(&state));
    state.as_mut().unwrap().play(u64::MAX, DecodeOutcome::Decoded);
    assert!(should_rest(&state));
}

#[test]
fn failed_source_ends_the_session() {
    let mut state = loaded("u");
    on_failure(&mut state, Failure::Other);
    assert!(state.is_some());
    assert!(state.as_ref().unwrap().is_playing);
    on_failure(&mut state, Failure::Source);
    assert!(state.is_none());
    on_failure(&mut state, Failure::Source);
    assert!(state.is_none());
    on_failure(&mut state, Failure::Other);
    assert!(state.is_none());
    let mut state = loaded("u");
    on_failure(&mut state, Failure::Output);
    assert!(state.is_none());
}

#[test]
fn time_base_has_no_zero_part() {
    assert!(TimeBase::new(0, 1).is_none());
    assert!(TimeBase::new(1, 0).is_none());
    assert!(TimeBase::new(0, 0).is_none());
    assert_eq!(TimeBase::new(2, 3).unwrap().parts(), (2, 3));
}

#[test]
fn track_end_past_the_last_time_stamp_is_unknown() {
    let long = TrackInfo {
        id: 1,
        has_codec: true,
        time_base: None,
        n_frames: Some(u64::MAX),
        start_ts: 1,
    };
    let pd = create_new_player(&String::from("u"), &vec![long]).unwrap();
    assert_eq!(pd.dur, None);
    let edge = TrackInfo { n_frames: Some(u64::MAX - 1), ..long };
    let pd = create_new_player(&String::from("u"), &vec![edge]).unwrap();
    assert_eq!(pd.dur, Some(u64::MAX));
}

#[test]
fn play_options_take_the_cache_length_as_fallback() {
    let o = PlayOptions::new(String::from("R"), String::from("u"), None, Some(7), Some(9));
    assert_eq!(o.length, Some(7));
    assert_eq!(o.video_id, "R");
    assert_eq!(o.url, "u");
    assert_eq!(o.file_path, None);
    let o = PlayOptions::new(
        String::from("R"),
        String::from("u"),
        Some(String::from("/cache/R")),
        None,
        Some(9),
    );
    assert_eq!(o.length, Some(9));
    assert_eq!(o.file_path, Some(String::from("/cache/R")));
    let o = PlayOptions::new(String::from("R"), String::from("u"), None, None, None);
    assert_eq!(o.length, None);
}

#[test]
fn player_rests_fifty_milliseconds() {
    assert_eq!(REST_MILLIS, 50);
}

fn whole_seconds(numer: u32, denom: u32, ts: u64) -> u64 {
    ((ts as u128 * numer as u128) / denom as u128) as u64
}

#[test]
fn seconds_are_the_rounded_down_quotient() {
    let stamps = [
        0u64,
        1,
        999,
        1000,
        1001,
        (1 << 52) - 1,
        1 << 52,
        (1 << 52) + 1,
        (1 << 53) - 1,
        u64::MAX - 1,
        u64::MAX,
    ];
    let bases = [
        (1u32, 1u32),
        (1, 3),
        (1, 1000),
        (1, 44_100),
        (1, 48_000),
        (1001, 30_000),
        (7, 3),
        (1, u32::MAX),
        (u32::MAX, 1),
        (u32::MAX, u32::MAX),
        (u32::MAX, u32::MAX - 1),
        (u32::MAX - 1, u32::MAX),
    ];
    for (numer, denom) in bases {
        let tb = TimeBase::new(numer, denom).unwrap();
        for ts in stamps {
            assert_eq!(tb.seconds_at(ts), whole_seconds(numer, denom, ts));
            if ts % (denom as u64) == 0 && ts > 0 {
                assert_eq!(tb.seconds_at(ts - 1), whole_seconds(numer, denom, ts - 1));
            }
        }
    }
}

#[test]
fn seconds_just_below_a_whole_second_round_down() {
    let denom = u32::MAX;
    let tb = TimeBase::new(1, denom).unwrap();
    let top = ((1u64 << 52) - 1) / denom as u64;
    for k in [1u64, 2, 1000, top - 1, top] {
        assert_eq!(tb.seconds_at(k * denom as u64 - 1), k - 1);
        assert_eq!(tb.seconds_at(k * denom as u64), k);
    }
    let tb = TimeBase::new(3, 7).unwrap();
    for k in [1u64, 5, 1 << 20, (1 << 50) / 3] {
        let ts = k * 7;
        assert_eq!(tb.seconds_at(ts), 3 * k);
        assert_eq!(tb.seconds_at(ts - 1), 3 * k - 1);
    }
}

#[test]
fn seconds_wrap_past_the_largest_count() {
    let tb = TimeBase::new(4, 1).unwrap();
    assert_eq!(tb.seconds_at(1 << 62), 0);
    assert_eq!(tb.seconds_at((1 << 62) + 5), 20);
    let tb = TimeBase::new(u32::MAX, 1).unwrap();
    assert_eq!(tb.seconds_at(u64::MAX), 18_446_744_069_414_584_321);
}
