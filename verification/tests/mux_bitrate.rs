use clip_sync_repair::mux_bitrate::{
    format_ffmpeg_audio_bitrate, format_mux_bitrate_policy, format_optional_bitrate_kbps,
    parse_mux_audio_bitrate_policy, resolve_mux_audio_bitrate, MuxAudioBitratePolicy,
};

#[test]
fn parse_policy_keywords() {
    assert_eq!(
        parse_mux_audio_bitrate_policy("match_min").unwrap(),
        MuxAudioBitratePolicy::MatchMin
    );
    assert_eq!(
        parse_mux_audio_bitrate_policy("match-a").unwrap(),
        MuxAudioBitratePolicy::MatchA
    );
    assert_eq!(
        parse_mux_audio_bitrate_policy("default").unwrap(),
        MuxAudioBitratePolicy::Default
    );
    assert_eq!(
        parse_mux_audio_bitrate_policy("256k").unwrap(),
        MuxAudioBitratePolicy::ExplicitKbps(256)
    );
}

#[test]
fn resolve_match_min_uses_lower_source() {
    let resolved = resolve_mux_audio_bitrate(
        MuxAudioBitratePolicy::MatchMin,
        Some(255_000),
        Some(247_000),
    );
    assert_eq!(resolved.as_deref(), Some("247k"));
}

#[test]
fn resolve_default_omits_bitrate() {
    assert!(resolve_mux_audio_bitrate(
        MuxAudioBitratePolicy::Default,
        Some(255_000),
        Some(247_000),
    )
    .is_none());
}

#[test]
fn format_optional_bitrate_kbps_rounds_and_handles_missing() {
    assert_eq!(format_optional_bitrate_kbps(Some(255_998)), "256 kbps");
    assert_eq!(format_optional_bitrate_kbps(Some(384_124)), "384 kbps");
    assert_eq!(format_optional_bitrate_kbps(None), "unknown");
    assert_eq!(format_optional_bitrate_kbps(Some(0)), "unknown");
}

#[test]
fn format_mux_bitrate_policy_matches_config_keywords() {
    assert_eq!(
        format_mux_bitrate_policy(MuxAudioBitratePolicy::MatchMin),
        "match_min"
    );
    assert_eq!(
        format_mux_bitrate_policy(MuxAudioBitratePolicy::ExplicitKbps(256)),
        "256k"
    );
}

#[test]
fn format_rounds_to_nearest_kilobit() {
    assert_eq!(format_ffmpeg_audio_bitrate(255_400), "255k");
    assert_eq!(format_ffmpeg_audio_bitrate(247_083), "247k");
}

#[test]
fn parse_trims_and_ignores_case() {
    assert_eq!(
        parse_mux_audio_bitrate_policy("  MATCH-MIN \t").unwrap(),
        MuxAudioBitratePolicy::MatchMin
    );
    assert_eq!(
        parse_mux_audio_bitrate_policy("Match_A").unwrap(),
        MuxAudioBitratePolicy::MatchA
    );
    assert_eq!(
        parse_mux_audio_bitrate_policy("192K").unwrap(),
        MuxAudioBitratePolicy::ExplicitKbps(192)
    );
    assert_eq!(
        parse_mux_audio_bitrate_policy("320").unwrap(),
        MuxAudioBitratePolicy::ExplicitKbps(320)
    );
}

#[test]
fn parse_rejects_empty_zero_and_garbage() {
    assert_eq!(
        parse_mux_audio_bitrate_policy("   ").unwrap_err(),
        "must not be empty"
    );
    assert_eq!(
        parse_mux_audio_bitrate_policy("0k").unwrap_err(),
        "invalid mux audio bitrate policy: 0k"
    );
    assert_eq!(
        parse_mux_audio_bitrate_policy(" loud ").unwrap_err(),
        "invalid mux audio bitrate policy: loud"
    );
    assert_eq!(
        parse_mux_audio_bitrate_policy("4294967296k").unwrap_err(),
        "invalid mux audio bitrate policy: 4294967296k"
    );
    assert_eq!(
        parse_mux_audio_bitrate_policy("-5k").unwrap_err(),
        "invalid mux audio bitrate policy: -5k"
    );
}

#[test]
fn format_never_goes_below_eight_kilobits() {
    assert_eq!(format_ffmpeg_audio_bitrate(0), "8k");
    assert_eq!(format_ffmpeg_audio_bitrate(7_499), "8k");
    assert_eq!(format_ffmpeg_audio_bitrate(8_500), "9k");
    assert_eq!(format_ffmpeg_audio_bitrate(4_294_967_295), "4294967k");
}

#[test]
fn resolve_falls_back_and_saturates() {
    assert_eq!(
        resolve_mux_audio_bitrate(MuxAudioBitratePolicy::MatchMin, None, Some(128_000)).as_deref(),
        Some("128k")
    );
    assert_eq!(
        resolve_mux_audio_bitrate(MuxAudioBitratePolicy::MatchMin, Some(96_000), None).as_deref(),
        Some("96k")
    );
    assert!(resolve_mux_audio_bitrate(MuxAudioBitratePolicy::MatchMin, None, None).is_none());
    assert_eq!(
        resolve_mux_audio_bitrate(MuxAudioBitratePolicy::MatchA, Some(255_000), Some(1)).as_deref(),
        Some("255k")
    );
    assert!(resolve_mux_audio_bitrate(MuxAudioBitratePolicy::MatchA, Some(0), Some(1)).is_none());
    assert_eq!(
        resolve_mux_audio_bitrate(MuxAudioBitratePolicy::ExplicitKbps(256), None, None).as_deref(),
        Some("256k")
    );
    assert_eq!(
        resolve_mux_audio_bitrate(MuxAudioBitratePolicy::ExplicitKbps(u32::MAX), None, None)
            .as_deref(),
        Some("4294967k")
    );
}

#[test]
fn every_policy_keyword_parses_back() {
    for p in [
        MuxAudioBitratePolicy::MatchMin,
        MuxAudioBitratePolicy::MatchA,
        MuxAudioBitratePolicy::Default,
        MuxAudioBitratePolicy::ExplicitKbps(1),
        MuxAudioBitratePolicy::ExplicitKbps(256),
        MuxAudioBitratePolicy::ExplicitKbps(u32::MAX),
    ] {
        assert_eq!(parse_mux_audio_bitrate_policy(&format_mux_bitrate_policy(p)).unwrap(), p);
    }
}

#[test]
fn match_min_never_exceeds_either_source() {
    let kbps = |s: Option<String>| s.map(|t| t.trim_end_matches('k').parse::<u32>().unwrap());
    let min = kbps(resolve_mux_audio_bitrate(
        MuxAudioBitratePolicy::MatchMin,
        Some(320_000),
        Some(128_000),
    ))
    .unwrap();
    let a = kbps(resolve_mux_audio_bitrate(MuxAudioBitratePolicy::MatchA, Some(320_000), None)).unwrap();
    assert!(min <= a);
    assert_eq!(min, 128);
}
