//! The supporting modules: payload rendering, the rank ladder, characters
//! and stages, the disc helpers, the playback engine, and configuration.

use slippi_ext::config::SlippiConfig;
use slippi_ext::discord::{ConnectCode, DiscordClientRequest, DiscordClientRequestTimestamp,
    DiscordClientRequestTimestampMode};
use slippi_ext::jukebox::{hps_to_stage, read_u24, read_u32, CisoHeader, OffsetLocator};
use slippi_ext::jsonenc::build_graphql_request_body;
use slippi_ext::melee::{MeleeCharacter, MeleeScene, MeleeStage, MultiManVariant,
    OptionalMeleeCharacter, OptionalMeleeStage, SlippiMenuScene};
use slippi_ext::playback::{EngineConfig, EngineError, FrameDecision, FrameInputs, GeckoManager,
    IsReplayReadyResult, ParsedReplay, PlaybackEngine, ReplayConfigSource, ReplayParser,
    StartConditions};
use slippi_ext::rank::{decide, get_rank_idx_from_info, match_result_step, update_rank,
    FetchStatus, MatchResult, MatchResultParticipant, MatchStatus, PollAction, RankData,
    RankFetchStatus, RankFetcherStatus, RankInfo, SlippiRank};
use slippi_ext::types::{build_report_variables, GameReport, OnlinePlayMode, PlayerReport};

#[test]
fn report_variables_render_every_field_exactly() {
    let report = GameReport {
        match_id: "mode.unranked-2024".to_string(),
        players: vec![
            PlayerReport { uid: "ab\"c".to_string(), slot: 0, character_id: 2, stocks_remaining: 4 },
            PlayerReport { uid: "xyz".to_string(), slot: 1, character_id: 20, stocks_remaining: 0 },
        ],
        stage_id: 31,
        online_mode: OnlinePlayMode::Unranked,
        attempts: 3,
        replay_data: Vec::new(),
    };
    let iso = "23d6baef06bd65989585096915da20f2".to_string();
    let vars = build_report_variables(&report, Some(&iso));
    let expected = "{\"report\":{\"attempts\":3,\"isoHash\":\"23d6baef06bd65989585096915da20f2\",\"matchId\":\"mode.unranked-2024\",\"mode\":\"UNRANKED\",\"players\":[{\"characterId\":2,\"slot\":0,\"stocksRemaining\":4,\"uid\":\"ab\\\"c\"},{\"characterId\":20,\"slot\":1,\"stocksRemaining\":0,\"uid\":\"xyz\"}],\"stageId\":31}}";
    assert_eq!(String::from_utf8(vars).unwrap(), expected);
}

#[test]
fn request_body_wraps_query_and_escapes_it() {
    let vars = b"{\"a\":1}".to_vec();
    let body = build_graphql_request_body("query { a\n}", Some(&vars));
    assert_eq!(
        String::from_utf8(body).unwrap(),
        "{\"query\":\"query { a\\u000a}\",\"variables\":{\"a\":1}}"
    );
    let body = build_graphql_request_body("q", None);
    assert_eq!(String::from_utf8(body).unwrap(), "{\"query\":\"q\"}");
}

#[test]
fn rank_ladder_maps_ratings_to_ranks() {
    // Below five rating updates the player is unranked whatever the rating.
    assert_eq!(decide(200_000, 5, 5, 4), SlippiRank::Unranked);
    // Hundredths keep the two-decimal thresholds exact.
    assert_eq!(decide(76_542, 0, 0, 5), SlippiRank::Bronze1);
    assert_eq!(decide(76_543, 0, 0, 5), SlippiRank::Unranked);
    assert_eq!(decide(76_544, 0, 0, 5), SlippiRank::Bronze2);
    assert_eq!(decide(110_000, 0, 0, 30), SlippiRank::Silver1);
    assert_eq!(decide(160_000, 0, 0, 30), SlippiRank::Gold2);
    assert_eq!(decide(190_000, 0, 0, 30), SlippiRank::Platinum2);
    assert_eq!(decide(210_000, 0, 0, 30), SlippiRank::Diamond2);
    assert_eq!(decide(220_000, 0, 0, 30), SlippiRank::Master1);
    assert_eq!(decide(236_000, 0, 0, 30), SlippiRank::Master3);
    // Grandmaster needs both daily placings.
    assert_eq!(decide(220_000, 3, 1, 30), SlippiRank::Grandmaster);
    assert_eq!(decide(220_000, 0, 1, 30), SlippiRank::Master1);
    assert_eq!(SlippiRank::Grandmaster.rank_index(), 19);
}

#[test]
fn match_result_updates_the_current_rank() {
    let mut data = RankData::default();
    assert!(matches!(data.fetch_status, FetchStatus::NotFetched));
    let response = MatchResult {
        status: MatchStatus::Complete,
        participant: MatchResultParticipant {
            pre_match_ordinal_centi: Some(76_542),
            pre_match_daily_global_placement: None,
            pre_match_daily_regional_placement: None,
            pre_match_rating_update_count: Some(12),
            post_match_rating_change_centi: Some(2),
        },
    };
    update_rank(&mut data, response);
    // The pre-match slice, with the rank it implies, lands in previous.
    let prev = data.previous_rank.expect("a previous rank is recorded");
    assert_eq!(prev.rating_ordinal_centi, 76_542);
    assert_eq!(prev.rating_update_count, 12);
    assert_eq!(prev.rank, 1);
    assert_eq!(prev.rating_change_centi, 0);
    let info = data.current_rank.expect("a current rank is recorded");
    assert_eq!(info.rating_ordinal_centi, 76_544);
    assert_eq!(info.rating_update_count, 13);
    // Bronze1 (index 1) became Bronze2 (index 2).
    assert_eq!(info.rank, 2);
    assert_eq!(info.rank_change, 1);
    assert_eq!(
        get_rank_idx_from_info(&RankInfo { rating_ordinal_centi: 76_542, rating_update_count: 12,
            ..RankInfo::default() }),
        1
    );
}

#[test]
fn rank_fetcher_status_starts_fetched_and_follows_set() {
    let mut status = RankFetcherStatus::new();
    assert!(matches!(status.get(), RankFetchStatus::Fetched));
    status.set(RankFetchStatus::Fetching);
    assert!(matches!(status.get(), RankFetchStatus::Fetching));
    status.set(RankFetchStatus::Error);
    assert!(matches!(status.get(), RankFetchStatus::Error));
}

#[test]
fn characters_map_between_selection_index_and_identifier() {
    assert_eq!(MeleeCharacter::from_css(0), Some(MeleeCharacter::DrMario));
    assert_eq!(MeleeCharacter::from_css(10), Some(MeleeCharacter::Fox));
    assert_eq!(MeleeCharacter::from_css(24), Some(MeleeCharacter::Roy));
    assert_eq!(MeleeCharacter::from_css(25), None);
    assert_eq!(MeleeCharacter::Fox.code(), 2);
    assert_eq!(MeleeCharacter::Fox.name(), "Fox");
    assert_eq!(MeleeCharacter::MrGameAndWatch.name(), "Mr. Game & Watch");
    assert_eq!(OptionalMeleeCharacter(Some(MeleeCharacter::Fox)).as_discord_resource(), "char2");
    assert_eq!(
        OptionalMeleeCharacter(Some(MeleeCharacter::Hidden)).as_discord_resource(),
        "transparent"
    );
    assert_eq!(OptionalMeleeCharacter(None).as_discord_resource(), "questionmark");
}

#[test]
fn stages_map_to_identifiers_and_resources() {
    assert_eq!(MeleeStage::Battle.code(), 36);
    assert_eq!(MeleeStage::FD.name(), "Final Destination");
    assert!(!MeleeStage::FD.is_target_test());
    assert!(MeleeStage::FoxTargetTest.is_target_test());
    assert_eq!(MeleeStage::FoxTargetTest.name(), "Target Test (Fox)");
    assert_eq!(OptionalMeleeStage(Some(MeleeStage::Battle)).as_discord_resource(), "stage36");
    assert_eq!(
        OptionalMeleeStage(Some(MeleeStage::FoxTargetTest)).as_discord_resource(),
        "stagebtt"
    );
    assert_eq!(OptionalMeleeStage(None).as_discord_resource(), "questionmark");
}

#[test]
fn scene_labels_follow_the_configuration() {
    assert_eq!(MeleeScene::MainMenu.label(false), "Main Menu");
    assert_eq!(MeleeScene::SlippiOnline(Some(SlippiMenuScene::Ranked)).label(false), "Ranked");
    assert_eq!(MeleeScene::SlippiOnline(None).label(false), "Slippi Online");
    assert_eq!(MeleeScene::TargetTest(Some(MeleeStage::FoxTargetTest)).label(false), "Target Test");
    assert_eq!(
        MeleeScene::TargetTest(Some(MeleeStage::FoxTargetTest)).label(true),
        "Target Test (Fox)"
    );
    assert_eq!(
        MeleeScene::MultiManMelee(MultiManVariant::Cruel).label(false),
        "Multi-Man Melee (Cruel)"
    );
}

#[test]
fn presence_requests_carry_their_fields() {
    let req = DiscordClientRequest::queue(Some(SlippiMenuScene::Unranked), Some(MeleeCharacter::Falco));
    assert_eq!(req.scene, Some(SlippiMenuScene::Unranked));
    assert_eq!(req.character.0, Some(MeleeCharacter::Falco));
    let game = DiscordClientRequest::game(
        Some(MeleeStage::Battle),
        Some(MeleeCharacter::Fox),
        MeleeScene::SlippiOnline(Some(SlippiMenuScene::Ranked)),
        false,
        DiscordClientRequestTimestamp::none(),
        Some("rival".to_string()),
    );
    assert_eq!(game.mode, "Ranked");
    assert_eq!(game.opp_name, Some("rival".to_string()));
    // Static timestamps always compare equal; live ones only within the
    // resynchronization window.
    let a = DiscordClientRequestTimestamp {
        mode: DiscordClientRequestTimestampMode::Start,
        timestamp: 100,
    };
    let b = DiscordClientRequestTimestamp {
        mode: DiscordClientRequestTimestampMode::Start,
        timestamp: 114,
    };
    let c = DiscordClientRequestTimestamp {
        mode: DiscordClientRequestTimestampMode::Start,
        timestamp: 115,
    };
    assert!(a == b);
    assert!(a != c);
    let s = DiscordClientRequestTimestamp {
        mode: DiscordClientRequestTimestampMode::Static,
        timestamp: 0,
    };
    assert!(s == c);
}

#[test]
fn connect_codes_validate_and_render_as_urls() {
    assert!(ConnectCode::new("ABC#123".to_string()).is_valid());
    assert!(ConnectCode::new("a1#999999".to_string()).is_valid());
    assert!(!ConnectCode::new("#123".to_string()).is_valid());
    assert!(!ConnectCode::new("ABC#".to_string()).is_valid());
    assert!(!ConnectCode::new("ABC#1234567".to_string()).is_valid());
    assert!(!ConnectCode::new("AB C#12".to_string()).is_valid());
    assert!(!ConnectCode::new("ABC#12a".to_string()).is_valid());
    assert!(!ConnectCode::new("ABC123".to_string()).is_valid());
    assert_eq!(ConnectCode::new("ABC#123".to_string()).as_url(), "abc-123");
}

#[test]
fn disc_field_readers_are_big_endian() {
    let bytes = [0x00u8, 0x12, 0x34, 0x56, 0x78, 0x9a];
    assert_eq!(read_u24(&bytes, 1), 0x123456);
    assert_eq!(read_u32(&bytes, 1), 0x12345678);
    assert_eq!(read_u32(&bytes, 2), 0x3456789a);
}

#[test]
fn music_names_map_to_stages() {
    assert_eq!(hps_to_stage("hyaku2.hps"), Some("final_destination".to_string()));
    assert_eq!(hps_to_stage("sp_end.hps"), Some("final_destination".to_string()));
    assert_eq!(hps_to_stage("izumi.hps"), Some("fountain_of_dreams".to_string()));
    assert_eq!(hps_to_stage("menu01.hps"), Some("menu".to_string()));
    assert_eq!(hps_to_stage("unknown.hps"), None);
}

#[test]
fn offset_locator_translates_compressed_images_only() {
    let plain = OffsetLocator(None);
    assert_eq!(plain.get_real_offset(0x424), Some(0x424));
    // Blocks 0 and 2 present, block 1 dropped; block size 0x100.
    let header = CisoHeader { block_size: 0x100, block_map: vec![true, false, true] };
    let ciso = OffsetLocator(Some(header));
    // Offset 0x12 sits in block 0, the first present block.
    assert_eq!(ciso.get_real_offset(0x12), Some(0x8000 + 0x12));
    // Block 1 is absent.
    assert_eq!(ciso.get_real_offset(0x150), None);
    // Offset 0x210 sits in block 2, the second present block.
    assert_eq!(ciso.get_real_offset(0x210), Some(0x8000 + 0x100 + 0x10));
    // Beyond the map nothing exists.
    assert_eq!(ciso.get_real_offset(0x300), None);
}

struct FixedConfig {
    path: Option<String>,
}

impl ReplayConfigSource for FixedConfig {
    fn read_current(&self) -> Result<EngineConfig, EngineError> {
        Ok(EngineConfig { replay_path: self.path.clone() })
    }
}

struct TinyParser;

impl ReplayParser for TinyParser {
    fn parse(&self, _path: &str) -> Result<ParsedReplay, EngineError> {
        Ok(ParsedReplay {
            frames: vec![FrameInputs::default(), FrameInputs::default()],
            start_conditions: StartConditions { stage_id: 2, characters: vec![1, 2],
                settings_blob: Vec::new() },
            initial_rng_seed: 0x1234_5678,
        })
    }
}

#[test]
fn playback_engine_loads_prepares_and_plays_frames() {
    let mut engine = PlaybackEngine::builder()
        .with_config(FixedConfig { path: Some("replay-a".to_string()) })
        .with_parser(TinyParser)
        .build();
    // First poll loads the new replay.
    assert!(matches!(engine.is_replay_ready(), Ok(IsReplayReadyResult::NewGameLoaded)));
    // Second poll finds it loaded and ready.
    assert!(matches!(engine.is_replay_ready(), Ok(IsReplayReadyResult::Ready)));
    // The patch list is not prepared until asked for.
    assert!(matches!(engine.get_replay_gecko_codelist(), Err(EngineError::GeckoNotPrepared)));
    engine.prepare_replay().expect("minimum start data is present");
    let (codes, total) = engine.get_replay_gecko_codelist().expect("prepared");
    assert_eq!(codes, [b'G', b'E', b'C', b'K', b'O', 0, 2, 0]);
    assert_eq!(total, 8);
    // Two frames play, then the replay is exhausted.
    let (decision, pkg) = engine.prepare_replay_frame().unwrap();
    assert_eq!(decision, FrameDecision::Play);
    let pkg = pkg.expect("first frame");
    assert_eq!(pkg.frame_index, 0);
    assert_eq!(pkg.rng_seed, 0x1234_5678);
    let (_, pkg) = engine.prepare_replay_frame().unwrap();
    assert_eq!(pkg.expect("second frame").frame_index, 1);
    let (_, pkg) = engine.prepare_replay_frame().unwrap();
    assert!(pkg.is_none());
    // The control flags steer the decision.
    engine.state.paused = true;
    let (decision, pkg) = engine.prepare_replay_frame().unwrap();
    assert_eq!(decision, FrameDecision::Halt);
    assert!(pkg.is_none());
    engine.state.should_terminate = true;
    let (decision, _) = engine.prepare_replay_frame().unwrap();
    assert_eq!(decision, FrameDecision::Terminate);
}

#[test]
fn playback_engine_reports_missing_configuration() {
    let mut engine = PlaybackEngine::builder()
        .with_config(FixedConfig { path: None })
        .with_parser(TinyParser)
        .build();
    match engine.is_replay_ready() {
        Ok(IsReplayReadyResult::NotReady { reason }) => {
            assert_eq!(reason, "no replay path specified");
        },
        other => panic!("expected not ready, got {other:?}"),
    }
    assert!(matches!(engine.prepare_replay(), Err(EngineError::InsufficientData(_))));
}

#[test]
fn configuration_merges_environment_over_build_default() {
    let cfg = SlippiConfig::get("development", None);
    assert_eq!(
        cfg.graphql_url.as_deref(),
        Some("https://gql-gateway-dev-dot-slippi.uc.r.appspot.com/graphql")
    );
    let cfg = SlippiConfig::get("production", Some("https://example/graphql".to_string()));
    // The build environment's value takes precedence over the process
    // environment's default.
    assert_eq!(
        cfg.graphql_url.as_deref(),
        Some("https://gql-gateway-dev-dot-slippi.uc.r.appspot.com/graphql")
    );
    assert!(SlippiConfig::development().graphql_url.is_some());
    assert!(SlippiConfig::production().graphql_url.is_some());
}

#[test]
fn gecko_bytes_carry_the_stage_identifier_little_endian() {
    let gecko = GeckoManager;
    let (bytes, total) = gecko.prepare_for_match(&StartConditions {
        stage_id: 0x1234,
        characters: Vec::new(),
        settings_blob: Vec::new(),
    });
    assert_eq!(bytes, [b'G', b'E', b'C', b'K', b'O', 0, 0x34, 0x12]);
    assert_eq!(total, 8);
}

#[test]
fn default_chat_messages_are_the_sixteen_built_ins() {
    let messages = slippi_ext::user::default();
    assert_eq!(messages.len(), 16);
    assert_eq!(messages[0], "ggs");
    assert_eq!(messages[15], "bad connection");
}

#[test]
fn match_result_poll_retries_then_settles() {
    fn settled(status: MatchStatus) -> MatchResult {
        MatchResult {
            status,
            participant: MatchResultParticipant {
                pre_match_ordinal_centi: Some(100_000),
                pre_match_daily_global_placement: None,
                pre_match_daily_regional_placement: None,
                pre_match_rating_update_count: Some(9),
                post_match_rating_change_centi: Some(-150),
            },
        }
    }
    // A result still marked assigned is retried twice, two seconds apart,
    // and folded in on the third try.
    let mut data = RankData::default();
    let mut retries = 0u32;
    assert_eq!(
        match_result_step(&mut data, &mut retries, Some(settled(MatchStatus::Assigned))),
        PollAction::RetryAfterSecs(2)
    );
    assert_eq!(
        match_result_step(&mut data, &mut retries, Some(settled(MatchStatus::Assigned))),
        PollAction::RetryAfterSecs(2)
    );
    assert!(data.current_rank.is_none());
    assert_eq!(
        match_result_step(&mut data, &mut retries, Some(settled(MatchStatus::Assigned))),
        PollAction::Stop
    );
    assert!(matches!(data.fetch_status, FetchStatus::Fetched));
    assert_eq!(data.current_rank.unwrap().rating_ordinal_centi, 99_850);

    // A completed result settles at once.
    let mut data = RankData::default();
    let mut retries = 0u32;
    assert_eq!(
        match_result_step(&mut data, &mut retries, Some(settled(MatchStatus::Complete))),
        PollAction::Stop
    );
    assert!(matches!(data.fetch_status, FetchStatus::Fetched));

    // Three failed fetches end the poll with the error status.
    let mut data = RankData::default();
    let mut retries = 0u32;
    assert_eq!(match_result_step(&mut data, &mut retries, None), PollAction::RetryAfterSecs(1));
    assert_eq!(match_result_step(&mut data, &mut retries, None), PollAction::RetryAfterSecs(1));
    assert!(matches!(data.fetch_status, FetchStatus::Fetching));
    assert_eq!(match_result_step(&mut data, &mut retries, None), PollAction::Stop);
    assert!(matches!(data.fetch_status, FetchStatus::Error));
    assert!(data.current_rank.is_none());
}
