use render_to_video::clock::TimeLimit;
use render_to_video::error::RenderError;
use render_to_video::headless::{after_step, has_pending_close, HeadlessAction, WindowCommand};
use render_to_video::producer::ProducerStatus;
use render_to_video::settle::{
    scene_videos_up_to_date, FramePasses, PassVerdict, SeekSettle, SeekVerdict, VideoCaches,
};
use render_to_video::wait::{
    first_data_timeout, DisconnectDrain, FirstDataVerdict, FirstDataWait, LoadLook, LoadVerdict,
    LoadWait, StoreGeneration,
};

const SECOND: u128 = 1_000_000_000;

fn look(receivers_empty: bool, recording_active: bool) -> LoadLook {
    LoadLook { receivers_empty, recording_active }
}

#[test]
fn a_recording_is_loaded_once_its_source_is_gone() {
    let limit = TimeLimit::new(300, 0);
    let mut wait = LoadWait::new();
    assert_eq!(wait.look(look(true, true), 0, limit), LoadVerdict::Wait);
    assert_eq!(wait.look(look(false, false), 1, limit), LoadVerdict::Wait);
    assert_eq!(wait.look(look(false, true), 2, limit), LoadVerdict::Wait);
    assert_eq!(wait.look(look(true, false), 3, limit), LoadVerdict::Wait);
    assert_eq!(wait.look(look(true, true), 4, limit), LoadVerdict::Loaded);
}

#[test]
fn a_sustained_ready_state_counts_as_loaded() {
    let limit = TimeLimit::new(300, 0);
    let mut wait = LoadWait::new();
    for _ in 0..99 {
        assert_eq!(wait.look(look(true, true), 0, limit), LoadVerdict::Wait);
    }
    assert_eq!(wait.look(look(true, true), 0, limit), LoadVerdict::Loaded);

    let mut wait = LoadWait::new();
    for _ in 0..99 {
        assert_eq!(wait.look(look(true, true), 0, limit), LoadVerdict::Wait);
    }
    assert_eq!(wait.look(look(true, false), 0, limit), LoadVerdict::Wait);
    for _ in 0..99 {
        assert_eq!(wait.look(look(true, true), 0, limit), LoadVerdict::Wait);
    }
    assert_eq!(wait.look(look(true, true), 0, limit), LoadVerdict::Loaded);
}

#[test]
fn loading_can_time_out() {
    let limit = TimeLimit::new(1, 0);
    let mut wait = LoadWait::new();
    assert_eq!(wait.look(look(false, true), SECOND, limit), LoadVerdict::Wait);
    assert_eq!(wait.look(look(false, true), SECOND + 1, limit), LoadVerdict::TimedOut);
    assert_eq!(wait.look(look(true, true), SECOND + 2, limit), LoadVerdict::Loaded);
}

#[test]
fn the_first_data_ends_the_wait() {
    let limit = TimeLimit::new(60, 0);
    let mut wait = FirstDataWait::new();
    let never = ProducerStatus::NeverConnected;
    assert_eq!(wait.look(false, never, 0, limit), FirstDataVerdict::Wait);
    assert_eq!(wait.look(false, ProducerStatus::Connected, 1, limit), FirstDataVerdict::Wait);
    assert_eq!(
        wait.look(true, ProducerStatus::Connected, 100 * SECOND, limit),
        FirstDataVerdict::Arrived
    );
}

#[test]
fn a_missing_client_times_out() {
    let limit = TimeLimit::new(60, 0);
    let never = ProducerStatus::NeverConnected;
    let mut wait = FirstDataWait::new();
    assert_eq!(wait.look(false, never, 60 * SECOND, limit), FirstDataVerdict::Wait);
    assert_eq!(wait.look(false, never, 60 * SECOND + 1, limit), FirstDataVerdict::TimedOut);
    assert!(matches!(first_data_timeout(never, limit), RenderError::ConnectTimeout { .. }));
    assert!(matches!(
        first_data_timeout(ProducerStatus::Connected, limit),
        RenderError::DataTimeout { .. }
    ));
    assert!(matches!(
        first_data_timeout(ProducerStatus::Disconnected, limit),
        RenderError::DataTimeout { .. }
    ));
}

#[test]
fn a_client_that_left_gets_ten_seconds() {
    let limit = TimeLimit::new(60, 0);
    let gone = ProducerStatus::Disconnected;
    let mut wait = FirstDataWait::new();
    assert_eq!(wait.look(false, gone, SECOND, limit), FirstDataVerdict::Wait);
    assert_eq!(wait.look(false, gone, 11 * SECOND, limit), FirstDataVerdict::Wait);
    assert_eq!(wait.look(false, gone, 11 * SECOND + 1, limit), FirstDataVerdict::NothingLogged);

    let mut wait = FirstDataWait::new();
    assert_eq!(wait.look(false, gone, SECOND, limit), FirstDataVerdict::Wait);
    let back = ProducerStatus::Connected;
    assert_eq!(wait.look(false, back, 2 * SECOND, limit), FirstDataVerdict::Wait);
    assert_eq!(wait.look(false, gone, 9 * SECOND, limit), FirstDataVerdict::Wait);
    assert_eq!(wait.look(false, gone, 19 * SECOND, limit), FirstDataVerdict::Wait);
    assert_eq!(wait.look(false, gone, 19 * SECOND + 1, limit), FirstDataVerdict::NothingLogged);
}

#[test]
fn counters_tell_the_lifecycle() {
    assert_eq!(ProducerStatus::from_client_counts(0, 0), ProducerStatus::NeverConnected);
    assert_eq!(ProducerStatus::from_client_counts(1, 1), ProducerStatus::Connected);
    assert_eq!(ProducerStatus::from_client_counts(2, 5), ProducerStatus::Connected);
    assert_eq!(ProducerStatus::from_client_counts(0, 5), ProducerStatus::Disconnected);
}

fn generation(insertions: u64) -> Option<StoreGeneration> {
    Some(StoreGeneration { insertions, collections: 0 })
}

#[test]
fn a_quiet_store_is_drained() {
    let ms = 1_000_000;
    let mut drain = DisconnectDrain::new();
    assert!(!drain.look(generation(1), 10 * ms));
    assert!(!drain.look(generation(1), 100 * ms));
    assert!(!drain.look(generation(2), 259 * ms));
    assert!(!drain.look(generation(2), 508 * ms));
    assert!(drain.look(generation(2), 509 * ms));

    let mut drain = DisconnectDrain::new();
    assert!(!drain.look(None, 249 * ms));
    assert!(drain.look(None, 250 * ms));

    assert!(drain.goes_on(9_999_999_999));
    assert!(!drain.goes_on(10_000_000_000));
}

#[test]
fn collected_garbage_is_a_change() {
    let mut drain = DisconnectDrain::new();
    let before = Some(StoreGeneration { insertions: 1, collections: 0 });
    let after = Some(StoreGeneration { insertions: 1, collections: 1 });
    assert!(!drain.look(before, 0));
    assert!(!drain.look(after, SECOND));
    assert!(drain.look(after, 2 * SECOND));
}

#[test]
fn videos_that_are_not_there_are_up_to_date() {
    let caches = |streams_up_to_date, assets_up_to_date| {
        scene_videos_up_to_date(Some(VideoCaches { streams_up_to_date, assets_up_to_date }))
    };
    assert!(scene_videos_up_to_date(None));
    assert!(caches(None, None));
    assert!(caches(Some(true), None));
    assert!(caches(Some(true), Some(true)));
    assert!(!caches(Some(false), None));
    assert!(!caches(Some(true), Some(false)));
}

#[test]
fn extra_passes_only_while_a_video_is_behind() {
    let mut passes = FramePasses::new(240);
    assert_eq!(passes.judge(true), PassVerdict::Fresh);
    assert_eq!(passes.passes(), 1);

    let mut passes = FramePasses::new(3);
    assert_eq!(passes.judge(false), PassVerdict::Again);
    assert_eq!(passes.judge(false), PassVerdict::Again);
    assert_eq!(passes.judge(false), PassVerdict::Stale);
    assert_eq!(passes.passes(), 3);

    let mut passes = FramePasses::new(0);
    assert_eq!(passes.judge(false), PassVerdict::Stale);
    assert_eq!(passes.passes(), 1);
}

#[test]
fn a_seek_settles_after_a_calm_streak() {
    let mut settle = SeekSettle::new(2, 10);
    assert_eq!(settle.verdict(), SeekVerdict::Step);
    assert!(!settle.stepped(false, false));
    assert!(settle.stepped(true, false));
    assert!(settle.stepped(false, true));
    assert!(!settle.stepped(false, false));
    assert_eq!(settle.verdict(), SeekVerdict::Step);
    assert!(!settle.stepped(false, false));
    assert_eq!(settle.verdict(), SeekVerdict::Settled);
}

#[test]
fn settling_is_bounded() {
    let mut settle = SeekSettle::new(2, 3);
    for _ in 0..3 {
        assert_eq!(settle.verdict(), SeekVerdict::Step);
        assert!(settle.stepped(true, true));
    }
    assert_eq!(settle.verdict(), SeekVerdict::GaveUp);
    assert_eq!(SeekSettle::new(0, 0).verdict(), SeekVerdict::Settled);
    assert_eq!(SeekSettle::new(1, 0).verdict(), SeekVerdict::GaveUp);
}

#[test]
fn a_close_command_ends_the_headless_loop() {
    let other = WindowCommand::Other;
    assert!(!has_pending_close(&vec![]));
    assert!(!has_pending_close(&vec![vec![], vec![other, other]]));
    assert!(has_pending_close(&vec![vec![other], vec![other, WindowCommand::Close]]));
    assert_eq!(after_step(true, true), HeadlessAction::Exit);
    assert_eq!(after_step(false, true), HeadlessAction::Step);
    assert_eq!(after_step(false, false), HeadlessAction::Wait);
}
