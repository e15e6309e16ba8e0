use steam_achievements::catalog::{
    all_steam_achievements, all_steam_stats, STEAM_ACHIEVEMENT_TRAVEL_FAR_ACCUM,
    STEAM_ACHIEVEMENT_TRAVEL_FAR_SINGLE, STEAM_ACHIEVEMENT_WIN_100_GAMES,
    STEAM_ACHIEVEMENT_WIN_ONE_GAME, STEAM_STAT_FEET_TRAVELED,
};
use steam_achievements::engine::{
    write_step, FlagRead, RemoteEvent, StatRead, WriteOutcome, WriteStage, WriteStep,
};
use steam_achievements::requests::{ProgressSteamStatEvent, UnlockSteamAchievementEvent};
use steam_achievements::state::SteamIntegrationState;

fn flag(name: &str, unlocked: Option<bool>) -> FlagRead {
    FlagRead { name: name.to_string(), unlocked }
}

fn stat(name: &str, value: Option<u64>) -> StatRead {
    StatRead { name: name.to_string(), value }
}

/// A cache after a successful snapshot with the given reads.
fn ready_state(flags: Vec<FlagRead>, stats: Vec<StatRead>) -> SteamIntegrationState {
    let mut s = SteamIntegrationState::new();
    assert!(s.steam_callback_handler(&RemoteEvent::SnapshotReady { ok: true }));
    s.read_achievement_status(&flags, &stats);
    s
}

/// Runs a write through the step machine with the given call results.
fn run_write(set_ok: bool, store_ok: bool) -> WriteOutcome {
    match write_step(WriteStage::AwaitingSet, set_ok) {
        WriteStep::CallStore => match write_step(WriteStage::AwaitingStore, store_ok) {
            WriteStep::Finished(o) => o,
            WriteStep::CallStore => panic!("store call asked twice"),
        },
        WriteStep::Finished(o) => o,
    }
}

#[test]
fn catalog_scenario_progress_then_unlock() {
    let mut s = ready_state(
        vec![flag(STEAM_ACHIEVEMENT_WIN_ONE_GAME, Some(false))],
        vec![stat(STEAM_STAT_FEET_TRAVELED, Some(0))],
    );
    assert!(s.is_ready());
    assert!(!s.already_unlocked("ACH_WIN_ONE_GAME"));
    assert_eq!(s.counter_value("FeetTraveled"), Some(0));

    let target = s.on_stat_progress("FeetTraveled", 1000);
    assert_eq!(target, Some(1000));
    s.finish_stat_progress("FeetTraveled", 1000, run_write(true, true));
    assert_eq!(s.counter_value("FeetTraveled"), Some(1000));

    assert!(s.on_unlock_achievement("ACH_WIN_ONE_GAME"));
    assert_eq!(run_write(true, true), WriteOutcome::Stored);
    assert!(!s.already_unlocked("ACH_WIN_ONE_GAME"));
    let ev = RemoteEvent::FlagConfirmed { name: "ACH_WIN_ONE_GAME".to_string() };
    assert!(!s.steam_callback_handler(&ev));
    assert!(s.already_unlocked("ACH_WIN_ONE_GAME"));
    assert!(!s.on_unlock_achievement("ACH_WIN_ONE_GAME"));
}

#[test]
fn unlock_before_snapshot_is_dropped() {
    let s = SteamIntegrationState::new();
    assert!(!s.on_unlock_achievement(STEAM_ACHIEVEMENT_WIN_100_GAMES));
    assert!(!s.already_unlocked(STEAM_ACHIEVEMENT_WIN_100_GAMES));
}

#[test]
fn unlock_twice_calls_once() {
    let mut s = ready_state(vec![flag(STEAM_ACHIEVEMENT_WIN_100_GAMES, Some(false))], vec![]);
    let mut calls: u32 = 0;
    for _ in 0..2 {
        if s.on_unlock_achievement(STEAM_ACHIEVEMENT_WIN_100_GAMES) {
            calls += 1;
            assert_eq!(run_write(true, true), WriteOutcome::Stored);
            let ev = RemoteEvent::FlagConfirmed { name: STEAM_ACHIEVEMENT_WIN_100_GAMES.to_string() };
            s.steam_callback_handler(&ev);
        }
    }
    assert_eq!(calls, 1);
    assert!(s.already_unlocked(STEAM_ACHIEVEMENT_WIN_100_GAMES));
}

#[test]
fn unlock_of_flag_read_as_unlocked_is_dropped() {
    let s = ready_state(vec![flag(STEAM_ACHIEVEMENT_TRAVEL_FAR_SINGLE, Some(true))], vec![]);
    assert!(s.already_unlocked(STEAM_ACHIEVEMENT_TRAVEL_FAR_SINGLE));
    assert!(!s.on_unlock_achievement(STEAM_ACHIEVEMENT_TRAVEL_FAR_SINGLE));
}

#[test]
fn repeated_confirmation_is_harmless() {
    let mut s = ready_state(vec![], vec![]);
    let ev = RemoteEvent::FlagConfirmed { name: "ACH_X".to_string() };
    s.steam_callback_handler(&ev);
    s.steam_callback_handler(&ev);
    assert!(s.already_unlocked("ACH_X"));
    assert!(!s.already_unlocked("ACH_Y"));
}

#[test]
fn progress_accumulates_over_two_requests() {
    let mut s = ready_state(vec![], vec![stat(STEAM_STAT_FEET_TRAVELED, Some(7))]);
    let v1 = s.on_stat_progress(STEAM_STAT_FEET_TRAVELED, 10).unwrap();
    s.finish_stat_progress(STEAM_STAT_FEET_TRAVELED, v1, WriteOutcome::Stored);
    let v2 = s.on_stat_progress(STEAM_STAT_FEET_TRAVELED, 25).unwrap();
    s.finish_stat_progress(STEAM_STAT_FEET_TRAVELED, v2, WriteOutcome::Stored);
    assert_eq!(s.counter_value(STEAM_STAT_FEET_TRAVELED), Some(42));
}

#[test]
fn failed_set_counter_keeps_value() {
    let mut s = ready_state(vec![], vec![stat(STEAM_STAT_FEET_TRAVELED, Some(5))]);
    let v = s.on_stat_progress(STEAM_STAT_FEET_TRAVELED, 3).unwrap();
    assert_eq!(v, 8);
    let outcome = run_write(false, true);
    assert_eq!(outcome, WriteOutcome::SetFailed);
    s.finish_stat_progress(STEAM_STAT_FEET_TRAVELED, v, outcome);
    assert_eq!(s.counter_value(STEAM_STAT_FEET_TRAVELED), Some(5));
}

#[test]
fn failed_store_keeps_value() {
    let mut s = ready_state(vec![], vec![stat(STEAM_STAT_FEET_TRAVELED, Some(5))]);
    let v = s.on_stat_progress(STEAM_STAT_FEET_TRAVELED, 3).unwrap();
    let outcome = run_write(true, false);
    assert_eq!(outcome, WriteOutcome::StoreFailed);
    s.finish_stat_progress(STEAM_STAT_FEET_TRAVELED, v, outcome);
    assert_eq!(s.counter_value(STEAM_STAT_FEET_TRAVELED), Some(5));
}

#[test]
fn failed_snapshot_keeps_engine_not_ready() {
    let mut s = SteamIntegrationState::new();
    assert!(!s.steam_callback_handler(&RemoteEvent::SnapshotReady { ok: false }));
    assert!(!s.is_ready());
    s.steam_callback_handler(&RemoteEvent::ConnectionLifecycle);
    s.steam_callback_handler(&RemoteEvent::StatsStored { ok: true });
    assert!(!s.is_ready());
    assert!(!s.on_unlock_achievement(STEAM_ACHIEVEMENT_WIN_ONE_GAME));
    assert_eq!(s.on_stat_progress(STEAM_STAT_FEET_TRAVELED, 1), None);
}

#[test]
fn ready_is_never_lost() {
    let mut s = ready_state(vec![], vec![]);
    assert!(!s.steam_callback_handler(&RemoteEvent::SnapshotReady { ok: false }));
    assert!(s.is_ready());
}

#[test]
fn progress_on_unloaded_counter_is_dropped() {
    let s = ready_state(vec![], vec![stat(STEAM_STAT_FEET_TRAVELED, None)]);
    assert_eq!(s.counter_value(STEAM_STAT_FEET_TRAVELED), None);
    assert_eq!(s.on_stat_progress(STEAM_STAT_FEET_TRAVELED, 1), None);
    assert_eq!(s.on_stat_progress("Unknown", 1), None);
}

#[test]
fn progress_that_overflows_is_dropped() {
    let s = ready_state(vec![], vec![stat("Big", Some(u64::MAX - 1))]);
    assert_eq!(s.on_stat_progress("Big", 1), Some(u64::MAX));
    assert_eq!(s.on_stat_progress("Big", 2), None);
}

#[test]
fn failed_flag_query_leaves_flag_locked() {
    let s = ready_state(
        vec![flag("A", None), flag("B", Some(true)), flag("C", Some(false))],
        vec![],
    );
    assert!(!s.already_unlocked("A"));
    assert!(s.already_unlocked("B"));
    assert!(!s.already_unlocked("C"));
}

#[test]
fn later_counter_read_wins() {
    let s = ready_state(vec![], vec![stat("S", Some(1)), stat("S", Some(9)), stat("S", None)]);
    assert_eq!(s.counter_value("S"), Some(9));
}

#[test]
fn cache_setters() {
    let mut s = SteamIntegrationState::default();
    assert!(!s.is_ready());
    s.set_counter("S", 3);
    s.set_counter("S", 4);
    s.set_counter("T", 1);
    assert_eq!(s.counter_value("S"), Some(4));
    assert_eq!(s.counter_value("T"), Some(1));
    s.mark_unlocked("F");
    s.mark_unlocked("F");
    assert!(s.already_unlocked("F"));
    s.set_ready(true);
    assert!(s.is_ready());
}

#[test]
fn write_steps() {
    assert_eq!(write_step(WriteStage::AwaitingSet, true), WriteStep::CallStore);
    assert_eq!(
        write_step(WriteStage::AwaitingSet, false),
        WriteStep::Finished(WriteOutcome::SetFailed)
    );
    assert_eq!(
        write_step(WriteStage::AwaitingStore, true),
        WriteStep::Finished(WriteOutcome::Stored)
    );
    assert_eq!(
        write_step(WriteStage::AwaitingStore, false),
        WriteStep::Finished(WriteOutcome::StoreFailed)
    );
}

#[test]
fn catalog_lists() {
    assert_eq!(
        all_steam_achievements(),
        vec![
            "ACH_WIN_ONE_GAME",
            "ACH_WIN_100_GAMES",
            "ACH_TRAVEL_FAR_SINGLE",
            STEAM_ACHIEVEMENT_TRAVEL_FAR_ACCUM
        ]
    );
    assert_eq!(all_steam_stats(), vec!["FeetTraveled"]);
}

#[test]
fn request_values() {
    let u = UnlockSteamAchievementEvent::new(STEAM_ACHIEVEMENT_WIN_ONE_GAME);
    assert_eq!(u.name(), "ACH_WIN_ONE_GAME");
    let p = ProgressSteamStatEvent::new(STEAM_STAT_FEET_TRAVELED, 1000);
    assert_eq!(p.name(), "FeetTraveled");
    assert_eq!(p.add(), 1000);
}
