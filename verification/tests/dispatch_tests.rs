use beautiful_clock::clock::{snapshot_of, TimeFields, Weekday};
use beautiful_clock::dispatch::{
    DispatchState, UiAction, UiEvent, LOADING_DELAY_SECS, TICK_PERIOD_MS, TRAY_POLL_SLEEP_MS,
    WEATHER_PERIOD_SECS,
};
use beautiful_clock::tray::{click_command, menu_command, TrayClick, TrayCommand};

fn noon_fields(second: u32) -> TimeFields {
    TimeFields {
        year: 2025,
        month: 6,
        day: 8,
        hour: 12,
        minute: 0,
        second,
        weekday: Weekday::Sun,
    }
}

#[test]
fn first_tick_pushes_the_snapshot() {
    let mut st = DispatchState::new();
    assert!(st.loading);
    let actions = st.step(UiEvent::Tick(snapshot_of(&noon_fields(30))));
    assert_eq!(actions.len(), 1);
    assert!(matches!(actions[0], UiAction::SetClock(_)));
    assert_eq!(st.last_time, "12:00:30");
}

#[test]
fn duplicate_tick_pushes_nothing() {
    let mut st = DispatchState::new();
    let first = st.step(UiEvent::Tick(snapshot_of(&noon_fields(30))));
    assert_eq!(first.len(), 1);
    // A second tick within the same displayed second: identical strings.
    let second = st.step(UiEvent::Tick(snapshot_of(&noon_fields(30))));
    assert_eq!(second.len(), 0);
    // The next displayed second is pushed again.
    let third = st.step(UiEvent::Tick(snapshot_of(&noon_fields(31))));
    assert_eq!(third.len(), 1);
}

#[test]
fn weather_success_updates_display() {
    let mut st = DispatchState::new();
    let actions = st.step(UiEvent::WeatherOk(String::from("晴 18℃~28℃\n东风3级")));
    assert_eq!(actions.len(), 1);
    match &actions[0] {
        UiAction::SetWeather(w) => assert_eq!(w, "晴 18℃~28℃\n东风3级"),
        _ => panic!("expected a weather update"),
    }
}

#[test]
fn weather_failure_changes_nothing() {
    let mut st = DispatchState::new();
    st.step(UiEvent::Tick(snapshot_of(&noon_fields(30))));
    let actions = st.step(UiEvent::WeatherFailed);
    assert_eq!(actions.len(), 0);
    assert_eq!(st.last_time, "12:00:30");
    assert!(st.loading);
}

#[test]
fn loading_clears_exactly_once() {
    let mut st = DispatchState::new();
    assert!(st.loading);
    let first = st.step(UiEvent::LoadingDeadline);
    assert_eq!(first.len(), 1);
    assert!(matches!(first[0], UiAction::SetLoading(false)));
    assert!(!st.loading);
    let second = st.step(UiEvent::LoadingDeadline);
    assert_eq!(second.len(), 0);
    assert!(!st.loading);
}

#[test]
fn loading_independent_of_weather() {
    let mut st = DispatchState::new();
    st.step(UiEvent::WeatherOk(String::from("晴")));
    assert!(st.loading);
    st.step(UiEvent::WeatherFailed);
    assert!(st.loading);
    st.step(UiEvent::LoadingDeadline);
    assert!(!st.loading);
}

#[test]
fn menu_show_and_left_click_agree() {
    assert_eq!(menu_command("显示"), Some(TrayCommand::ShowWindow));
    assert_eq!(click_command(TrayClick::Left), Some(TrayCommand::ShowWindow));
    assert_eq!(menu_command("显示"), click_command(TrayClick::Left));
}

#[test]
fn menu_exit_hides_and_others_are_ignored() {
    assert_eq!(menu_command("退出"), Some(TrayCommand::HideWindow));
    assert_eq!(menu_command("about"), None);
    assert_eq!(menu_command(""), None);
    assert_eq!(click_command(TrayClick::Right), None);
    assert_eq!(click_command(TrayClick::Double), None);
}

#[test]
fn tray_events_drive_window_actions() {
    let mut st = DispatchState::new();
    let show = st.step(UiEvent::Menu(String::from("显示")));
    assert_eq!(show.len(), 1);
    assert!(matches!(show[0], UiAction::ShowWindow));
    let hide = st.step(UiEvent::Menu(String::from("退出")));
    assert_eq!(hide.len(), 1);
    assert!(matches!(hide[0], UiAction::HideWindow));
    let ignored = st.step(UiEvent::Menu(String::from("other")));
    assert_eq!(ignored.len(), 0);
    let click = st.step(UiEvent::Tray(TrayClick::Left));
    assert_eq!(click.len(), 1);
    assert!(matches!(click[0], UiAction::ShowWindow));
}

#[test]
fn exit_request_hides_and_settings_is_inert() {
    let mut st = DispatchState::new();
    let exit = st.step(UiEvent::ExitRequested);
    assert_eq!(exit.len(), 1);
    assert!(matches!(exit[0], UiAction::HideWindow));
    let settings = st.step(UiEvent::SettingsRequested);
    assert_eq!(settings.len(), 0);
    assert!(st.loading);
}

#[test]
fn schedule_constants() {
    assert_eq!(TICK_PERIOD_MS, 1000);
    assert_eq!(WEATHER_PERIOD_SECS, 3600);
    assert_eq!(LOADING_DELAY_SECS, 2);
    assert_eq!(TRAY_POLL_SLEEP_MS, 10);
}
