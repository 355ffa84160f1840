//! The refresh coordinator: every concurrent activity (clock tick, weather
//! refresh, tray polling, the one-shot loading delay) is reduced to an
//! event, and one step function decides, on the UI context's own turn,
//! which updates the UI receives and how the coordinator's state moves.

use vstd::prelude::*;
use crate::clock::ClockSnapshot;
use crate::text::str_eq;
use crate::tray::{TrayClick, TrayCommand, click_command, menu_command, spec_click_command,
    spec_menu_command};

verus! {

/// Period of the clock tick, in milliseconds.
pub const TICK_PERIOD_MS: u64 = 1000;

/// Period of the weather refresh, in seconds.
pub const WEATHER_PERIOD_SECS: u64 = 3600;

/// One-shot delay after startup before the loading flag is cleared, in seconds.
pub const LOADING_DELAY_SECS: u64 = 2;

/// Sleep between two polls of the tray event channels, in milliseconds.
pub const TRAY_POLL_SLEEP_MS: u64 = 10;

/// One event handed to the coordinator by a concurrent activity.
pub enum UiEvent {
    /// The clock tick produced a fresh snapshot.
    Tick(ClockSnapshot),
    /// A weather refresh finished with a report string.
    WeatherOk(String),
    /// A weather refresh failed; the prior report must stay displayed.
    WeatherFailed,
    /// A tray-menu entry was selected, identified by its label.
    Menu(String),
    /// The tray icon was clicked.
    Tray(TrayClick),
    /// The one-shot startup delay elapsed.
    LoadingDeadline,
    /// The view's exit callback fired; the window hides, it never
    /// terminates.
    ExitRequested,
    /// The view's settings callback fired; no UI state moves yet.
    SettingsRequested,
}

/// One update marshaled onto the UI context.
pub enum UiAction {
    SetClock(ClockSnapshot),
    SetWeather(String),
    SetLoading(bool),
    ShowWindow,
    HideWindow,
}

/// The coordinator's own state: the last strings pushed to the UI, for
/// de-duplication, and whether the loading screen is still up.
pub struct DispatchState {
    pub last_time: String,
    pub last_date: String,
    pub last_weekday: String,
    pub loading: bool,
}

/// A tick is a duplicate when its three formatted strings equal the last
/// pushed ones; such a tick must not touch the UI.
pub open spec fn tick_is_dup(st: DispatchState, s: ClockSnapshot) -> bool {
    &&& s.time@ == st.last_time@
    &&& s.date@ == st.last_date@
    &&& s.weekday@ == st.last_weekday@
}

/// The actions a window command translates to.
pub open spec fn spec_command_actions(c: Option<TrayCommand>) -> Seq<UiAction> {
    match c {
        Some(TrayCommand::ShowWindow) => seq![UiAction::ShowWindow],
        Some(TrayCommand::HideWindow) => seq![UiAction::HideWindow],
        None => Seq::empty(),
    }
}

/// The coordinator state after handling one event.
pub open spec fn spec_step_state(st: DispatchState, e: UiEvent) -> DispatchState {
    match e {
        UiEvent::Tick(s) => if tick_is_dup(st, s) {
            st
        } else {
            DispatchState {
                last_time: s.time,
                last_date: s.date,
                last_weekday: s.weekday,
                loading: st.loading,
            }
        },
        UiEvent::LoadingDeadline => DispatchState {
            last_time: st.last_time,
            last_date: st.last_date,
            last_weekday: st.last_weekday,
            loading: false,
        },
        _ => st,
    }
}

/// The UI updates emitted for one event.
pub open spec fn spec_step_actions(st: DispatchState, e: UiEvent) -> Seq<UiAction> {
    match e {
        UiEvent::Tick(s) => if tick_is_dup(st, s) {
            Seq::empty()
        } else {
            seq![UiAction::SetClock(s)]
        },
        UiEvent::WeatherOk(w) => seq![UiAction::SetWeather(w)],
        UiEvent::WeatherFailed => Seq::empty(),
        UiEvent::Menu(id) => spec_command_actions(spec_menu_command(id@)),
        UiEvent::Tray(c) => spec_command_actions(spec_click_command(c)),
        UiEvent::LoadingDeadline => if st.loading {
            seq![UiAction::SetLoading(false)]
        } else {
            Seq::empty()
        },
        UiEvent::ExitRequested => seq![UiAction::HideWindow],
        UiEvent::SettingsRequested => Seq::empty(),
    }
}

impl DispatchState {
    /// The startup state: nothing pushed yet, loading screen up.
    pub open spec fn is_init(self) -> bool {
        &&& self.last_time@ == Seq::<char>::empty()
        &&& self.last_date@ == Seq::<char>::empty()
        &&& self.last_weekday@ == Seq::<char>::empty()
        &&& self.loading
    }

    /// The coordinator as it starts.
    pub fn new() -> (r: DispatchState)
        ensures
            r.is_init(),
    {
        DispatchState {
            last_time: String::new(),
            last_date: String::new(),
            last_weekday: String::new(),
            loading: true,
        }
    }

    /// Handles one event: moves the state and returns the updates to
    /// marshal onto the UI context, in order.
    pub fn step(&mut self, event: UiEvent) -> (actions: Vec<UiAction>)
        ensures
            *final(self) == spec_step_state(*old(self), event),
            actions@ == spec_step_actions(*old(self), event),
    {
        match event {
            UiEvent::Tick(s) => {
                let dup = str_eq(self.last_time.as_str(), s.time.as_str()) && str_eq(
                    self.last_date.as_str(),
                    s.date.as_str(),
                ) && str_eq(self.last_weekday.as_str(), s.weekday.as_str());
                if dup {
                    Vec::new()
                } else {
                    self.last_time = s.time.clone();
                    self.last_date = s.date.clone();
                    self.last_weekday = s.weekday.clone();
                    let mut actions: Vec<UiAction> = Vec::new();
                    actions.push(UiAction::SetClock(s));
                    proof {
                        assert(actions@ =~= spec_step_actions(*old(self), event));
                    }
                    actions
                }
            },
            UiEvent::WeatherOk(w) => {
                let mut actions: Vec<UiAction> = Vec::new();
                actions.push(UiAction::SetWeather(w));
                proof {
                    assert(actions@ =~= spec_step_actions(*old(self), event));
                }
                actions
            },
            UiEvent::WeatherFailed => Vec::new(),
            UiEvent::Menu(id) => {
                let actions = command_actions(menu_command(id.as_str()));
                proof {
                    assert(actions@ == spec_step_actions(*old(self), event));
                }
                actions
            },
            UiEvent::Tray(c) => {
                let actions = command_actions(click_command(c));
                proof {
                    assert(actions@ == spec_step_actions(*old(self), event));
                }
                actions
            },
            UiEvent::LoadingDeadline => {
                if self.loading {
                    self.loading = false;
                    let mut actions: Vec<UiAction> = Vec::new();
                    actions.push(UiAction::SetLoading(false));
                    proof {
                        assert(actions@ =~= spec_step_actions(*old(self), event));
                    }
                    actions
                } else {
                    Vec::new()
                }
            },
            UiEvent::ExitRequested => {
                let mut actions: Vec<UiAction> = Vec::new();
                actions.push(UiAction::HideWindow);
                proof {
                    assert(actions@ =~= spec_step_actions(*old(self), event));
                }
                actions
            },
            UiEvent::SettingsRequested => Vec::new(),
        }
    }
}

/// Turns a resolved window command into the update list for the UI.
fn command_actions(c: Option<TrayCommand>) -> (actions: Vec<UiAction>)
    ensures
        actions@ == spec_command_actions(c),
{
    match c {
        Some(TrayCommand::ShowWindow) => {
            let mut actions: Vec<UiAction> = Vec::new();
            actions.push(UiAction::ShowWindow);
            proof {
                assert(actions@ =~= spec_command_actions(c));
            }
            actions
        },
        Some(TrayCommand::HideWindow) => {
            let mut actions: Vec<UiAction> = Vec::new();
            actions.push(UiAction::HideWindow);
            proof {
                assert(actions@ =~= spec_command_actions(c));
            }
            actions
        },
        None => Vec::new(),
    }
}

/// The coordinator state after a whole sequence of events.
pub open spec fn spec_run_state(st: DispatchState, events: Seq<UiEvent>) -> DispatchState
    decreases events.len(),
{
    if events.len() == 0 {
        st
    } else {
        spec_run_state(spec_step_state(st, events[0]), events.skip(1))
    }
}

/// All UI updates emitted over a whole sequence of events, in order.
pub open spec fn spec_run_actions(st: DispatchState, events: Seq<UiEvent>) -> Seq<UiAction>
    decreases events.len(),
{
    if events.len() == 0 {
        Seq::empty()
    } else {
        spec_step_actions(st, events[0]) + spec_run_actions(
            spec_step_state(st, events[0]),
            events.skip(1),
        )
    }
}

/// How many of the emitted updates touch the loading flag.
pub open spec fn count_loading_actions(actions: Seq<UiAction>) -> nat
    decreases actions.len(),
{
    if actions.len() == 0 {
        0
    } else {
        (if actions[0] is SetLoading {
            1nat
        } else {
            0nat
        }) + count_loading_actions(actions.skip(1))
    }
}

proof fn lemma_count_loading_add(a: Seq<UiAction>, b: Seq<UiAction>)
    ensures
        count_loading_actions(a + b) == count_loading_actions(a) + count_loading_actions(b),
    decreases a.len(),
{
    if a.len() == 0 {
        assert(a + b =~= b);
    } else {
        assert((a + b).skip(1) =~= a.skip(1) + b);
        lemma_count_loading_add(a.skip(1), b);
    }
}

proof fn lemma_count_loading_singleton(a: UiAction)
    ensures
        count_loading_actions(seq![a]) == (if a is SetLoading {
            1nat
        } else {
            0nat
        }),
{
    assert(seq![a].skip(1) =~= Seq::<UiAction>::empty());
    assert(seq![a][0] == a);
    assert(count_loading_actions(Seq::<UiAction>::empty()) == 0);
}

/// One step touches the loading flag exactly when the deadline event
/// arrives while the flag is still up, and the flag never goes back up.
proof fn lemma_count_loading_step(st: DispatchState, e: UiEvent)
    ensures
        count_loading_actions(spec_step_actions(st, e)) == (if e is LoadingDeadline && st.loading {
            1nat
        } else {
            0nat
        }),
        spec_step_state(st, e).loading == (if e is LoadingDeadline {
            false
        } else {
            st.loading
        }),
{
    match e {
        UiEvent::Tick(s) => {
            if !tick_is_dup(st, s) {
                lemma_count_loading_singleton(UiAction::SetClock(s));
            }
        },
        UiEvent::WeatherOk(w) => {
            lemma_count_loading_singleton(UiAction::SetWeather(w));
        },
        UiEvent::WeatherFailed => {
        },
        UiEvent::Menu(_) => {
            lemma_count_loading_singleton(UiAction::ShowWindow);
            lemma_count_loading_singleton(UiAction::HideWindow);
        },
        UiEvent::Tray(_) => {
            lemma_count_loading_singleton(UiAction::ShowWindow);
            lemma_count_loading_singleton(UiAction::HideWindow);
        },
        UiEvent::LoadingDeadline => {
            if st.loading {
                lemma_count_loading_singleton(UiAction::SetLoading(false));
            }
        },
        UiEvent::ExitRequested => {
            lemma_count_loading_singleton(UiAction::HideWindow);
        },
        UiEvent::SettingsRequested => {
        },
    }
}

/// Over any sequence of events, the loading flag is cleared exactly once
/// if it starts up and some deadline event arrives, and never otherwise:
/// in particular a second deadline produces no further update, and no
/// other event ever touches the flag.
pub proof fn lemma_loading_clears_once(st: DispatchState, events: Seq<UiEvent>)
    ensures
        count_loading_actions(spec_run_actions(st, events)) == (if st.loading && (exists|i: int|
            0 <= i < events.len() && events[i] is LoadingDeadline) {
            1nat
        } else {
            0nat
        }),
        spec_run_state(st, events).loading == (st.loading && !(exists|i: int|
            0 <= i < events.len() && events[i] is LoadingDeadline)),
    decreases events.len(),
{
    if events.len() == 0 {
    } else {
        let e = events[0];
        let st1 = spec_step_state(st, e);
        let rest = events.skip(1);
        lemma_count_loading_step(st, e);
        lemma_count_loading_add(spec_step_actions(st, e), spec_run_actions(st1, rest));
        lemma_loading_clears_once(st1, rest);
        if exists|i: int| 0 <= i < events.len() && events[i] is LoadingDeadline {
            let i = choose|i: int| 0 <= i < events.len() && events[i] is LoadingDeadline;
            if i > 0 {
                assert(rest[i - 1] is LoadingDeadline);
            }
        }
        if exists|j: int| 0 <= j < rest.len() && rest[j] is LoadingDeadline {
            let j = choose|j: int| 0 <= j < rest.len() && rest[j] is LoadingDeadline;
            assert(events[j + 1] is LoadingDeadline);
        }
    }
}

/// How many of the emitted updates push a clock snapshot.
pub open spec fn count_clock_actions(actions: Seq<UiAction>) -> nat
    decreases actions.len(),
{
    if actions.len() == 0 {
        0
    } else {
        (if actions[0] is SetClock {
            1nat
        } else {
            0nat
        }) + count_clock_actions(actions.skip(1))
    }
}

/// How many of the events are clock ticks.
pub open spec fn count_tick_events(events: Seq<UiEvent>) -> nat
    decreases events.len(),
{
    if events.len() == 0 {
        0
    } else {
        (if events[0] is Tick {
            1nat
        } else {
            0nat
        }) + count_tick_events(events.skip(1))
    }
}

proof fn lemma_count_clock_add(a: Seq<UiAction>, b: Seq<UiAction>)
    ensures
        count_clock_actions(a + b) == count_clock_actions(a) + count_clock_actions(b),
    decreases a.len(),
{
    if a.len() == 0 {
        assert(a + b =~= b);
    } else {
        assert((a + b).skip(1) =~= a.skip(1) + b);
        lemma_count_clock_add(a.skip(1), b);
    }
}

proof fn lemma_count_clock_singleton(a: UiAction)
    ensures
        count_clock_actions(seq![a]) == (if a is SetClock {
            1nat
        } else {
            0nat
        }),
{
    assert(seq![a].skip(1) =~= Seq::<UiAction>::empty());
    assert(seq![a][0] == a);
    assert(count_clock_actions(Seq::<UiAction>::empty()) == 0);
}

proof fn lemma_count_clock_step(st: DispatchState, e: UiEvent)
    ensures
        count_clock_actions(spec_step_actions(st, e)) <= (if e is Tick {
            1nat
        } else {
            0nat
        }),
{
    match e {
        UiEvent::Tick(s) => {
            if !tick_is_dup(st, s) {
                lemma_count_clock_singleton(UiAction::SetClock(s));
            }
        },
        UiEvent::WeatherOk(w) => {
            lemma_count_clock_singleton(UiAction::SetWeather(w));
        },
        UiEvent::WeatherFailed => {
        },
        UiEvent::Menu(_) => {
            lemma_count_clock_singleton(UiAction::ShowWindow);
            lemma_count_clock_singleton(UiAction::HideWindow);
        },
        UiEvent::Tray(_) => {
            lemma_count_clock_singleton(UiAction::ShowWindow);
            lemma_count_clock_singleton(UiAction::HideWindow);
        },
        UiEvent::LoadingDeadline => {
            if st.loading {
                lemma_count_clock_singleton(UiAction::SetLoading(false));
            }
        },
        UiEvent::ExitRequested => {
            lemma_count_clock_singleton(UiAction::HideWindow);
        },
        UiEvent::SettingsRequested => {
        },
    }
}

/// Over any sequence of events, the UI receives at most as many clock
/// updates as there were ticks: de-duplication never adds a push.
pub proof fn lemma_updates_at_most_ticks(st: DispatchState, events: Seq<UiEvent>)
    ensures
        count_clock_actions(spec_run_actions(st, events)) <= count_tick_events(events),
    decreases events.len(),
{
    if events.len() > 0 {
        let e = events[0];
        let st1 = spec_step_state(st, e);
        lemma_count_clock_step(st, e);
        lemma_count_clock_add(spec_step_actions(st, e), spec_run_actions(st1, events.skip(1)));
        lemma_updates_at_most_ticks(st1, events.skip(1));
    }
}

/// A tick whose formatted strings equal the previous tick's produces no
/// further UI update, whatever the state before the first tick was.
pub proof fn lemma_tick_dedup(st: DispatchState, s1: ClockSnapshot, s2: ClockSnapshot)
    requires
        s2.time@ == s1.time@,
        s2.date@ == s1.date@,
        s2.weekday@ == s1.weekday@,
    ensures
        spec_step_actions(spec_step_state(st, UiEvent::Tick(s1)), UiEvent::Tick(s2)).len() == 0,
{
}

/// A failed weather refresh neither updates the UI nor moves the state:
/// the previously displayed report stays.
pub proof fn lemma_weather_failure_keeps_display(st: DispatchState)
    ensures
        spec_step_actions(st, UiEvent::WeatherFailed).len() == 0,
        spec_step_state(st, UiEvent::WeatherFailed) == st,
{
}

} // verus!
