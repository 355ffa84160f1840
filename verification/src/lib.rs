//! A desktop clock widget's verified core: clock-needle angle arithmetic,
//! localized time/date formatting, a weather-report decoder, tray-event
//! command mapping, an approximate lunar calendar, and the state machine
//! that coordinates the periodic UI refresh.

pub mod clock;
pub mod digits;
pub mod dispatch;
pub mod localtime;
pub mod lunar;
pub mod text;
pub mod tray;
pub mod weather;
