//! The decisions of the terminal interface: what a key press does, how the
//! lists are filtered, sorted and navigated, and the text that is shown.
pub mod model;
pub mod select;
pub mod order;
pub mod songs;
pub mod format;
pub mod transfers;
pub mod input;
pub mod tabkeys;
pub mod session;
pub mod screens;
pub mod notices;
pub mod uploads;
pub mod layout;
pub mod marks;
