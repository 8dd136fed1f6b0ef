//! Verified core of the Hummingbird music player: audio format descriptions,
//! popover placement, album-art preparation, track listing grouping,
//! interface settings choices and the troubleshooting report.

pub mod devices;
pub mod text;
pub mod ui;
