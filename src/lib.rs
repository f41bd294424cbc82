//! Verified core of a sensor/actuator hub: windowed smoothing of readings,
//! brightness self-calibration, device protocol state machines and the
//! decisions of the switch and shutdown tasks.

pub mod window;
pub mod bus;
pub mod brightness;
pub mod temperature;
pub mod gas;
pub mod display;
pub mod switch;
pub mod shutdown;
