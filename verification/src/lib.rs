//! Verified request/response logic of the EC-relay secure-partition services
//! (Battery, Thermal, TimeAlarm).

pub mod relay;
pub mod wire;
pub mod ffa;
pub mod battery;
pub mod thermal;
pub mod time_alarm;
pub mod panic_guard;
