use vstd::prelude::*;

pub mod byte_order;
pub mod display;
pub mod net;
pub mod run;
pub mod sensiron_sensor_reading;
pub mod sensor;
pub mod text;
