//! Servo control for a four-legged walking robot: angle/duty conversion,
//! coordinated multi-servo updates and fixed gesture sequences, expressed
//! as verified plans that a hardware driver executes step by step.

pub mod controller;
pub mod convert;
pub mod motion;

pub use controller::{demo_servo_movements, ServoController, ServoOperation, Side};
pub use convert::{angle_to_duty, angle_to_pulse_width, duty_to_angle};
pub use motion::{Action, ErrorPolicy, Leg, Motion, ServoError, Step};
