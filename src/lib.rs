//! Register-level protocol logic for a small legged robot: the PWM servo
//! controller, the battery ADC and the servo bank, expressed as I/O-free
//! transaction plans that a bus executor carries out.
pub mod ads7830;
pub mod bus;
pub mod pca9685;
pub mod robot;
pub mod servo;
