//! Driver logic for the IIS3DWB accelerometer: the interrupt-source
//! configuration codec and the register writes that configure interrupts.

pub mod device;
pub mod interrupts;
pub mod register;
