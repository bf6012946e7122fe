//! A Pomodoro timer: a state machine that counts work and rest phases
//! from wall-clock second samples and user commands, plus the pure
//! geometry and colour policy of its analog clock face.
pub mod clock_face;
pub mod command;
pub mod laws;
pub mod timer;
