//! Inspection of the machine's exposure: listening sockets and the posture score.
pub mod ports;
pub mod score;
