//! A typing-practice session engine: a passage is shown, keystrokes are
//! matched against it one position at a time, and accuracy and typing speed
//! are derived from the mistake count and the elapsed time.
pub mod finger;
pub mod machine;
pub mod metrics;
pub mod session;
