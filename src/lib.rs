//! A line-oriented SCPI-style command server core for the Red Pitaya board.
//!
//! A request line is split into whitespace-separated tokens, routed to the
//! command family that owns its first token, validated, and executed against
//! the board's driver. Every step is stated over sequences of characters, and
//! every call into the driver is recorded by the device handle it goes
//! through, so the contracts can say which requests a command makes.
pub mod digital;
pub mod driver;
pub mod ieee;
pub mod protocol;
pub mod router;
