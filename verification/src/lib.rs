//! Combat and behaviour core of a first-person shooter.
//!
//! The crate holds the decisions of the game, free of any engine: the enemy's
//! behaviour state machine, the weapon's fire control and the player's input
//! rules. A host drives it once per simulation step, hands in what it measured
//! (elapsed time, distances, ray hits, pressed keys) and carries out what comes
//! back (signals, damage to deliver, how to move).
//!
//! Real-valued quantities are held as integers in thousandths: time in
//! milliseconds, distance in thousandths of a world unit, speed in thousandths
//! of a world unit per second.

pub mod enemy;
pub mod player;
pub mod weapon;
