//! A register-machine bytecode interpreter that drives autonomous creature
//! agents. Each agent carries a fixed byte tape (its DNA) that is decoded,
//! one self-describing instruction at a time, and executed against a private
//! register file, the agent's position and facing, and read-only snapshots of
//! its attributes supplied by the surrounding world.

pub mod creature;
pub mod instructions;
pub mod processor;
pub mod world;
