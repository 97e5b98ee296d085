//! Decision engine for a turn-based hex-grid tank battle played over a
//! textual line protocol: cube-coordinate geometry, scan interpretation,
//! a budgeted per-round resource model, a strategy state machine, and the
//! dispatcher that classifies server responses and emits command lines.

pub mod parser;
pub mod coord_system;
pub mod scan_parser;
pub mod move_manager;
pub mod player;
pub mod action_manager;
pub mod strategy_controller;
pub mod robot_strategies;
pub mod handle_server_output;
pub mod game;
