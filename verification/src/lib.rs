//! A character-creation wizard for a tabletop role-playing game.
//!
//! The library holds every rule of the wizard: the ability-score store, the
//! dice, the point-buy allocator, the negotiation that binds rolled scores to
//! abilities, and the keyboard-driven menus those flows are built on. Each
//! interactive flow is a state machine that is fed one input event at a time,
//! so a front end only has to read keys and draw frames.
//!
//! Every state machine comes with a mathematical model of its state and a
//! function from state and event to the next state; the executable code is
//! proved to follow the model, and the laws of the wizard are proved of the
//! model.

pub mod util;
pub mod input;
pub mod text;
pub mod frame;
pub mod menu;
pub mod line_input;
pub mod character;
pub mod classes;
pub mod races;
pub mod dice;
pub mod adjustment;
pub mod point_buy;
pub mod roll_assignment;
pub mod sheet;
pub mod controller;
