//! Navigation bookkeeping for a space simulation: a catalogue of rotating
//! bodies, observed positions, paths and targets, and the decisions that
//! relate them.
//!
//! Numbers are carried as binary64 encodings. The library stores them,
//! compares them and decides on them; the arithmetic that produces them is
//! the caller's, and each function says which figures it expects to be
//! handed.
//!
//! - [`scalar`], [`vector`]: encodings and the decisions that they settle.
//! - [`names`], [`name_map`]: names as keys, and a map that is walked in
//!   their order.
//! - [`catalog`]: bodies, points of interest, and the search for the body
//!   that holds a point.
//! - [`position`], [`point_name`]: observed positions and their names.
//! - [`navigation`]: frames, sightings and fixes.
//! - [`path`], [`target`]: what is navigated to.
//! - [`application`]: the state of one session.
//! - [`showlocation`]: reading a position out of the game's text.
//! - [`display`], [`widgets`]: colours, marker shapes, the text of a
//!   duration.
//! - [`new_database`]: the catalogue in its tree form.

pub mod application;
pub mod catalog;
pub mod display;
pub mod name_map;
pub mod names;
pub mod navigation;
pub mod new_database;
pub mod path;
pub mod point_name;
pub mod position;
pub mod scalar;
pub mod showlocation;
pub mod target;
pub mod vector;
pub mod widgets;
