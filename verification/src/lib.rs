//! Picks a record at random from a catalogue of owned records and works out
//! what has to be fetched and shown for it.
//!
//! The crate holds the rules of the program and none of its input or output:
//! the caller reads the catalogue, performs the requests and drives the window,
//! and hands what came back to the functions here.
//!
//! - `config`: the settings that the program starts with.
//! - `catalog`: the lines of the catalogue and the pick of a row.
//! - `release`: the requests to the remote catalogue and the reading of its answer.
//! - `json`: JSON documents as plain data.
//! - `picture`: decoded pictures.
//! - `display`: the window's caption and events.
//! - `roll`: the course of the program, step by step.
//! - `error`: what can go wrong.

pub mod catalog;
pub mod config;
pub mod display;
pub mod error;
pub mod json;
pub mod picture;
pub mod release;
pub mod roll;
