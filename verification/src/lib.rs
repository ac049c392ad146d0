//! The core of a personal task tracker for the command line.
//!
//! The library holds what the program decides: how a reminder expression is
//! read and an instant described, in which order tasks are listed and which
//! reminders are due, and what each command asks of the store and tells the
//! user. Every function has a contract, and Verus proves that the function
//! keeps it. Reading and writing the store, printing and delivering
//! notifications are left to the program around the library.
//!
//! - [`models`]: the task record.
//! - [`remind`]: reminder expressions, and instants in words.
//! - [`db`]: the order of the listing, due reminders, and the changes that
//!   the store is asked to make.
//! - [`commands`]: one decision function for each command.
//! - [`display`]: the table of tasks as text in columns, and the help text.
//! - [`text`]: strings, numbers and whitespace.
//! - [`platform`]: the calls whose contracts are taken on trust.

pub mod commands;
pub mod db;
pub mod display;
pub mod models;
pub mod platform;
pub mod remind;
pub mod text;
