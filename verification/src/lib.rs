//! The platform-free core of a binding to the Windows API.
//!
//! Nothing in this crate calls the system. For each native function it says
//! what is handed to the function, as plain values, and what the raw outcome
//! means, as a typed result; for each window message, what its raw words are
//! and what the word that comes back means. Where several calls follow one
//! another and each depends on the outcome of the one before, an operation
//! value keeps track: it says what to do next and takes the outcome. The
//! caller makes the calls.
//!
//! Handles and pointers are raw values here. Releasing what a handle names,
//! once and when its holder goes out of scope, is the caller's to do.

#![allow(non_snake_case, non_camel_case_types, non_upper_case_globals)]

pub mod advapi;
pub mod co;
pub mod comctl;
pub mod enums;
pub mod gui;
pub mod handles;
pub mod kernel;
pub mod msg;
pub mod privs;
pub mod shell;
pub mod structs;
pub mod uxtheme;
