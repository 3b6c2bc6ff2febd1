//! Reconciles the network shares that a host has mounted against one share
//! that is wanted, and decides when that share is to be opened.
//!
//! The library asks nothing of the host itself. [`reconciler::Reconciler`] is
//! a state machine: it names the action that is pending, its caller performs
//! the action and hands back the host's answer, and the machine moves on.
//! [`run`] states what holds of every run of that machine.
//!
//! Beneath the machine stand the parts that it is made of:
//! [`path_matcher`] compares paths, [`wide`] reads and writes the host's
//! strings, [`record`] decodes the records of a page of the connection table,
//! [`enumerator`] searches a page for a path, [`establisher`] and [`launcher`]
//! build the requests that mount and open a share and read the answers, and
//! [`cli`] reads the command line.
//!
//! Three functions of the standard library are taken on trust, each under a
//! name for its result: `str::to_lowercase` in [`path_matcher`], and
//! `str::encode_utf16` and `String::from_utf16` in [`wide`].

pub mod cli;
pub mod enumerator;
pub mod establisher;
pub mod launcher;
pub mod path_matcher;
pub mod reconciler;
pub mod record;
pub mod run;
pub mod wide;
