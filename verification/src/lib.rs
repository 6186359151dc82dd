//! A small utility library for turning off attached monitors after an
//! optional delay.
//!
//! The library holds the decision logic: resolving the output channel
//! (interactive console or modal dialog), parsing the command line,
//! and driving the monitor power-off request as a step-by-step plan.
//! The operating-system calls themselves are performed by the thin
//! binary around the library, which feeds their outcomes back in as
//! plain values.

use vstd::prelude::*;

pub mod channel;
pub mod cli;
pub mod power;
pub mod session;

verus! {

/// Fixed application name: used as the window-class name and as the
/// title of any modal dialog.
pub fn application_name() -> (r: &'static str)
    ensures
        r@ == "monoff"@,
{
    "monoff"
}

} // verus!
