//! An agent-session orchestration bridge: it accepts user messages for a
//! long-lived conversational agent, relays the agent's event stream to an
//! external consumer as ordered, tagged notifications, and mediates the
//! creation of durable session records.

use vstd::prelude::*;
use vstd::string::StringExecFns;

pub mod event;
pub mod gate;
pub mod relay;
pub mod session;

verus! {

/// The demonstration command: a fixed greeting around the caller's name.
pub fn greet(name: &str) -> (r: String)
    ensures
        r@ == "Hello, "@ + name@ + "! You've been greeted from Rust!"@,
{
    let mut s = String::from_str("Hello, ");
    s.append(name);
    s.append("! You've been greeted from Rust!");
    s
}

} // verus!
