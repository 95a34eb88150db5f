//! The decision of sending one command to a light.
//!
//! A command is sent as it is given. When no reply is wanted the call ends
//! at once with a plain acknowledgement, which does not mean the light got
//! the command; otherwise the caller waits a short, fixed time for one reply.

use vstd::prelude::*;
use crate::discovery::single_member;
use crate::json::{JsonValue};

verus! {

/// How long to wait for a reply to a command, in milliseconds.
pub const REPLY_TIMEOUT_MS: u64 = 2000;

/// What follows sending a command.
#[derive(Debug)]
pub enum CommandPlan {
    /// Answer at once with this acknowledgement.
    Acknowledge(JsonValue),
    /// Wait at most this long for one reply, and answer with it.
    AwaitReply { timeout_ms: u64 },
}

/// The acknowledgement `{"success": true}`.
pub open spec fn is_ack(v: JsonValue) -> bool {
    single_member(v, "success"@, |b: JsonValue| b == JsonValue::Bool(true))
}

/// The plan for a command: wait for a reply only when one is expected.
pub fn plan_command(expect_response: bool) -> (r: CommandPlan)
    ensures
        expect_response ==> r == (CommandPlan::AwaitReply { timeout_ms: REPLY_TIMEOUT_MS }),
        !expect_response ==> (r matches CommandPlan::Acknowledge(a) && is_ack(a)),
{
    if expect_response {
        CommandPlan::AwaitReply { timeout_ms: REPLY_TIMEOUT_MS }
    } else {
        CommandPlan::Acknowledge(
            JsonValue::Object(vec![("success".to_owned(), JsonValue::Bool(true))]),
        )
    }
}

} // verus!
