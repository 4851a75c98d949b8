//! Routing of inbound platform events and slash commands to the engine: the
//! decisions, with the transport left to the caller.

use vstd::prelude::*;
use crate::engine::chars_equal;

verus! {

/// Where a slash command is sent.
#[derive(Clone, Copy, PartialEq, Eq, Structural, Debug)]
pub enum CommandRoute {
    /// The verification-link command, handled by the out-of-scope issuer.
    Verify,
    /// A roster rescan of the guild the command was run in.
    Rescan,
    /// A rescan requested outside any guild: answered with a refusal, no
    /// scan is run.
    RescanOutsideGuild,
    /// Any other command name: answered with the fallback help response.
    Unrecognized,
}

/// The name of the verification-link command.
pub open spec fn verify_command() -> Seq<char> {
    seq!['v', 'e', 'r', 'i', 'f', 'y']
}

/// The name of the roster-rescan command.
pub open spec fn rescan_command() -> Seq<char> {
    seq!['r', 'e', 's', 'c', 'a', 'n']
}

/// The route a command name and its origin call for.
pub open spec fn route_of(command: Seq<char>, in_guild: bool) -> CommandRoute {
    if command == verify_command() {
        CommandRoute::Verify
    } else if command == rescan_command() {
        if in_guild {
            CommandRoute::Rescan
        } else {
            CommandRoute::RescanOutsideGuild
        }
    } else {
        CommandRoute::Unrecognized
    }
}

/// Routes one slash command: `verify` to the issuer, `rescan` to the scan
/// orchestrator when run inside a guild and to a refusal otherwise, and
/// anything else to the fallback response.
pub fn route_command(command: &Vec<char>, in_guild: bool) -> (r: CommandRoute)
    ensures
        r == route_of(command@, in_guild),
{
    let verify_name: Vec<char> = vec!['v', 'e', 'r', 'i', 'f', 'y'];
    let rescan_name: Vec<char> = vec!['r', 'e', 's', 'c', 'a', 'n'];
    if chars_equal(command, &verify_name) {
        CommandRoute::Verify
    } else if chars_equal(command, &rescan_name) {
        if in_guild {
            CommandRoute::Rescan
        } else {
            CommandRoute::RescanOutsideGuild
        }
    } else {
        CommandRoute::Unrecognized
    }
}

/// A member-update event triggers a reconciliation only when the update
/// carries a nickname change; updates without one are ignored.
pub fn update_triggers_reconcile(new_nick: &Option<Vec<char>>) -> (r: bool)
    ensures
        r == (new_nick is Some),
{
    new_nick.is_some()
}

} // verus!
