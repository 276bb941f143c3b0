//! Sequencing of VESA MCCS VCP power commands for one physical monitor.
//!
//! A power intent expands to a fixed, ordered sequence of values for the
//! standardized VCP power-mode feature. ON is a single command; OFF is the
//! soft off followed unconditionally by the hard power-off, because different
//! monitor firmwares honor one or the other. The command exchanges themselves
//! happen outside the library; it decides what to send and, from the
//! attempts' outcomes, what the switch reports.

use vstd::prelude::*;
use crate::PlatformError;

verus! {

/// The VESA MCCS VCP feature code for the monitor's power mode.
pub const VCP_FEATURE_POWER_MODE: u8 = 0xD6;

/// VCP power-mode value: on.
pub const VCP_POWER_ON: u32 = 0x01;

/// VCP power-mode value: off.
pub const VCP_POWER_OFF: u32 = 0x04;

/// VCP power-mode value: hard power-off.
pub const VCP_POWER_HARD_OFF: u32 = 0x05;

/// The desired power state for a monitor.
#[derive(Clone, Copy, Debug, PartialEq, Eq, Structural)]
pub enum MonitorPowerCommand {
    ON,
    OFF,
}

/// The fixed, ordered sequence of VCP power-mode values an intent expands
/// to: ON is the single on command; OFF is the soft off followed by the hard
/// power-off, both attempted whatever the first returns.
pub open spec fn command_plan(command: MonitorPowerCommand) -> Seq<u32> {
    match command {
        MonitorPowerCommand::ON => seq![VCP_POWER_ON],
        MonitorPowerCommand::OFF => seq![VCP_POWER_OFF, VCP_POWER_HARD_OFF],
    }
}

/// An OFF intent issues exactly two command attempts, the soft off first and
/// the hard power-off second, whatever the first attempt returns.
pub proof fn lemma_off_issues_two_commands()
    ensures
        command_plan(MonitorPowerCommand::OFF).len() == 2,
        command_plan(MonitorPowerCommand::OFF)[0] == VCP_POWER_OFF,
        command_plan(MonitorPowerCommand::OFF)[1] == VCP_POWER_HARD_OFF,
{
}

/// An ON intent issues exactly one command attempt, with the on value.
pub proof fn lemma_on_issues_one_command()
    ensures
        command_plan(MonitorPowerCommand::ON).len() == 1,
        command_plan(MonitorPowerCommand::ON)[0] == VCP_POWER_ON,
{
}

/// Every intent issues at least one command attempt.
pub proof fn lemma_command_plan_nonempty(command: MonitorPowerCommand)
    ensures
        command_plan(command).len() >= 1,
{
    match command {
        MonitorPowerCommand::ON => {
            assert(command_plan(command).len() == 1);
        }
        MonitorPowerCommand::OFF => {
            assert(command_plan(command).len() == 2);
        }
    }
}

/// The ordered VCP power-mode values to send for the given intent.
pub fn power_command_values(command: &MonitorPowerCommand) -> (values: Vec<u32>)
    ensures
        values@ == command_plan(*command),
{
    let mut values: Vec<u32> = Vec::new();
    match command {
        MonitorPowerCommand::ON => {
            values.push(VCP_POWER_ON);
        }
        MonitorPowerCommand::OFF => {
            values.push(VCP_POWER_OFF);
            values.push(VCP_POWER_HARD_OFF);
        }
    }
    proof {
        assert(values@ =~= command_plan(*command));
    }
    values
}

/// What a power switch reports, from the outcomes of its command attempts,
/// one per value of the intent's plan, in plan order: the last attempt — for
/// OFF the hard power-off, the authoritative one — decides alone, and every
/// earlier outcome is discarded by design.
pub fn power_switch_outcome(
    command: &MonitorPowerCommand,
    attempts: &Vec<Result<(), PlatformError>>,
) -> (r: Result<(), PlatformError>)
    requires
        attempts@.len() == command_plan(*command).len(),
    ensures
        r == attempts@.last(),
{
    proof {
        lemma_command_plan_nonempty(*command);
    }
    attempts[attempts.len() - 1]
}

/// `set_power` with OFF reports the second attempt's outcome only: two
/// attempt sequences that agree on their second outcome report the same
/// result, however their first outcomes differ.
pub proof fn lemma_off_outcome_independent_of_first(
    attempts: Seq<Result<(), PlatformError>>,
    other: Seq<Result<(), PlatformError>>,
)
    requires
        attempts.len() == command_plan(MonitorPowerCommand::OFF).len(),
        other.len() == command_plan(MonitorPowerCommand::OFF).len(),
        attempts[1] == other[1],
    ensures
        attempts.last() == other.last(),
{
}

} // verus!
