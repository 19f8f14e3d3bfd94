//! Terminating the helper process by PID.

use vstd::prelude::*;

use crate::numfmt::{dec, push_dec};

verus! {

#[verifier::external_type_specification]
#[verifier::external_body]
pub struct ExSystem(sysinfo::System);

#[verifier::external_type_specification]
#[verifier::external_body]
pub struct ExProcess(sysinfo::Process);

/// Relies on sysinfo::System::new_all: a snapshot of the system's processes.
#[verifier::external_body]
fn system_snapshot() -> sysinfo::System {
    sysinfo::System::new_all()
}

/// Relies on sysinfo::System::process with Pid::from_u32: the process with
/// the given PID, if the snapshot holds one.
#[verifier::external_body]
fn find_process(system: &sysinfo::System, pid: u32) -> Option<&sysinfo::Process> {
    system.process(sysinfo::Pid::from_u32(pid))
}

/// Relies on sysinfo::Process::kill: sends the kill signal and reports
/// whether it was delivered.
#[verifier::external_body]
fn kill_process(process: &sysinfo::Process) -> bool {
    process.kill()
}

/// The failure message when a process was found but could not be killed.
pub open spec fn kill_failed_msg(pid: u32) -> Seq<char> {
    "Failed to kill process with PID "@ + dec(pid as nat)
}

/// The failure message when no process has the given PID.
pub open spec fn no_process_msg(pid: u32) -> Seq<char> {
    "No process found with PID "@ + dec(pid as nat)
}

/// Kills the process with the given PID. Whether a process exists and can
/// be signalled depends on the system, so the result only fixes the shape
/// of each outcome: success, or one of the two failure messages.
pub fn kill_pid(pid: u32) -> (r: Result<(), String>)
    ensures
        r matches Err(m) ==> (m@ == kill_failed_msg(pid) || m@ == no_process_msg(pid)),
{
    let system = system_snapshot();
    match find_process(&system, pid) {
        Some(process) => {
            if kill_process(process) {
                Ok(())
            } else {
                let mut m = String::new();
                m.append("Failed to kill process with PID ");
                push_dec(&mut m, pid as u64);
                Err(m)
            }
        },
        None => {
            let mut m = String::new();
            m.append("No process found with PID ");
            push_dec(&mut m, pid as u64);
            Err(m)
        },
    }
}

} // verus!
