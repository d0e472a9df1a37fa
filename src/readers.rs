use vstd::prelude::*;

use process_memory::{DataMember, Memory, TryIntoProcessHandle};
use sysinfo::{PidExt, ProcessExt, SystemExt};

use crate::errors::ErrorKind;

verus! {

/// A snapshot of the processes that run on this machine.
#[verifier::external_type_specification]
#[verifier::external_body]
pub struct ExSystem(sysinfo::System);

/// Relies on sysinfo's `SystemExt::new_all`: a snapshot of the process table.
/// What it holds depends on the machine, so nothing is stated of it.
#[verifier::external_body]
pub(crate) fn process_snapshot() -> (r: sysinfo::System) {
    sysinfo::System::new_all()
}

/// Relies on sysinfo's `SystemExt::processes_by_name`: the id of one process of
/// the snapshot whose name contains `name`, if there is one. Which one comes
/// first depends on how the snapshot is walked, so nothing is stated of it.
#[verifier::external_body]
pub(crate) fn first_pid(system: &sysinfo::System, name: &str) -> (r: Option<i32>) {
    system.processes_by_name(name).next().map(|p| p.pid().as_u32() as i32)
}

/// Relies on process_memory's `TryIntoProcessHandle::try_into_process_handle`
/// and `Memory::write` on a `DataMember<i32>`: writes `value` at `mem_addr` in
/// process `pid`, or says why it could not. Whether it succeeds depends on the
/// operating system, so nothing is stated of it.
#[verifier::external_body]
pub(crate) fn write_process_i32(pid: i32, mem_addr: usize, value: i32) -> (r: Result<(), String>) {
    let handle = (pid as process_memory::Pid).try_into_process_handle().map_err(|e| e.to_string())?;
    let member = DataMember::<i32>::new_offset(handle, vec![mem_addr]);
    member.write(&value).map_err(|e| e.to_string())
}

/// The id of a running process whose name contains `name`, if any.
pub fn get_pid_by_name(name: &str) -> (r: Option<i32>) {
    let system = process_snapshot();
    first_pid(&system, name)
}

/// The library's form of what a memory write returned: a failure carries
/// the operating system's message.
pub fn memory_result(res: Result<(), String>) -> (r: Result<(), ErrorKind>)
    ensures
        res is Ok <==> r is Ok,
        res matches Err(m) ==> r == Err::<(), ErrorKind>(ErrorKind::Error(m)),
{
    match res {
        Ok(()) => Ok(()),
        Err(m) => Err(ErrorKind::Error(m)),
    }
}

/// Writes a 4-byte integer into another process; a failure carries the
/// operating system's message.
pub fn write_mem_value(pid: i32, mem_addr: usize, value: i32) -> (r: Result<(), ErrorKind>)
    ensures
        r matches Err(e) ==> e is Error,
{
    memory_result(write_process_i32(pid, mem_addr, value))
}

} // verus!
