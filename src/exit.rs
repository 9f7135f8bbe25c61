//! The VM-exit dispatcher: what the monitor does each time the vCPU stops,
//! and whether it resumes the guest.
use vstd::prelude::*;

use crate::layout::SERIAL_PORT;

verus! {

/// Why guest execution returned control to the monitor.
#[derive(Debug, PartialEq, Eq)]
pub enum ExitReason {
    /// The guest read `size` bytes from an I/O port.
    IoIn { port: u16, size: usize },
    /// The guest wrote `data` to an I/O port.
    IoOut { port: u16, data: Vec<u8> },
    /// The guest read `size` bytes at an unbacked physical address.
    MmioRead { addr: u64, size: usize },
    /// The guest wrote `data` at an unbacked physical address.
    MmioWrite { addr: u64, data: Vec<u8> },
    /// The guest executed a halt instruction.
    Halt,
    /// The hypervisor could not process the guest's state.
    InternalError,
    /// The guest triggered a reset or shutdown condition (e.g. a triple fault).
    Shutdown,
    /// Any other exit, with the hypervisor's raw exit code.
    Unhandled(u32),
}

/// How a run of the guest ended.
#[derive(Debug, Clone, Copy, PartialEq, Eq, Structural)]
pub enum Stop {
    /// The guest halted: the designed completion of a run.
    Halted,
    /// The guest shut down or reset.
    ShutDown,
    /// The hypervisor failed; a host-side failure.
    InternalError,
}

/// What the monitor does after one exit.
#[derive(Debug, Clone, Copy, PartialEq, Eq, Structural)]
pub enum Action {
    /// Nothing to service: resume the guest.
    Resume,
    /// Write the byte to standard output, then resume.
    WriteSerial(u8),
    /// Report an unemulated MMIO read at the address, then resume.
    ReportMmioRead(u64),
    /// Report an unemulated MMIO write at the address, then resume.
    ReportMmioWrite(u64),
    /// End the run.
    Stop(Stop),
    /// An exit the monitor does not know: end the process as a failure.
    Abort(u32),
}

/// The action for exit `e`. Port input is ignored; output to `SERIAL_PORT`
/// transmits its first byte and output to any other port is ignored; MMIO is
/// reported but not emulated; halt, shutdown and internal errors end the run;
/// anything else aborts.
pub open spec fn action_of(e: ExitReason) -> Action {
    match e {
        ExitReason::IoIn { .. } => Action::Resume,
        ExitReason::IoOut { port, data } => {
            if port == SERIAL_PORT && data@.len() > 0 {
                Action::WriteSerial(data@[0])
            } else {
                Action::Resume
            }
        },
        ExitReason::MmioRead { addr, .. } => Action::ReportMmioRead(addr),
        ExitReason::MmioWrite { addr, .. } => Action::ReportMmioWrite(addr),
        ExitReason::Halt => Action::Stop(Stop::Halted),
        ExitReason::Shutdown => Action::Stop(Stop::ShutDown),
        ExitReason::InternalError => Action::Stop(Stop::InternalError),
        ExitReason::Unhandled(code) => Action::Abort(code),
    }
}

/// Decides what to do about one VM exit.
pub fn dispatch(exit: &ExitReason) -> (a: Action)
    ensures
        a == action_of(*exit),
{
    match exit {
        ExitReason::IoIn { .. } => Action::Resume,
        ExitReason::IoOut { port, data } => {
            if *port == SERIAL_PORT && data.len() > 0 {
                Action::WriteSerial(data[0])
            } else {
                Action::Resume
            }
        },
        ExitReason::MmioRead { addr, .. } => Action::ReportMmioRead(*addr),
        ExitReason::MmioWrite { addr, .. } => Action::ReportMmioWrite(*addr),
        ExitReason::Halt => Action::Stop(Stop::Halted),
        ExitReason::Shutdown => Action::Stop(Stop::ShutDown),
        ExitReason::InternalError => Action::Stop(Stop::InternalError),
        ExitReason::Unhandled(code) => Action::Abort(*code),
    }
}

/// How a run over a finite sequence of exits ended.
#[derive(Debug, Clone, Copy, PartialEq, Eq, Structural)]
pub enum RunEnd {
    /// An exit ended the run.
    Stopped(Stop),
    /// An unknown exit, with its raw code.
    Aborted(u32),
    /// The exits ran out while the guest would still be resumed.
    Exhausted,
}

/// What a run produced: the bytes written to the serial port, in order, and
/// how it ended.
#[derive(Debug, PartialEq, Eq)]
pub struct RunReport {
    pub output: Vec<u8>,
    pub end: RunEnd,
}

/// The serial output and the end of a run in which the guest exits with
/// `exits`, in order: the run stops at the first exit whose action ends it,
/// and every exit before that is serviced and the guest resumed.
pub open spec fn run_of(exits: Seq<ExitReason>) -> (Seq<u8>, RunEnd)
    decreases exits.len(),
{
    if exits.len() == 0 {
        (Seq::empty(), RunEnd::Exhausted)
    } else {
        let rest = run_of(exits.drop_first());
        match action_of(exits[0]) {
            Action::WriteSerial(b) => (seq![b] + rest.0, rest.1),
            Action::Stop(s) => (Seq::empty(), RunEnd::Stopped(s)),
            Action::Abort(code) => (Seq::empty(), RunEnd::Aborted(code)),
            _ => rest,
        }
    }
}

/// Runs the dispatcher over the exits that a guest produces, in order,
/// until one of them ends the run.
pub fn replay(exits: &Vec<ExitReason>) -> (r: RunReport)
    ensures
        (r.output@, r.end) == run_of(exits@),
{
    let mut output: Vec<u8> = Vec::new();
    let n = exits.len();
    let mut i: usize = 0;
    assert(exits@.subrange(0, n as int) =~= exits@);
    assert(output@ + run_of(exits@).0 =~= run_of(exits@).0);
    while i < n
        invariant
            n == exits@.len(),
            i <= n,
            run_of(exits@) == (output@ + run_of(exits@.subrange(i as int, n as int)).0,
                run_of(exits@.subrange(i as int, n as int)).1),
        decreases n - i,
    {
        let ghost rest = exits@.subrange(i as int, n as int);
        assert(rest.drop_first() =~= exits@.subrange(i + 1, n as int));
        assert(rest[0] == exits@[i as int]);
        match dispatch(&exits[i]) {
            Action::WriteSerial(b) => {
                assert(output@ + (seq![b] + run_of(rest.drop_first()).0) =~= output@.push(b)
                    + run_of(rest.drop_first()).0);
                output.push(b);
            },
            Action::Stop(s) => {
                assert(output@ + Seq::<u8>::empty() =~= output@);
                return RunReport { output, end: RunEnd::Stopped(s) };
            },
            Action::Abort(code) => {
                assert(output@ + Seq::<u8>::empty() =~= output@);
                return RunReport { output, end: RunEnd::Aborted(code) };
            },
            _ => {},
        }
        i = i + 1;
    }
    assert(exits@.subrange(n as int, n as int) =~= Seq::<ExitReason>::empty());
    assert(output@ + Seq::<u8>::empty() =~= output@);
    RunReport { output, end: RunEnd::Exhausted }
}

} // verus!
