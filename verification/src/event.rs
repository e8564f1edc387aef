//! The typed event model: one variant per kernel record layout, plus the
//! raw record that carries untrusted bytes into the parser and the errors
//! the parser can report.
//!
//! String fields hold the exact bytes read out of their fixed wire
//! window, truncated at the first zero byte; rendering those bytes as
//! text (with lossy substitution for invalid encodings) is the
//! presentation layer's business, and `text` offers it a checked way in.

use vstd::prelude::*;

verus! {

/// An immutable raw byte record handed over by the event source,
/// consumed exactly once by the parser.
pub struct RawRecord {
    pub bytes: Vec<u8>,
}

impl RawRecord {
    pub fn new(bytes: Vec<u8>) -> (r: RawRecord)
        ensures
            r.bytes@ == bytes@,
    {
        RawRecord { bytes }
    }

    pub fn len(&self) -> (r: usize)
        ensures
            r == self.bytes@.len(),
    {
        self.bytes.len()
    }
}

/// What a syscall interposition decision did with the call.
#[derive(Clone, Copy, Debug, PartialEq, Eq, Structural)]
pub enum SyscallAction {
    Allow,
    Deny,
    Redirect,
    Log,
    /// An action byte outside the documented range; carried rather than
    /// rejected, so that one odd byte never discards a whole record.
    Unknown,
}

/// A decoded kernel event.  Each variant corresponds to exactly one wire
/// length, and its fields sit at fixed offsets of that layout.
#[derive(Debug, PartialEq, Eq)]
pub enum Event {
    ProcessExec {
        timestamp: u64,
        pid: u32,
        ppid: u32,
        uid: u32,
        gid: u32,
        command: Vec<u8>,
        path: Vec<u8>,
    },
    NetworkConnect {
        timestamp: u64,
        pid: u32,
        uid: u32,
        command: Vec<u8>,
        src_addr: u32,
        dst_addr: u32,
        src_port: u16,
        dst_port: u16,
    },
    FileOperation {
        timestamp: u64,
        pid: u32,
        uid: u32,
        command: Vec<u8>,
        operation: u32,
        path: Vec<u8>,
        mode: u32,
    },
    SyscallDecision {
        timestamp: u64,
        pid: u32,
        uid: u32,
        gid: u32,
        command: Vec<u8>,
        syscall_number: u32,
        original_path: Vec<u8>,
        modified_path: Vec<u8>,
        action: SyscallAction,
        blocked: bool,
        threat_score: u32,
        reason: Vec<u8>,
    },
    MemoryViolation {
        timestamp: u64,
        pid: u32,
        tid: u32,
        command: Vec<u8>,
        address: u64,
        size: u64,
        access_type: u8,
        fault_type: u8,
        stack_id: u32,
        threat_score: u32,
        is_overflow: bool,
        is_leak: bool,
        violation_type: Vec<u8>,
    },
}

/// Why a raw record was rejected.
#[derive(Debug, PartialEq, Eq)]
pub enum ParseError {
    /// The buffer's length matches no known variant; carries that length.
    UnknownLength(usize),
    /// A decoded string field is not valid text.  The parser itself never
    /// fails on this (the bytes are kept and substituted lossily when
    /// rendered); it is reported by the separate text check.
    MalformedText,
}

/// A string field as decoded off the wire: it fits its window and, having
/// been cut at the first zero byte, holds no zero byte.
pub open spec fn wf_str(b: Seq<u8>, w: int) -> bool {
    &&& b.len() <= w
    &&& forall|j: int| 0 <= j < b.len() ==> b[j] != 0
}

/// Width of every `command` window.
pub const COMMAND_WINDOW: usize = 16;

/// Width of the `path` windows of process and syscall records.
pub const PATH_WINDOW: usize = 256;

/// Width of the `path` window of a file-operation record.
pub const FILE_PATH_WINDOW: usize = 248;

/// Width of the `reason` window of a syscall-decision record.
pub const REASON_WINDOW: usize = 64;

/// Width of the `violation_type` window of a memory-violation record.
pub const VIOLATION_TYPE_WINDOW: usize = 32;

/// Every string field of the event fits its wire window and is free of
/// zero bytes, so the event has a wire encoding that decodes back to it.
pub open spec fn event_wf(e: Event) -> bool {
    match e {
        Event::ProcessExec { command, path, .. } => {
            &&& wf_str(command@, COMMAND_WINDOW as int)
            &&& wf_str(path@, PATH_WINDOW as int)
        },
        Event::NetworkConnect { command, .. } => wf_str(command@, COMMAND_WINDOW as int),
        Event::FileOperation { command, path, .. } => {
            &&& wf_str(command@, COMMAND_WINDOW as int)
            &&& wf_str(path@, FILE_PATH_WINDOW as int)
        },
        Event::SyscallDecision { command, original_path, modified_path, reason, .. } => {
            &&& wf_str(command@, COMMAND_WINDOW as int)
            &&& wf_str(original_path@, PATH_WINDOW as int)
            &&& wf_str(modified_path@, PATH_WINDOW as int)
            &&& wf_str(reason@, REASON_WINDOW as int)
        },
        Event::MemoryViolation { command, violation_type, .. } => {
            &&& wf_str(command@, COMMAND_WINDOW as int)
            &&& wf_str(violation_type@, VIOLATION_TYPE_WINDOW as int)
        },
    }
}

/// Field-by-field equality of two events, at the level of the values the
/// wire pins down (string fields compared by their bytes).
pub open spec fn event_eq(a: Event, b: Event) -> bool {
    match (a, b) {
        (
            Event::ProcessExec { timestamp: t1, pid: p1, ppid: pp1, uid: u1, gid: g1, command: c1, path: f1 },
            Event::ProcessExec { timestamp: t2, pid: p2, ppid: pp2, uid: u2, gid: g2, command: c2, path: f2 },
        ) => t1 == t2 && p1 == p2 && pp1 == pp2 && u1 == u2 && g1 == g2 && c1@ == c2@ && f1@ == f2@,
        (
            Event::NetworkConnect {
                timestamp: t1,
                pid: p1,
                uid: u1,
                command: c1,
                src_addr: sa1,
                dst_addr: da1,
                src_port: sp1,
                dst_port: dp1,
            },
            Event::NetworkConnect {
                timestamp: t2,
                pid: p2,
                uid: u2,
                command: c2,
                src_addr: sa2,
                dst_addr: da2,
                src_port: sp2,
                dst_port: dp2,
            },
        ) => t1 == t2 && p1 == p2 && u1 == u2 && c1@ == c2@ && sa1 == sa2 && da1 == da2 && sp1
            == sp2 && dp1 == dp2,
        (
            Event::FileOperation { timestamp: t1, pid: p1, uid: u1, command: c1, operation: o1, path: f1, mode: m1 },
            Event::FileOperation { timestamp: t2, pid: p2, uid: u2, command: c2, operation: o2, path: f2, mode: m2 },
        ) => t1 == t2 && p1 == p2 && u1 == u2 && c1@ == c2@ && o1 == o2 && f1@ == f2@ && m1 == m2,
        (
            Event::SyscallDecision {
                timestamp: t1,
                pid: p1,
                uid: u1,
                gid: g1,
                command: c1,
                syscall_number: n1,
                original_path: op1,
                modified_path: mp1,
                action: a1,
                blocked: b1,
                threat_score: s1,
                reason: r1,
            },
            Event::SyscallDecision {
                timestamp: t2,
                pid: p2,
                uid: u2,
                gid: g2,
                command: c2,
                syscall_number: n2,
                original_path: op2,
                modified_path: mp2,
                action: a2,
                blocked: b2,
                threat_score: s2,
                reason: r2,
            },
        ) => t1 == t2 && p1 == p2 && u1 == u2 && g1 == g2 && c1@ == c2@ && n1 == n2 && op1@ == op2@
            && mp1@ == mp2@ && a1 == a2 && b1 == b2 && s1 == s2 && r1@ == r2@,
        (
            Event::MemoryViolation {
                timestamp: t1,
                pid: p1,
                tid: ti1,
                command: c1,
                address: ad1,
                size: sz1,
                access_type: at1,
                fault_type: ft1,
                stack_id: si1,
                threat_score: ts1,
                is_overflow: io1,
                is_leak: il1,
                violation_type: v1,
            },
            Event::MemoryViolation {
                timestamp: t2,
                pid: p2,
                tid: ti2,
                command: c2,
                address: ad2,
                size: sz2,
                access_type: at2,
                fault_type: ft2,
                stack_id: si2,
                threat_score: ts2,
                is_overflow: io2,
                is_leak: il2,
                violation_type: v2,
            },
        ) => t1 == t2 && p1 == p2 && ti1 == ti2 && c1@ == c2@ && ad1 == ad2 && sz1 == sz2 && at1
            == at2 && ft1 == ft2 && si1 == si2 && ts1 == ts2 && io1 == io2 && il1 == il2 && v1@
            == v2@,
        _ => false,
    }
}

} // verus!
