//! The fixed wire layouts and the parser.
//!
//! Each event variant has a fixed total byte length, and the five lengths
//! are pairwise distinct, so the length of a raw record alone picks the
//! variant.  All multi-byte integers are little-endian except the network
//! addresses, which arrive in big-endian (network) order.  String fields
//! occupy fixed windows and are cut at the first zero byte.
//!
//! The file-operation record allots 248 bytes to its path window: with
//! the full 256-byte window its total would measure 296 bytes, the same
//! as a process-execution record, and the length-based dispatch could
//! not tell the two apart.
//!
//! Layouts, by byte offset:
//! - process execution (296 B): timestamp 0..8, pid 8..12, ppid 12..16,
//!   uid 16..20, gid 20..24, command 24..40, path 40..296
//! - network connection (44 B): timestamp 0..8, pid 8..12, uid 12..16,
//!   command 16..32, src_addr 32..36 (BE), dst_addr 36..40 (BE),
//!   src_port 40..42, dst_port 42..44
//! - file operation (288 B): timestamp 0..8, pid 8..12, uid 12..16,
//!   command 16..32, operation 32..36, path 36..284, mode 284..288
//! - syscall decision (622 B): timestamp 0..8, pid 8..12, uid 12..16,
//!   gid 16..20, command 20..36, syscall_number 36..40,
//!   original_path 40..296, modified_path 296..552, action 552,
//!   blocked 553, threat_score 554..558, reason 558..622
//! - memory violation (92 B): timestamp 0..8, pid 8..12, tid 12..16,
//!   command 16..32, address 32..40, size 40..48, access_type 48,
//!   fault_type 49, stack_id 50..54, threat_score 54..58, is_overflow 58,
//!   is_leak 59, violation_type 60..92

use vstd::assert_seqs_equal;
use vstd::prelude::*;

use crate::bytes::be_u32_at;
use crate::bytes::be_u32_bytes;
use crate::bytes::le_u16_at;
use crate::bytes::le_u16_bytes;
use crate::bytes::le_u32_at;
use crate::bytes::le_u32_bytes;
use crate::bytes::le_u64_at;
use crate::bytes::le_u64_bytes;
use crate::bytes::lemma_be_u32_roundtrip;
use crate::bytes::lemma_le_u16_roundtrip;
use crate::bytes::lemma_le_u32_roundtrip;
use crate::bytes::lemma_le_u64_roundtrip;
use crate::bytes::lemma_take_to_nul_padded;
use crate::bytes::push_be_u32;
use crate::bytes::push_le_u16;
use crate::bytes::push_le_u32;
use crate::bytes::push_le_u64;
use crate::bytes::push_padded;
use crate::bytes::read_be_u32;
use crate::bytes::read_cstr;
use crate::bytes::read_le_u16;
use crate::bytes::read_le_u32;
use crate::bytes::read_le_u64;
use crate::bytes::take_to_nul;
use crate::bytes::zeroes;
use crate::event::Event;
use crate::event::ParseError;
use crate::event::RawRecord;
use crate::event::SyscallAction;
use crate::event::event_eq;
use crate::event::event_wf;
use crate::event::wf_str;
use crate::event::COMMAND_WINDOW;
use crate::event::FILE_PATH_WINDOW;
use crate::event::PATH_WINDOW;
use crate::event::REASON_WINDOW;
use crate::event::VIOLATION_TYPE_WINDOW;

verus! {

/// Total encoded length of a process-execution record.
pub const PROCESS_EXEC_LEN: usize = 296;

/// Total encoded length of a network-connection record.
pub const NETWORK_CONNECT_LEN: usize = 44;

/// Total encoded length of a file-operation record.
pub const FILE_OPERATION_LEN: usize = 288;

/// Total encoded length of a syscall-decision record.
pub const SYSCALL_DECISION_LEN: usize = 622;

/// Total encoded length of a memory-violation record.
pub const MEMORY_VIOLATION_LEN: usize = 92;

/// Does some variant encode to exactly `n` bytes?
pub open spec fn known_length(n: int) -> bool {
    ||| n == PROCESS_EXEC_LEN
    ||| n == NETWORK_CONNECT_LEN
    ||| n == FILE_OPERATION_LEN
    ||| n == SYSCALL_DECISION_LEN
    ||| n == MEMORY_VIOLATION_LEN
}

/// The length-to-variant mapping is injective: no two variants share an
/// encoded length.  Adding a variant must preserve this, or the
/// length-based dispatch stops being exact.
pub proof fn lemma_lengths_pairwise_distinct()
    ensures
        PROCESS_EXEC_LEN != NETWORK_CONNECT_LEN,
        PROCESS_EXEC_LEN != FILE_OPERATION_LEN,
        PROCESS_EXEC_LEN != SYSCALL_DECISION_LEN,
        PROCESS_EXEC_LEN != MEMORY_VIOLATION_LEN,
        NETWORK_CONNECT_LEN != FILE_OPERATION_LEN,
        NETWORK_CONNECT_LEN != SYSCALL_DECISION_LEN,
        NETWORK_CONNECT_LEN != MEMORY_VIOLATION_LEN,
        FILE_OPERATION_LEN != SYSCALL_DECISION_LEN,
        FILE_OPERATION_LEN != MEMORY_VIOLATION_LEN,
        SYSCALL_DECISION_LEN != MEMORY_VIOLATION_LEN,
{
}

/// The action encoded by the wire byte of a syscall-decision record.
pub open spec fn spec_action_of_byte(b: u8) -> SyscallAction {
    if b == 0 {
        SyscallAction::Allow
    } else if b == 1 {
        SyscallAction::Deny
    } else if b == 2 {
        SyscallAction::Redirect
    } else if b == 3 {
        SyscallAction::Log
    } else {
        SyscallAction::Unknown
    }
}

pub fn action_of_byte(b: u8) -> (r: SyscallAction)
    ensures
        r == spec_action_of_byte(b),
{
    if b == 0 {
        SyscallAction::Allow
    } else if b == 1 {
        SyscallAction::Deny
    } else if b == 2 {
        SyscallAction::Redirect
    } else if b == 3 {
        SyscallAction::Log
    } else {
        SyscallAction::Unknown
    }
}

/// The wire byte of an action.  `Unknown` stands for every byte outside
/// the documented range; it is written back as the smallest such byte.
pub open spec fn spec_action_byte(a: SyscallAction) -> u8 {
    match a {
        SyscallAction::Allow => 0,
        SyscallAction::Deny => 1,
        SyscallAction::Redirect => 2,
        SyscallAction::Log => 3,
        SyscallAction::Unknown => 4,
    }
}

pub fn action_byte(a: SyscallAction) -> (r: u8)
    ensures
        r == spec_action_byte(a),
{
    match a {
        SyscallAction::Allow => 0,
        SyscallAction::Deny => 1,
        SyscallAction::Redirect => 2,
        SyscallAction::Log => 3,
        SyscallAction::Unknown => 4,
    }
}

/// Decoding an action's own wire byte gives the action back.
pub proof fn lemma_action_roundtrip(a: SyscallAction)
    ensures
        spec_action_of_byte(spec_action_byte(a)) == a,
{
}

/// `e` carries exactly the field values that the process-execution
/// layout stores in `s`.
pub open spec fn decoded_process_exec(s: Seq<u8>, e: Event) -> bool {
    &&& s.len() == PROCESS_EXEC_LEN
    &&& e matches Event::ProcessExec { timestamp, pid, ppid, uid, gid, command, path }
    &&& timestamp == le_u64_at(s, 0)
    &&& pid == le_u32_at(s, 8)
    &&& ppid == le_u32_at(s, 12)
    &&& uid == le_u32_at(s, 16)
    &&& gid == le_u32_at(s, 20)
    &&& command@ == take_to_nul(s.subrange(24, 40))
    &&& path@ == take_to_nul(s.subrange(40, 296))
}

/// `e` carries exactly the field values that the network-connection
/// layout stores in `s`.
pub open spec fn decoded_network_connect(s: Seq<u8>, e: Event) -> bool {
    &&& s.len() == NETWORK_CONNECT_LEN
    &&& e matches Event::NetworkConnect {
        timestamp,
        pid,
        uid,
        command,
        src_addr,
        dst_addr,
        src_port,
        dst_port,
    }
    &&& timestamp == le_u64_at(s, 0)
    &&& pid == le_u32_at(s, 8)
    &&& uid == le_u32_at(s, 12)
    &&& command@ == take_to_nul(s.subrange(16, 32))
    &&& src_addr == be_u32_at(s, 32)
    &&& dst_addr == be_u32_at(s, 36)
    &&& src_port == le_u16_at(s, 40)
    &&& dst_port == le_u16_at(s, 42)
}

/// `e` carries exactly the field values that the file-operation layout
/// stores in `s`.
pub open spec fn decoded_file_operation(s: Seq<u8>, e: Event) -> bool {
    &&& s.len() == FILE_OPERATION_LEN
    &&& e matches Event::FileOperation { timestamp, pid, uid, command, operation, path, mode }
    &&& timestamp == le_u64_at(s, 0)
    &&& pid == le_u32_at(s, 8)
    &&& uid == le_u32_at(s, 12)
    &&& command@ == take_to_nul(s.subrange(16, 32))
    &&& operation == le_u32_at(s, 32)
    &&& path@ == take_to_nul(s.subrange(36, 284))
    &&& mode == le_u32_at(s, 284)
}

/// `e` carries exactly the field values that the syscall-decision layout
/// stores in `s`.
pub open spec fn decoded_syscall_decision(s: Seq<u8>, e: Event) -> bool {
    &&& s.len() == SYSCALL_DECISION_LEN
    &&& e matches Event::SyscallDecision {
        timestamp,
        pid,
        uid,
        gid,
        command,
        syscall_number,
        original_path,
        modified_path,
        action,
        blocked,
        threat_score,
        reason,
    }
    &&& timestamp == le_u64_at(s, 0)
    &&& pid == le_u32_at(s, 8)
    &&& uid == le_u32_at(s, 12)
    &&& gid == le_u32_at(s, 16)
    &&& command@ == take_to_nul(s.subrange(20, 36))
    &&& syscall_number == le_u32_at(s, 36)
    &&& original_path@ == take_to_nul(s.subrange(40, 296))
    &&& modified_path@ == take_to_nul(s.subrange(296, 552))
    &&& action == spec_action_of_byte(s[552])
    &&& blocked == (s[553] != 0)
    &&& threat_score == le_u32_at(s, 554)
    &&& reason@ == take_to_nul(s.subrange(558, 622))
}

/// `e` carries exactly the field values that the memory-violation layout
/// stores in `s`.
pub open spec fn decoded_memory_violation(s: Seq<u8>, e: Event) -> bool {
    &&& s.len() == MEMORY_VIOLATION_LEN
    &&& e matches Event::MemoryViolation {
        timestamp,
        pid,
        tid,
        command,
        address,
        size,
        access_type,
        fault_type,
        stack_id,
        threat_score,
        is_overflow,
        is_leak,
        violation_type,
    }
    &&& timestamp == le_u64_at(s, 0)
    &&& pid == le_u32_at(s, 8)
    &&& tid == le_u32_at(s, 12)
    &&& command@ == take_to_nul(s.subrange(16, 32))
    &&& address == le_u64_at(s, 32)
    &&& size == le_u64_at(s, 40)
    &&& access_type == s[48]
    &&& fault_type == s[49]
    &&& stack_id == le_u32_at(s, 50)
    &&& threat_score == le_u32_at(s, 54)
    &&& is_overflow == (s[58] != 0)
    &&& is_leak == (s[59] != 0)
    &&& violation_type@ == take_to_nul(s.subrange(60, 92))
}

/// `e` is what the record `s` decodes to: the variant picked by the
/// length of `s`, with every field read at its fixed offset.
pub open spec fn event_decoded(s: Seq<u8>, e: Event) -> bool {
    if s.len() == PROCESS_EXEC_LEN {
        decoded_process_exec(s, e)
    } else if s.len() == NETWORK_CONNECT_LEN {
        decoded_network_connect(s, e)
    } else if s.len() == FILE_OPERATION_LEN {
        decoded_file_operation(s, e)
    } else if s.len() == SYSCALL_DECISION_LEN {
        decoded_syscall_decision(s, e)
    } else if s.len() == MEMORY_VIOLATION_LEN {
        decoded_memory_violation(s, e)
    } else {
        false
    }
}

/// The total encoded length of `e`'s variant.
pub open spec fn encoded_len(e: Event) -> int {
    match e {
        Event::ProcessExec { .. } => PROCESS_EXEC_LEN as int,
        Event::NetworkConnect { .. } => NETWORK_CONNECT_LEN as int,
        Event::FileOperation { .. } => FILE_OPERATION_LEN as int,
        Event::SyscallDecision { .. } => SYSCALL_DECISION_LEN as int,
        Event::MemoryViolation { .. } => MEMORY_VIOLATION_LEN as int,
    }
}

fn decode_process_exec(b: &[u8]) -> (e: Event)
    requires
        b@.len() == PROCESS_EXEC_LEN,
    ensures
        decoded_process_exec(b@, e),
        event_wf(e),
{
    Event::ProcessExec {
        timestamp: read_le_u64(b, 0),
        pid: read_le_u32(b, 8),
        ppid: read_le_u32(b, 12),
        uid: read_le_u32(b, 16),
        gid: read_le_u32(b, 20),
        command: read_cstr(b, 24, COMMAND_WINDOW),
        path: read_cstr(b, 40, PATH_WINDOW),
    }
}

fn decode_network_connect(b: &[u8]) -> (e: Event)
    requires
        b@.len() == NETWORK_CONNECT_LEN,
    ensures
        decoded_network_connect(b@, e),
        event_wf(e),
{
    Event::NetworkConnect {
        timestamp: read_le_u64(b, 0),
        pid: read_le_u32(b, 8),
        uid: read_le_u32(b, 12),
        command: read_cstr(b, 16, COMMAND_WINDOW),
        src_addr: read_be_u32(b, 32),
        dst_addr: read_be_u32(b, 36),
        src_port: read_le_u16(b, 40),
        dst_port: read_le_u16(b, 42),
    }
}

fn decode_file_operation(b: &[u8]) -> (e: Event)
    requires
        b@.len() == FILE_OPERATION_LEN,
    ensures
        decoded_file_operation(b@, e),
        event_wf(e),
{
    Event::FileOperation {
        timestamp: read_le_u64(b, 0),
        pid: read_le_u32(b, 8),
        uid: read_le_u32(b, 12),
        command: read_cstr(b, 16, COMMAND_WINDOW),
        operation: read_le_u32(b, 32),
        path: read_cstr(b, 36, FILE_PATH_WINDOW),
        mode: read_le_u32(b, 284),
    }
}

fn decode_syscall_decision(b: &[u8]) -> (e: Event)
    requires
        b@.len() == SYSCALL_DECISION_LEN,
    ensures
        decoded_syscall_decision(b@, e),
        event_wf(e),
{
    Event::SyscallDecision {
        timestamp: read_le_u64(b, 0),
        pid: read_le_u32(b, 8),
        uid: read_le_u32(b, 12),
        gid: read_le_u32(b, 16),
        command: read_cstr(b, 20, COMMAND_WINDOW),
        syscall_number: read_le_u32(b, 36),
        original_path: read_cstr(b, 40, PATH_WINDOW),
        modified_path: read_cstr(b, 296, PATH_WINDOW),
        action: action_of_byte(b[552]),
        blocked: b[553] != 0,
        threat_score: read_le_u32(b, 554),
        reason: read_cstr(b, 558, REASON_WINDOW),
    }
}

fn decode_memory_violation(b: &[u8]) -> (e: Event)
    requires
        b@.len() == MEMORY_VIOLATION_LEN,
    ensures
        decoded_memory_violation(b@, e),
        event_wf(e),
{
    Event::MemoryViolation {
        timestamp: read_le_u64(b, 0),
        pid: read_le_u32(b, 8),
        tid: read_le_u32(b, 12),
        command: read_cstr(b, 16, COMMAND_WINDOW),
        address: read_le_u64(b, 32),
        size: read_le_u64(b, 40),
        access_type: b[48],
        fault_type: b[49],
        stack_id: read_le_u32(b, 50),
        threat_score: read_le_u32(b, 54),
        is_overflow: b[58] != 0,
        is_leak: b[59] != 0,
        violation_type: read_cstr(b, 60, VIOLATION_TYPE_WINDOW),
    }
}

/// Decode an untrusted raw record.  The record's exact length picks the
/// variant; a record whose length matches no variant is rejected with
/// that length, and nothing else ever fails.  No byte beyond the
/// record's own length is read.
pub fn parse(raw: RawRecord) -> (r: Result<Event, ParseError>)
    ensures
        r is Ok <==> known_length(raw.bytes@.len() as int),
        r matches Ok(e) ==> event_decoded(raw.bytes@, e) && event_wf(e),
        r matches Err(pe) ==> pe == ParseError::UnknownLength(raw.bytes@.len() as usize),
{
    let n = raw.bytes.len();
    let b: &[u8] = raw.bytes.as_slice();
    if n == PROCESS_EXEC_LEN {
        Ok(decode_process_exec(b))
    } else if n == NETWORK_CONNECT_LEN {
        Ok(decode_network_connect(b))
    } else if n == FILE_OPERATION_LEN {
        Ok(decode_file_operation(b))
    } else if n == SYSCALL_DECISION_LEN {
        Ok(decode_syscall_decision(b))
    } else if n == MEMORY_VIOLATION_LEN {
        Ok(decode_memory_violation(b))
    } else {
        Err(ParseError::UnknownLength(n))
    }
}

/// Dispatch is exact: a record decodes only to the variant whose encoded
/// length is the record's own, never to a misaligned reading of another.
pub proof fn lemma_decoded_len(s: Seq<u8>, e: Event)
    requires
        event_decoded(s, e),
    ensures
        s.len() == encoded_len(e),
{
}

/// A record determines its event: two events decoded from the same bytes
/// agree on every field.  Together with the contracts of `encode` and
/// `parse` this gives the round trip: parsing an encoded event yields an
/// event equal to it, field for field.
pub proof fn lemma_decoded_deterministic(s: Seq<u8>, a: Event, b: Event)
    requires
        event_decoded(s, a),
        event_decoded(s, b),
    ensures
        event_eq(a, b),
{
}

fn encode_process_exec(
    timestamp: u64,
    pid: u32,
    ppid: u32,
    uid: u32,
    gid: u32,
    command: &Vec<u8>,
    path: &Vec<u8>,
) -> (r: Vec<u8>)
    requires
        wf_str(command@, COMMAND_WINDOW as int),
        wf_str(path@, PATH_WINDOW as int),
    ensures
        r@.len() == PROCESS_EXEC_LEN,
        le_u64_at(r@, 0) == timestamp,
        le_u32_at(r@, 8) == pid,
        le_u32_at(r@, 12) == ppid,
        le_u32_at(r@, 16) == uid,
        le_u32_at(r@, 20) == gid,
        take_to_nul(r@.subrange(24, 40)) == command@,
        take_to_nul(r@.subrange(40, 296)) == path@,
{
    let mut v: Vec<u8> = Vec::new();
    push_le_u64(&mut v, timestamp);
    push_le_u32(&mut v, pid);
    push_le_u32(&mut v, ppid);
    push_le_u32(&mut v, uid);
    push_le_u32(&mut v, gid);
    push_padded(&mut v, command, COMMAND_WINDOW);
    push_padded(&mut v, path, PATH_WINDOW);
    proof {
        assert_seqs_equal!(v@.subrange(0, 8) == le_u64_bytes(timestamp));
        lemma_le_u64_roundtrip(v@, 0, timestamp);
        assert_seqs_equal!(v@.subrange(8, 12) == le_u32_bytes(pid));
        lemma_le_u32_roundtrip(v@, 8, pid);
        assert_seqs_equal!(v@.subrange(12, 16) == le_u32_bytes(ppid));
        lemma_le_u32_roundtrip(v@, 12, ppid);
        assert_seqs_equal!(v@.subrange(16, 20) == le_u32_bytes(uid));
        lemma_le_u32_roundtrip(v@, 16, uid);
        assert_seqs_equal!(v@.subrange(20, 24) == le_u32_bytes(gid));
        lemma_le_u32_roundtrip(v@, 20, gid);
        assert_seqs_equal!(v@.subrange(24, 40) == command@ + zeroes(16 - command@.len()));
        lemma_take_to_nul_padded(command@, 16);
        assert_seqs_equal!(v@.subrange(40, 296) == path@ + zeroes(256 - path@.len()));
        lemma_take_to_nul_padded(path@, 256);
    }
    v
}

fn encode_network_connect(
    timestamp: u64,
    pid: u32,
    uid: u32,
    command: &Vec<u8>,
    src_addr: u32,
    dst_addr: u32,
    src_port: u16,
    dst_port: u16,
) -> (r: Vec<u8>)
    requires
        wf_str(command@, COMMAND_WINDOW as int),
    ensures
        r@.len() == NETWORK_CONNECT_LEN,
        le_u64_at(r@, 0) == timestamp,
        le_u32_at(r@, 8) == pid,
        le_u32_at(r@, 12) == uid,
        take_to_nul(r@.subrange(16, 32)) == command@,
        be_u32_at(r@, 32) == src_addr,
        be_u32_at(r@, 36) == dst_addr,
        le_u16_at(r@, 40) == src_port,
        le_u16_at(r@, 42) == dst_port,
{
    let mut v: Vec<u8> = Vec::new();
    push_le_u64(&mut v, timestamp);
    push_le_u32(&mut v, pid);
    push_le_u32(&mut v, uid);
    push_padded(&mut v, command, COMMAND_WINDOW);
    push_be_u32(&mut v, src_addr);
    push_be_u32(&mut v, dst_addr);
    push_le_u16(&mut v, src_port);
    push_le_u16(&mut v, dst_port);
    proof {
        assert_seqs_equal!(v@.subrange(0, 8) == le_u64_bytes(timestamp));
        lemma_le_u64_roundtrip(v@, 0, timestamp);
        assert_seqs_equal!(v@.subrange(8, 12) == le_u32_bytes(pid));
        lemma_le_u32_roundtrip(v@, 8, pid);
        assert_seqs_equal!(v@.subrange(12, 16) == le_u32_bytes(uid));
        lemma_le_u32_roundtrip(v@, 12, uid);
        assert_seqs_equal!(v@.subrange(16, 32) == command@ + zeroes(16 - command@.len()));
        lemma_take_to_nul_padded(command@, 16);
        assert_seqs_equal!(v@.subrange(32, 36) == be_u32_bytes(src_addr));
        lemma_be_u32_roundtrip(v@, 32, src_addr);
        assert_seqs_equal!(v@.subrange(36, 40) == be_u32_bytes(dst_addr));
        lemma_be_u32_roundtrip(v@, 36, dst_addr);
        assert_seqs_equal!(v@.subrange(40, 42) == le_u16_bytes(src_port));
        lemma_le_u16_roundtrip(v@, 40, src_port);
        assert_seqs_equal!(v@.subrange(42, 44) == le_u16_bytes(dst_port));
        lemma_le_u16_roundtrip(v@, 42, dst_port);
    }
    v
}

fn encode_file_operation(
    timestamp: u64,
    pid: u32,
    uid: u32,
    command: &Vec<u8>,
    operation: u32,
    path: &Vec<u8>,
    mode: u32,
) -> (r: Vec<u8>)
    requires
        wf_str(command@, COMMAND_WINDOW as int),
        wf_str(path@, FILE_PATH_WINDOW as int),
    ensures
        r@.len() == FILE_OPERATION_LEN,
        le_u64_at(r@, 0) == timestamp,
        le_u32_at(r@, 8) == pid,
        le_u32_at(r@, 12) == uid,
        take_to_nul(r@.subrange(16, 32)) == command@,
        le_u32_at(r@, 32) == operation,
        take_to_nul(r@.subrange(36, 284)) == path@,
        le_u32_at(r@, 284) == mode,
{
    let mut v: Vec<u8> = Vec::new();
    push_le_u64(&mut v, timestamp);
    push_le_u32(&mut v, pid);
    push_le_u32(&mut v, uid);
    push_padded(&mut v, command, COMMAND_WINDOW);
    push_le_u32(&mut v, operation);
    push_padded(&mut v, path, FILE_PATH_WINDOW);
    push_le_u32(&mut v, mode);
    proof {
        assert_seqs_equal!(v@.subrange(0, 8) == le_u64_bytes(timestamp));
        lemma_le_u64_roundtrip(v@, 0, timestamp);
        assert_seqs_equal!(v@.subrange(8, 12) == le_u32_bytes(pid));
        lemma_le_u32_roundtrip(v@, 8, pid);
        assert_seqs_equal!(v@.subrange(12, 16) == le_u32_bytes(uid));
        lemma_le_u32_roundtrip(v@, 12, uid);
        assert_seqs_equal!(v@.subrange(16, 32) == command@ + zeroes(16 - command@.len()));
        lemma_take_to_nul_padded(command@, 16);
        assert_seqs_equal!(v@.subrange(32, 36) == le_u32_bytes(operation));
        lemma_le_u32_roundtrip(v@, 32, operation);
        assert_seqs_equal!(v@.subrange(36, 284) == path@ + zeroes(248 - path@.len()));
        lemma_take_to_nul_padded(path@, 248);
        assert_seqs_equal!(v@.subrange(284, 288) == le_u32_bytes(mode));
        lemma_le_u32_roundtrip(v@, 284, mode);
    }
    v
}

fn encode_syscall_decision(
    timestamp: u64,
    pid: u32,
    uid: u32,
    gid: u32,
    command: &Vec<u8>,
    syscall_number: u32,
    original_path: &Vec<u8>,
    modified_path: &Vec<u8>,
    action: SyscallAction,
    blocked: bool,
    threat_score: u32,
    reason: &Vec<u8>,
) -> (r: Vec<u8>)
    requires
        wf_str(command@, COMMAND_WINDOW as int),
        wf_str(original_path@, PATH_WINDOW as int),
        wf_str(modified_path@, PATH_WINDOW as int),
        wf_str(reason@, REASON_WINDOW as int),
    ensures
        r@.len() == SYSCALL_DECISION_LEN,
        le_u64_at(r@, 0) == timestamp,
        le_u32_at(r@, 8) == pid,
        le_u32_at(r@, 12) == uid,
        le_u32_at(r@, 16) == gid,
        take_to_nul(r@.subrange(20, 36)) == command@,
        le_u32_at(r@, 36) == syscall_number,
        take_to_nul(r@.subrange(40, 296)) == original_path@,
        take_to_nul(r@.subrange(296, 552)) == modified_path@,
        spec_action_of_byte(r@[552]) == action,
        (r@[553] != 0) == blocked,
        le_u32_at(r@, 554) == threat_score,
        take_to_nul(r@.subrange(558, 622)) == reason@,
{
    let mut v: Vec<u8> = Vec::new();
    push_le_u64(&mut v, timestamp);
    push_le_u32(&mut v, pid);
    push_le_u32(&mut v, uid);
    push_le_u32(&mut v, gid);
    push_padded(&mut v, command, COMMAND_WINDOW);
    push_le_u32(&mut v, syscall_number);
    push_padded(&mut v, original_path, PATH_WINDOW);
    push_padded(&mut v, modified_path, PATH_WINDOW);
    v.push(action_byte(action));
    v.push(if blocked { 1 } else { 0 });
    push_le_u32(&mut v, threat_score);
    push_padded(&mut v, reason, REASON_WINDOW);
    proof {
        assert_seqs_equal!(v@.subrange(0, 8) == le_u64_bytes(timestamp));
        lemma_le_u64_roundtrip(v@, 0, timestamp);
        assert_seqs_equal!(v@.subrange(8, 12) == le_u32_bytes(pid));
        lemma_le_u32_roundtrip(v@, 8, pid);
        assert_seqs_equal!(v@.subrange(12, 16) == le_u32_bytes(uid));
        lemma_le_u32_roundtrip(v@, 12, uid);
        assert_seqs_equal!(v@.subrange(16, 20) == le_u32_bytes(gid));
        lemma_le_u32_roundtrip(v@, 16, gid);
        assert_seqs_equal!(v@.subrange(20, 36) == command@ + zeroes(16 - command@.len()));
        lemma_take_to_nul_padded(command@, 16);
        assert_seqs_equal!(v@.subrange(40, 296) == original_path@ + zeroes(256 - original_path@.len()));
        lemma_take_to_nul_padded(original_path@, 256);
        assert_seqs_equal!(v@.subrange(296, 552) == modified_path@ + zeroes(256 - modified_path@.len()));
        lemma_take_to_nul_padded(modified_path@, 256);
        assert(v@[552] == spec_action_byte(action));
        lemma_action_roundtrip(action);
        assert(v@[553] == (if blocked { 1u8 } else { 0u8 }));
        assert_seqs_equal!(v@.subrange(36, 40) == le_u32_bytes(syscall_number));
        lemma_le_u32_roundtrip(v@, 36, syscall_number);
        assert_seqs_equal!(v@.subrange(554, 558) == le_u32_bytes(threat_score));
        lemma_le_u32_roundtrip(v@, 554, threat_score);
        assert_seqs_equal!(v@.subrange(558, 622) == reason@ + zeroes(64 - reason@.len()));
        lemma_take_to_nul_padded(reason@, 64);
    }
    v
}

fn encode_memory_violation(
    timestamp: u64,
    pid: u32,
    tid: u32,
    command: &Vec<u8>,
    address: u64,
    size: u64,
    access_type: u8,
    fault_type: u8,
    stack_id: u32,
    threat_score: u32,
    is_overflow: bool,
    is_leak: bool,
    violation_type: &Vec<u8>,
) -> (r: Vec<u8>)
    requires
        wf_str(command@, COMMAND_WINDOW as int),
        wf_str(violation_type@, VIOLATION_TYPE_WINDOW as int),
    ensures
        r@.len() == MEMORY_VIOLATION_LEN,
        le_u64_at(r@, 0) == timestamp,
        le_u32_at(r@, 8) == pid,
        le_u32_at(r@, 12) == tid,
        take_to_nul(r@.subrange(16, 32)) == command@,
        le_u64_at(r@, 32) == address,
        le_u64_at(r@, 40) == size,
        r@[48] == access_type,
        r@[49] == fault_type,
        le_u32_at(r@, 50) == stack_id,
        le_u32_at(r@, 54) == threat_score,
        (r@[58] != 0) == is_overflow,
        (r@[59] != 0) == is_leak,
        take_to_nul(r@.subrange(60, 92)) == violation_type@,
{
    let mut v: Vec<u8> = Vec::new();
    push_le_u64(&mut v, timestamp);
    push_le_u32(&mut v, pid);
    push_le_u32(&mut v, tid);
    push_padded(&mut v, command, COMMAND_WINDOW);
    push_le_u64(&mut v, address);
    push_le_u64(&mut v, size);
    v.push(access_type);
    v.push(fault_type);
    push_le_u32(&mut v, stack_id);
    push_le_u32(&mut v, threat_score);
    v.push(if is_overflow { 1 } else { 0 });
    v.push(if is_leak { 1 } else { 0 });
    push_padded(&mut v, violation_type, VIOLATION_TYPE_WINDOW);
    proof {
        assert_seqs_equal!(v@.subrange(0, 8) == le_u64_bytes(timestamp));
        lemma_le_u64_roundtrip(v@, 0, timestamp);
        assert_seqs_equal!(v@.subrange(8, 12) == le_u32_bytes(pid));
        lemma_le_u32_roundtrip(v@, 8, pid);
        assert_seqs_equal!(v@.subrange(12, 16) == le_u32_bytes(tid));
        lemma_le_u32_roundtrip(v@, 12, tid);
        assert_seqs_equal!(v@.subrange(16, 32) == command@ + zeroes(16 - command@.len()));
        lemma_take_to_nul_padded(command@, 16);
        assert_seqs_equal!(v@.subrange(32, 40) == le_u64_bytes(address));
        lemma_le_u64_roundtrip(v@, 32, address);
        assert_seqs_equal!(v@.subrange(40, 48) == le_u64_bytes(size));
        lemma_le_u64_roundtrip(v@, 40, size);
        assert_seqs_equal!(v@.subrange(50, 54) == le_u32_bytes(stack_id));
        lemma_le_u32_roundtrip(v@, 50, stack_id);
        assert_seqs_equal!(v@.subrange(54, 58) == le_u32_bytes(threat_score));
        lemma_le_u32_roundtrip(v@, 54, threat_score);
        assert_seqs_equal!(v@.subrange(60, 92) == violation_type@ + zeroes(32 - violation_type@.len()));
        lemma_take_to_nul_padded(violation_type@, 32);
    }
    v
}

/// Encode a well-formed event into the exact wire form that `parse`
/// decodes back to it (see `lemma_decoded_deterministic` for why the
/// decode is unique).
pub fn encode(e: &Event) -> (r: RawRecord)
    requires
        event_wf(*e),
    ensures
        event_decoded(r.bytes@, *e),
        r.bytes@.len() == encoded_len(*e),
{
    let bytes = match e {
        Event::ProcessExec { timestamp, pid, ppid, uid, gid, command, path } => {
            encode_process_exec(*timestamp, *pid, *ppid, *uid, *gid, command, path)
        },
        Event::NetworkConnect {
            timestamp,
            pid,
            uid,
            command,
            src_addr,
            dst_addr,
            src_port,
            dst_port,
        } => {
            encode_network_connect(
                *timestamp,
                *pid,
                *uid,
                command,
                *src_addr,
                *dst_addr,
                *src_port,
                *dst_port,
            )
        },
        Event::FileOperation { timestamp, pid, uid, command, operation, path, mode } => {
            encode_file_operation(*timestamp, *pid, *uid, command, *operation, path, *mode)
        },
        Event::SyscallDecision {
            timestamp,
            pid,
            uid,
            gid,
            command,
            syscall_number,
            original_path,
            modified_path,
            action,
            blocked,
            threat_score,
            reason,
        } => {
            encode_syscall_decision(
                *timestamp,
                *pid,
                *uid,
                *gid,
                command,
                *syscall_number,
                original_path,
                modified_path,
                *action,
                *blocked,
                *threat_score,
                reason,
            )
        },
        Event::MemoryViolation {
            timestamp,
            pid,
            tid,
            command,
            address,
            size,
            access_type,
            fault_type,
            stack_id,
            threat_score,
            is_overflow,
            is_leak,
            violation_type,
        } => {
            encode_memory_violation(
                *timestamp,
                *pid,
                *tid,
                command,
                *address,
                *size,
                *access_type,
                *fault_type,
                *stack_id,
                *threat_score,
                *is_overflow,
                *is_leak,
                violation_type,
            )
        },
    };
    RawRecord { bytes }
}

} // verus!
