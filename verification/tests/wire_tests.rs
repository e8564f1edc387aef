use kernel_agent::event::Event;
use kernel_agent::event::ParseError;
use kernel_agent::event::RawRecord;
use kernel_agent::event::SyscallAction;
use kernel_agent::wire::encode;
use kernel_agent::wire::parse;
use kernel_agent::wire::FILE_OPERATION_LEN;
use kernel_agent::wire::MEMORY_VIOLATION_LEN;
use kernel_agent::wire::NETWORK_CONNECT_LEN;
use kernel_agent::wire::PROCESS_EXEC_LEN;
use kernel_agent::wire::SYSCALL_DECISION_LEN;

fn put_le_u16(buf: &mut Vec<u8>, x: u16) {
    buf.extend_from_slice(&x.to_le_bytes());
}

fn put_le_u32(buf: &mut Vec<u8>, x: u32) {
    buf.extend_from_slice(&x.to_le_bytes());
}

fn put_be_u32(buf: &mut Vec<u8>, x: u32) {
    buf.extend_from_slice(&x.to_be_bytes());
}

fn put_le_u64(buf: &mut Vec<u8>, x: u64) {
    buf.extend_from_slice(&x.to_le_bytes());
}

fn put_window(buf: &mut Vec<u8>, s: &[u8], w: usize) {
    assert!(s.len() <= w);
    buf.extend_from_slice(s);
    buf.resize(buf.len() + (w - s.len()), 0);
}

#[test]
fn process_exec_round_trip() {
    let mut buf: Vec<u8> = Vec::new();
    put_le_u64(&mut buf, 987_654_321);
    put_le_u32(&mut buf, 1234); // pid
    put_le_u32(&mut buf, 1); // ppid
    put_le_u32(&mut buf, 1000); // uid
    put_le_u32(&mut buf, 1000); // gid
    put_window(&mut buf, b"sshd", 16);
    put_window(&mut buf, b"/usr/sbin/sshd", 256);
    assert_eq!(buf.len(), PROCESS_EXEC_LEN);

    let e = parse(RawRecord { bytes: buf }).unwrap();
    match e {
        Event::ProcessExec { timestamp, pid, ppid, uid, gid, command, path } => {
            assert_eq!(timestamp, 987_654_321);
            assert_eq!(pid, 1234);
            assert_eq!(ppid, 1);
            assert_eq!(uid, 1000);
            assert_eq!(gid, 1000);
            assert_eq!(command, b"sshd".to_vec());
            assert_eq!(path, b"/usr/sbin/sshd".to_vec());
        }
        other => panic!("wrong variant: {:?}", other),
    }
}

#[test]
fn network_connect_round_trip() {
    let mut buf: Vec<u8> = Vec::new();
    put_le_u64(&mut buf, 42);
    put_le_u32(&mut buf, 777); // pid
    put_le_u32(&mut buf, 0); // uid
    put_window(&mut buf, b"curl", 16);
    put_be_u32(&mut buf, 0xC0A80001); // 192.168.0.1
    put_be_u32(&mut buf, 0x08080808); // 8.8.8.8
    put_le_u16(&mut buf, 51234);
    put_le_u16(&mut buf, 443);
    assert_eq!(buf.len(), NETWORK_CONNECT_LEN);

    let e = parse(RawRecord { bytes: buf }).unwrap();
    match e {
        Event::NetworkConnect { timestamp, pid, uid, command, src_addr, dst_addr, src_port, dst_port } => {
            assert_eq!(timestamp, 42);
            assert_eq!(pid, 777);
            assert_eq!(uid, 0);
            assert_eq!(command, b"curl".to_vec());
            assert_eq!(src_addr, 0xC0A80001);
            assert_eq!(dst_addr, 0x08080808);
            assert_eq!(src_port, 51234);
            assert_eq!(dst_port, 443);
        }
        other => panic!("wrong variant: {:?}", other),
    }
}

#[test]
fn file_operation_round_trip() {
    let mut buf: Vec<u8> = Vec::new();
    put_le_u64(&mut buf, 5);
    put_le_u32(&mut buf, 99); // pid
    put_le_u32(&mut buf, 33); // uid
    put_window(&mut buf, b"vim", 16);
    put_le_u32(&mut buf, 2); // operation
    put_window(&mut buf, b"/etc/passwd", 248);
    put_le_u32(&mut buf, 0o644); // mode
    assert_eq!(buf.len(), FILE_OPERATION_LEN);

    let e = parse(RawRecord { bytes: buf }).unwrap();
    match e {
        Event::FileOperation { timestamp, pid, uid, command, operation, path, mode } => {
            assert_eq!(timestamp, 5);
            assert_eq!(pid, 99);
            assert_eq!(uid, 33);
            assert_eq!(command, b"vim".to_vec());
            assert_eq!(operation, 2);
            assert_eq!(path, b"/etc/passwd".to_vec());
            assert_eq!(mode, 0o644);
        }
        other => panic!("wrong variant: {:?}", other),
    }
}

#[test]
fn syscall_decision_round_trip() {
    let mut buf: Vec<u8> = Vec::new();
    put_le_u64(&mut buf, 123);
    put_le_u32(&mut buf, 400); // pid
    put_le_u32(&mut buf, 0); // uid
    put_le_u32(&mut buf, 0); // gid
    put_window(&mut buf, b"nc", 16);
    put_le_u32(&mut buf, 59); // syscall number
    put_window(&mut buf, b"/tmp/a", 256);
    put_window(&mut buf, b"/dev/null", 256);
    buf.push(2); // redirect
    buf.push(1); // blocked
    put_le_u32(&mut buf, 80); // threat score
    put_window(&mut buf, b"suspicious path", 64);
    assert_eq!(buf.len(), SYSCALL_DECISION_LEN);

    let e = parse(RawRecord { bytes: buf }).unwrap();
    match e {
        Event::SyscallDecision {
            timestamp,
            pid,
            uid,
            gid,
            command,
            syscall_number,
            original_path,
            modified_path,
            action,
            blocked,
            threat_score,
            reason,
        } => {
            assert_eq!(timestamp, 123);
            assert_eq!(pid, 400);
            assert_eq!(uid, 0);
            assert_eq!(gid, 0);
            assert_eq!(command, b"nc".to_vec());
            assert_eq!(syscall_number, 59);
            assert_eq!(original_path, b"/tmp/a".to_vec());
            assert_eq!(modified_path, b"/dev/null".to_vec());
            assert_eq!(action, SyscallAction::Redirect);
            assert!(blocked);
            assert_eq!(threat_score, 80);
            assert_eq!(reason, b"suspicious path".to_vec());
        }
        other => panic!("wrong variant: {:?}", other),
    }
}

#[test]
fn memory_violation_round_trip() {
    let mut buf: Vec<u8> = Vec::new();
    put_le_u64(&mut buf, 9);
    put_le_u32(&mut buf, 321); // pid
    put_le_u32(&mut buf, 322); // tid
    put_window(&mut buf, b"victim", 16);
    put_le_u64(&mut buf, 0xdeadbeef); // address
    put_le_u64(&mut buf, 4096); // size
    buf.push(1); // access type
    buf.push(2); // fault type
    put_le_u32(&mut buf, 7); // stack id
    put_le_u32(&mut buf, 95); // threat score
    buf.push(1); // overflow
    buf.push(0); // leak
    put_window(&mut buf, b"stack_overflow", 32);
    assert_eq!(buf.len(), MEMORY_VIOLATION_LEN);

    let e = parse(RawRecord { bytes: buf }).unwrap();
    match e {
        Event::MemoryViolation {
            timestamp,
            pid,
            tid,
            command,
            address,
            size,
            access_type,
            fault_type,
            stack_id,
            threat_score,
            is_overflow,
            is_leak,
            violation_type,
        } => {
            assert_eq!(timestamp, 9);
            assert_eq!(pid, 321);
            assert_eq!(tid, 322);
            assert_eq!(command, b"victim".to_vec());
            assert_eq!(address, 0xdeadbeef);
            assert_eq!(size, 4096);
            assert_eq!(access_type, 1);
            assert_eq!(fault_type, 2);
            assert_eq!(stack_id, 7);
            assert_eq!(threat_score, 95);
            assert!(is_overflow);
            assert!(!is_leak);
            assert_eq!(violation_type, b"stack_overflow".to_vec());
        }
        other => panic!("wrong variant: {:?}", other),
    }
}

#[test]
fn unknown_length_is_rejected_exactly() {
    // One byte longer than a process-execution record: no misaligned
    // decode of another variant, just the length error.
    let buf = vec![0u8; PROCESS_EXEC_LEN + 1];
    let r = parse(RawRecord { bytes: buf });
    assert_eq!(r, Err(ParseError::UnknownLength(297)));

    for n in [0usize, 1, 43, 45, 91, 93, 287, 289, 295, 621, 623, 1000] {
        let r = parse(RawRecord { bytes: vec![0u8; n] });
        assert_eq!(r, Err(ParseError::UnknownLength(n)), "length {}", n);
    }
}

#[test]
fn all_known_lengths_decode() {
    for n in [
        PROCESS_EXEC_LEN,
        NETWORK_CONNECT_LEN,
        FILE_OPERATION_LEN,
        SYSCALL_DECISION_LEN,
        MEMORY_VIOLATION_LEN,
    ] {
        assert!(parse(RawRecord { bytes: vec![0u8; n] }).is_ok(), "length {}", n);
    }
}

#[test]
fn command_without_nul_reads_full_window() {
    let mut buf: Vec<u8> = Vec::new();
    put_le_u64(&mut buf, 0);
    put_le_u32(&mut buf, 1);
    put_le_u32(&mut buf, 1);
    put_le_u32(&mut buf, 0);
    put_le_u32(&mut buf, 0);
    put_window(&mut buf, b"abcdefghijklmnop", 16); // no zero byte anywhere
    put_window(&mut buf, b"/bin/x", 256);
    let e = parse(RawRecord { bytes: buf }).unwrap();
    match e {
        Event::ProcessExec { command, .. } => {
            assert_eq!(command, b"abcdefghijklmnop".to_vec());
        }
        other => panic!("wrong variant: {:?}", other),
    }
}

#[test]
fn string_stops_at_first_nul() {
    let mut window = b"sshd".to_vec();
    window.push(0);
    window.extend_from_slice(b"garbage_after");
    window.truncate(16);
    let mut buf: Vec<u8> = Vec::new();
    put_le_u64(&mut buf, 0);
    put_le_u32(&mut buf, 1);
    put_le_u32(&mut buf, 1);
    put_le_u32(&mut buf, 0);
    put_le_u32(&mut buf, 0);
    buf.extend_from_slice(&window);
    put_window(&mut buf, b"/bin/x", 256);
    let e = parse(RawRecord { bytes: buf }).unwrap();
    match e {
        Event::ProcessExec { command, .. } => assert_eq!(command, b"sshd".to_vec()),
        other => panic!("wrong variant: {:?}", other),
    }
}

#[test]
fn encode_parse_round_trip_every_variant() {
    let events = vec![
        Event::ProcessExec {
            timestamp: 1,
            pid: 2,
            ppid: 3,
            uid: 4,
            gid: 5,
            command: b"init".to_vec(),
            path: b"/sbin/init".to_vec(),
        },
        Event::NetworkConnect {
            timestamp: 6,
            pid: 7,
            uid: 8,
            command: b"wget".to_vec(),
            src_addr: 0x0A000001,
            dst_addr: 0x0A000002,
            src_port: 1024,
            dst_port: 80,
        },
        Event::FileOperation {
            timestamp: 9,
            pid: 10,
            uid: 11,
            command: b"cat".to_vec(),
            operation: 1,
            path: b"/etc/hosts".to_vec(),
            mode: 0o444,
        },
        Event::SyscallDecision {
            timestamp: 12,
            pid: 13,
            uid: 14,
            gid: 15,
            command: b"bash".to_vec(),
            syscall_number: 257,
            original_path: b"/etc/shadow".to_vec(),
            modified_path: b"/dev/null".to_vec(),
            action: SyscallAction::Deny,
            blocked: true,
            threat_score: 99,
            reason: b"credential file".to_vec(),
        },
        Event::MemoryViolation {
            timestamp: 16,
            pid: 17,
            tid: 18,
            command: b"daemon".to_vec(),
            address: 0xFFFF_8000_0000_0000,
            size: 8,
            access_type: 2,
            fault_type: 1,
            stack_id: 19,
            threat_score: 20,
            is_overflow: false,
            is_leak: true,
            violation_type: b"use_after_free".to_vec(),
        },
    ];
    for e in events {
        let raw = encode(&e);
        let back = parse(raw).expect("encoded record must parse");
        assert_eq!(back, e);
    }
}

#[test]
fn action_bytes_map_to_variants() {
    let mk = |action_byte: u8| {
        let mut buf: Vec<u8> = Vec::new();
        put_le_u64(&mut buf, 0);
        put_le_u32(&mut buf, 0);
        put_le_u32(&mut buf, 0);
        put_le_u32(&mut buf, 0);
        put_window(&mut buf, b"x", 16);
        put_le_u32(&mut buf, 0);
        put_window(&mut buf, b"", 256);
        put_window(&mut buf, b"", 256);
        buf.push(action_byte);
        buf.push(0);
        put_le_u32(&mut buf, 0);
        put_window(&mut buf, b"", 64);
        buf
    };
    let expect = [
        (0u8, SyscallAction::Allow),
        (1, SyscallAction::Deny),
        (2, SyscallAction::Redirect),
        (3, SyscallAction::Log),
        (4, SyscallAction::Unknown),
        (200, SyscallAction::Unknown),
    ];
    for (b, want) in expect {
        match parse(RawRecord { bytes: mk(b) }).unwrap() {
            Event::SyscallDecision { action, blocked, .. } => {
                assert_eq!(action, want, "byte {}", b);
                assert!(!blocked);
            }
            other => panic!("wrong variant: {:?}", other),
        }
    }
}
