use erebus::Status;
use erebus::dispatch::{Phase, Session, Space};
use erebus::ioctl::{EREBUS_IOCTL_READ, EREBUS_IOCTL_WRITE, Operation, operation_of_code};
use erebus::ipc::{Request, ResponseChannel, encode_request};
use erebus::memory::{
    USER_MODE_ADDRESS_LOWER_BOUND, USER_MODE_ADDRESS_UPPER_BOUND, is_valid_user_memory,
};

fn request_bytes(process_id: u32, address: u64, buffer: u64, size: u64) -> Vec<u8> {
    encode_request(&Request { process_id, address, buffer, size })
}

/// A little simulated target process: a block of memory at a fixed base, and
/// a caller-side buffer, driven through the session exactly as the kernel
/// loop would drive the real primitives.
struct Harness {
    target_base: u64,
    target: Vec<u8>,
    caller_base: u64,
    caller: Vec<u8>,
    live_process: u32,
}

impl Harness {
    fn new() -> Harness {
        Harness {
            target_base: 0x20000,
            target: vec![0; 0x1000],
            caller_base: 0x30000,
            caller: vec![0; 0x1000],
            live_process: 42,
        }
    }

    /// Runs one control request to completion, returning the session and the
    /// response channel.
    fn run(&mut self, code: u32, input: &[u8], with_output: bool) -> (Session, ResponseChannel) {
        let mut channel = ResponseChannel {
            buffer: if with_output { Some(Vec::new()) } else { None },
            information: 0,
        };
        let mut session = Session::begin(code, input);
        if session.phase == Phase::Resolving {
            let found = session.request.unwrap().process_id == self.live_process;
            session.on_resolved(found);
        }
        if session.phase == Phase::Copying {
            let plan = session.copy_plan();
            let report = self.perform_copy(
                plan.source_space,
                plan.source_address,
                plan.destination_space,
                plan.destination_address,
                plan.size,
            );
            session.on_copy(report);
        }
        if session.phase == Phase::Responding {
            session.respond(&mut channel);
        }
        assert_eq!(session.phase, Phase::Completed);
        (session, channel)
    }

    fn perform_copy(
        &mut self,
        source_space: Space,
        source_address: u64,
        destination_space: Space,
        destination_address: u64,
        size: u64,
    ) -> Option<u64> {
        let mut bytes = Vec::new();
        for i in 0..size {
            let b = match source_space {
                Space::Target => self.read_byte(self.target_base, source_address + i, true)?,
                Space::Caller => self.read_byte(self.caller_base, source_address + i, false)?,
            };
            bytes.push(b);
        }
        for (i, b) in bytes.iter().enumerate() {
            match destination_space {
                Space::Target => {
                    self.write_byte(destination_address + i as u64, *b, true)?;
                },
                Space::Caller => {
                    self.write_byte(destination_address + i as u64, *b, false)?;
                },
            }
        }
        Some(size)
    }

    fn read_byte(&self, base: u64, address: u64, target: bool) -> Option<u8> {
        let block = if target { &self.target } else { &self.caller };
        let offset = address.checked_sub(base)? as usize;
        block.get(offset).copied()
    }

    fn write_byte(&mut self, address: u64, value: u8, target: bool) -> Option<u8> {
        let base = if target { self.target_base } else { self.caller_base };
        let block = if target { &mut self.target } else { &mut self.caller };
        let offset = address.checked_sub(base).map(|o| o as usize)?;
        if offset >= block.len() {
            return None;
        }
        block[offset] = value;
        Some(value)
    }
}

#[test]
fn validator_rejects_overflowing_extent() {
    assert!(!is_valid_user_memory(usize::MAX, 1));
    assert!(!is_valid_user_memory(usize::MAX - 10, 11));
    assert!(!is_valid_user_memory(1, usize::MAX));
}

#[test]
fn validator_matches_window_exactly() {
    let lower = USER_MODE_ADDRESS_LOWER_BOUND as usize;
    let upper = USER_MODE_ADDRESS_UPPER_BOUND as usize;
    assert!(is_valid_user_memory(lower, 1));
    assert!(is_valid_user_memory(lower, upper - lower));
    assert!(is_valid_user_memory(upper - 4, 4));
    assert!(is_valid_user_memory(upper, 0));
    assert!(!is_valid_user_memory(lower - 1, 1));
    assert!(!is_valid_user_memory(0, 16));
    assert!(!is_valid_user_memory(upper, 1));
    assert!(!is_valid_user_memory(lower, upper - lower + 1));
}

#[test]
fn unknown_process_is_not_found_and_acquires_nothing() {
    let mut harness = Harness::new();
    let input = request_bytes(9999, 0x20000, 0x30000, 4);
    let (session, channel) = harness.run(EREBUS_IOCTL_READ, &input, true);
    assert_eq!(session.status, Some(Status::ProcessNotFound));
    assert_eq!(session.references_acquired, 0);
    assert_eq!(session.references_released, 0);
    // No response payload on the failure path.
    assert_eq!(channel.buffer, Some(Vec::new()));
    assert_eq!(channel.information, 0);
}

#[test]
fn reference_balances_on_every_exit_path() {
    let mut harness = Harness::new();

    // Success path.
    let input = request_bytes(42, 0x20000, 0x30000, 4);
    let (session, _) = harness.run(EREBUS_IOCTL_READ, &input, true);
    assert_eq!(session.status, Some(Status::Success));
    assert_eq!(session.references_acquired, 1);
    assert_eq!(session.references_released, 1);

    // Copy failure: address valid for the screen, but not backed.
    let input = request_bytes(42, 0x7FF_0000_0000, 0x30000, 4);
    let (session, _) = harness.run(EREBUS_IOCTL_READ, &input, true);
    assert_eq!(session.status, Some(Status::AccessDenied));
    assert_eq!(session.references_acquired, 1);
    assert_eq!(session.references_released, 1);

    // Missing output buffer: completed, still balanced.
    let input = request_bytes(42, 0x20000, 0x30000, 4);
    let (session, channel) = harness.run(EREBUS_IOCTL_READ, &input, false);
    assert_eq!(session.status, Some(Status::OutputUnavailable));
    assert_eq!(session.references_acquired, 1);
    assert_eq!(session.references_released, 1);
    assert_eq!(channel.buffer, None);
}

#[test]
fn zero_size_read_is_malformed_before_resolution() {
    let mut harness = Harness::new();
    let input = request_bytes(42, 0x20000, 0x30000, 0);
    let (session, _) = harness.run(EREBUS_IOCTL_READ, &input, true);
    assert_eq!(session.status, Some(Status::MalformedInput));
    assert_eq!(session.references_acquired, 0);
}

#[test]
fn zero_size_write_passes_the_validator() {
    // The asymmetry is deliberate: a write is not screened for a zero size.
    let mut harness = Harness::new();
    let input = request_bytes(42, 0x20000, 0x30000, 0);
    let (session, _) = harness.run(EREBUS_IOCTL_WRITE, &input, true);
    assert_eq!(session.status, Some(Status::Success));
}

#[test]
fn unsupported_code_never_enters_the_pipeline() {
    assert_eq!(operation_of_code(0), None);
    assert_eq!(operation_of_code(0xdeadbeef), None);
    assert_eq!(operation_of_code(EREBUS_IOCTL_READ), Some(Operation::Read));
    assert_eq!(operation_of_code(EREBUS_IOCTL_WRITE), Some(Operation::Write));

    let mut harness = Harness::new();
    let input = request_bytes(42, 0x20000, 0x30000, 4);
    let (session, channel) = harness.run(0x222000, &input, true);
    assert_eq!(session.status, Some(Status::MalformedInput));
    assert_eq!(session.references_acquired, 0);
    assert_eq!(channel.buffer, Some(Vec::new()));
}

#[test]
fn write_then_read_round_trips_a_value() {
    let mut harness = Harness::new();
    let value: i32 = 1337;
    let address: u64 = 0x20010;

    // The caller stages the value in its own buffer and orders a WRITE.
    harness.caller[0x10..0x14].copy_from_slice(&value.to_le_bytes());
    let input = request_bytes(42, address, 0x30010, 4);
    let (session, _) = harness.run(EREBUS_IOCTL_WRITE, &input, true);
    assert_eq!(session.status, Some(Status::Success));

    // A READ of the same address and size lands in a fresh caller buffer.
    let input = request_bytes(42, address, 0x30020, 4);
    let (session, _) = harness.run(EREBUS_IOCTL_READ, &input, true);
    assert_eq!(session.status, Some(Status::Success));
    assert_eq!(session.bytes_copied, 4);
    let mut read_back = [0u8; 4];
    read_back.copy_from_slice(&harness.caller[0x20..0x24]);
    assert_eq!(i32::from_le_bytes(read_back), 1337);
}

#[test]
fn read_below_the_window_is_an_access_violation() {
    let mut harness = Harness::new();
    let boundary = USER_MODE_ADDRESS_LOWER_BOUND - 1;
    for size in [1u64, 16, u64::MAX] {
        let input = request_bytes(42, boundary, 0x30000, size);
        let (session, _) = harness.run(EREBUS_IOCTL_READ, &input, true);
        assert_eq!(session.status, Some(Status::AccessViolation));
        assert_eq!(session.references_acquired, 0);
    }
}

#[test]
fn oversized_read_is_an_access_violation() {
    let mut harness = Harness::new();
    let address = 0x20000u64;
    assert!(is_valid_user_memory(address as usize, 4));
    let size = USER_MODE_ADDRESS_UPPER_BOUND - address + 1;
    let input = request_bytes(42, address, 0x30000, size);
    let (session, _) = harness.run(EREBUS_IOCTL_READ, &input, true);
    assert_eq!(session.status, Some(Status::AccessViolation));
}

#[test]
fn short_buffer_is_malformed() {
    let mut harness = Harness::new();
    let (session, _) = harness.run(EREBUS_IOCTL_READ, &[], true);
    assert_eq!(session.status, Some(Status::MalformedInput));
    let (session, _) = harness.run(EREBUS_IOCTL_READ, &[0u8; 31], true);
    assert_eq!(session.status, Some(Status::MalformedInput));
}

#[test]
fn successful_read_confirms_with_count_and_address() {
    let mut harness = Harness::new();
    let input = request_bytes(42, 0x20000, 0x30000, 4);
    let (session, channel) = harness.run(EREBUS_IOCTL_READ, &input, true);
    assert_eq!(session.status, Some(Status::Success));
    let payload = channel.buffer.unwrap();
    assert_eq!(payload, b"Copied 4 bytes from 0x20000!".to_vec());
    assert_eq!(channel.information, payload.len() as u64);

    let input = request_bytes(42, 0x20000, 0x30000, 4);
    let (_, channel) = harness.run(EREBUS_IOCTL_WRITE, &input, true);
    let payload = channel.buffer.unwrap();
    assert_eq!(payload, b"Copied 4 bytes to 0x20000!".to_vec());
}

#[test]
fn copy_plan_orients_by_operation() {
    let input = request_bytes(42, 0x20000, 0x30000, 8);
    let mut session = Session::begin(EREBUS_IOCTL_READ, &input);
    session.on_resolved(true);
    let plan = session.copy_plan();
    assert_eq!(plan.source_space, Space::Target);
    assert_eq!(plan.source_address, 0x20000);
    assert_eq!(plan.destination_space, Space::Caller);
    assert_eq!(plan.destination_address, 0x30000);
    assert_eq!(plan.size, 8);
    assert!(plan.privileged);

    let mut session = Session::begin(EREBUS_IOCTL_WRITE, &input);
    session.on_resolved(true);
    let plan = session.copy_plan();
    assert_eq!(plan.source_space, Space::Caller);
    assert_eq!(plan.source_address, 0x30000);
    assert_eq!(plan.destination_space, Space::Target);
    assert_eq!(plan.destination_address, 0x20000);
}
