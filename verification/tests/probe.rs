use sysrandom::random::apple;
use sysrandom::random::fatal::Fatal;
use sysrandom::random::linux::hashmap_random_keys;
use sysrandom::random::platform::Numbers;
use sysrandom::random::probe::{CapabilityProbe, CapabilityState};
use sysrandom::random::readiness::{must_wait, Passage, PollOutcome};
use sysrandom::random::syscall::{Errno, Flags, KernelOutcome, Verdict};

#[test]
fn fresh_state_presumes_the_fast_paths_and_an_unseeded_pool() {
    let caps = CapabilityState::new();
    assert!(caps.syscall_available());
    assert!(caps.insecure_flag_available());
    assert!(!caps.pool_ready());
    assert_eq!(caps, CapabilityState::from_flags(true, true, false));
}

#[test]
fn marks_move_one_flag_and_are_idempotent() {
    let mut caps = CapabilityState::new();
    caps.mark_syscall_unavailable();
    assert_eq!(caps, CapabilityState::from_flags(false, true, false));
    caps.mark_syscall_unavailable();
    assert_eq!(caps, CapabilityState::from_flags(false, true, false));
    caps.mark_insecure_flag_unavailable();
    assert_eq!(caps, CapabilityState::from_flags(false, false, false));
    caps.mark_pool_ready();
    assert_eq!(caps, CapabilityState::from_flags(false, false, true));
    caps.mark_pool_ready();
    caps.mark_insecure_flag_unavailable();
    assert_eq!(caps, CapabilityState::from_flags(false, false, true));
}

#[test]
fn shared_probe_starts_fresh_and_moves_one_way() {
    let probe = CapabilityProbe::new();
    assert_eq!(probe.snapshot(), CapabilityState::new());
    probe.publish(&CapabilityState::new());
    assert_eq!(probe.snapshot(), CapabilityState::new());
    probe.publish(&CapabilityState::from_flags(false, true, false));
    assert_eq!(probe.snapshot(), CapabilityState::from_flags(false, true, false));
    probe.publish(&CapabilityState::from_flags(true, false, true));
    assert_eq!(probe.snapshot(), CapabilityState::from_flags(false, false, true));
    probe.publish(&CapabilityState::new());
    assert_eq!(probe.snapshot(), CapabilityState::from_flags(false, false, true));
}

#[test]
fn shared_probe_is_read_and_written_through_shared_references() {
    let probe = CapabilityProbe::new();
    let (first, second) = (&probe, &probe);
    let mut seen = first.snapshot();
    seen.mark_pool_ready();
    first.publish(&seen);
    assert!(second.snapshot().pool_ready());
    let mut seen = second.snapshot();
    seen.mark_syscall_unavailable();
    second.publish(&seen);
    assert_eq!(first.snapshot(), CapabilityState::from_flags(false, true, true));
}

#[test]
fn native_numbers_are_those_of_the_platform() {
    let numbers = Numbers::native();
    assert_eq!(numbers.interrupted, libc::EINTR);
    assert_eq!(numbers.invalid_argument, libc::EINVAL);
    assert_eq!(numbers.would_block, libc::EAGAIN);
    assert_eq!(numbers.not_implemented, libc::ENOSYS);
    assert_eq!(numbers.permission_denied, libc::EPERM);
    assert_eq!(numbers.nonblock_flag, libc::GRND_NONBLOCK);
    assert_eq!(numbers.insecure_flag, libc::GRND_INSECURE);
    assert_eq!(numbers.readable_event, libc::POLLIN);
}

#[test]
fn native_numbers_are_known_and_tell_apart() {
    let n = Numbers::native();
    let hurd = sysrandom::random::platform::HURD_ERRORS;
    assert_eq!(hurd, 0x4000_0000);
    assert!([4, hurd + 4].contains(&n.interrupted));
    assert!([22, hurd + 22].contains(&n.invalid_argument));
    assert!([11, 35, hurd + 35].contains(&n.would_block));
    assert!([38, 89, 90, 78, hurd + 78].contains(&n.not_implemented));
    assert!([1, hurd + 1].contains(&n.permission_denied));
    assert!([1, 2].contains(&n.nonblock_flag));
    assert_eq!(n.insecure_flag, 4);
    assert_eq!(n.readable_event, 1);
    let errors =
        [n.interrupted, n.invalid_argument, n.would_block, n.not_implemented, n.permission_denied];
    for (i, a) in errors.iter().enumerate() {
        for b in &errors[i + 1..] {
            assert_ne!(a, b);
        }
    }
    let kinds = [
        Errno::Interrupted,
        Errno::InvalidArgument,
        Errno::WouldBlock,
        Errno::NotImplemented,
        Errno::PermissionDenied,
    ];
    for (code, kind) in errors.iter().zip(kinds) {
        assert_eq!(Errno::classify(*code, &n), kind);
    }
    let bits = [Flags::Blocking.bits(&n), Flags::NonBlocking.bits(&n), Flags::Insecure.bits(&n)];
    assert!(bits[0] != bits[1] && bits[0] != bits[2] && bits[1] != bits[2]);
}

fn made_up_numbers() -> Numbers {
    Numbers {
        interrupted: 101,
        invalid_argument: 102,
        would_block: 103,
        not_implemented: 104,
        permission_denied: 105,
        nonblock_flag: 0x10,
        insecure_flag: 0x20,
        readable_event: 0x40,
    }
}

#[test]
fn flags_follow_the_grade_and_the_probe() {
    let fresh = CapabilityState::new();
    let rejected = CapabilityState::from_flags(true, false, false);
    assert_eq!(Flags::select(&fresh, false), Flags::Blocking);
    assert_eq!(Flags::select(&rejected, false), Flags::Blocking);
    assert_eq!(Flags::select(&fresh, true), Flags::Insecure);
    assert_eq!(Flags::select(&rejected, true), Flags::NonBlocking);
}

#[test]
fn flag_bits_come_from_the_numbers() {
    let numbers = made_up_numbers();
    assert_eq!(Flags::Blocking.bits(&numbers), 0);
    assert_eq!(Flags::NonBlocking.bits(&numbers), 0x10);
    assert_eq!(Flags::Insecure.bits(&numbers), 0x20);
    let native = Numbers::native();
    assert_eq!(Flags::Blocking.bits(&native), 0);
    assert_eq!(Flags::NonBlocking.bits(&native), libc::GRND_NONBLOCK);
    assert_eq!(Flags::Insecure.bits(&native), libc::GRND_INSECURE);
}

#[test]
fn error_numbers_are_told_apart() {
    let numbers = made_up_numbers();
    assert_eq!(Errno::classify(101, &numbers), Errno::Interrupted);
    assert_eq!(Errno::classify(102, &numbers), Errno::InvalidArgument);
    assert_eq!(Errno::classify(103, &numbers), Errno::WouldBlock);
    assert_eq!(Errno::classify(104, &numbers), Errno::NotImplemented);
    assert_eq!(Errno::classify(105, &numbers), Errno::PermissionDenied);
    assert_eq!(Errno::classify(106, &numbers), Errno::Other(106));
    assert_eq!(Errno::classify(0, &numbers), Errno::Other(0));
    assert_eq!(Errno::classify(-1, &numbers), Errno::Other(-1));
    let native = Numbers::native();
    assert_eq!(Errno::classify(libc::EIO, &native), Errno::Other(libc::EIO));
    assert_eq!(Errno::classify(libc::EFAULT, &native), Errno::Other(libc::EFAULT));
}

#[test]
fn kernel_return_values_are_read() {
    let numbers = made_up_numbers();
    assert_eq!(KernelOutcome::from_raw(0, 0, &numbers), KernelOutcome::Wrote(0));
    assert_eq!(KernelOutcome::from_raw(16, 101, &numbers), KernelOutcome::Wrote(16));
    assert_eq!(
        KernelOutcome::from_raw(isize::MAX, 0, &numbers),
        KernelOutcome::Wrote(isize::MAX as usize)
    );
    assert_eq!(KernelOutcome::from_raw(-1, 101, &numbers), KernelOutcome::Failed(Errno::Interrupted));
    assert_eq!(KernelOutcome::from_raw(-1, 7, &numbers), KernelOutcome::Failed(Errno::Other(7)));
    assert_eq!(KernelOutcome::from_raw(-2, 101, &numbers), KernelOutcome::Malformed);
    assert_eq!(KernelOutcome::from_raw(isize::MIN, 0, &numbers), KernelOutcome::Malformed);
}

#[test]
fn verdicts_of_one_attempt() {
    let fresh = CapabilityState::new();
    let verdict = |flags, remaining, outcome| {
        let mut caps = CapabilityState::new();
        let verdict = Verdict::judge(&mut caps, flags, remaining, outcome);
        (verdict, caps)
    };
    assert_eq!(verdict(Flags::Blocking, 8, KernelOutcome::Wrote(8)), (Verdict::Advance(8), fresh));
    assert_eq!(verdict(Flags::Blocking, 8, KernelOutcome::Wrote(0)), (Verdict::Advance(0), fresh));
    assert_eq!(
        verdict(Flags::Blocking, 8, KernelOutcome::Wrote(9)),
        (Verdict::Abort(Fatal::Overrun), fresh)
    );
    assert_eq!(
        verdict(Flags::Insecure, 8, KernelOutcome::Failed(Errno::Interrupted)),
        (Verdict::Retry, fresh)
    );
    assert_eq!(
        verdict(Flags::Insecure, 8, KernelOutcome::Failed(Errno::InvalidArgument)),
        (Verdict::Retry, CapabilityState::from_flags(true, false, false))
    );
    assert_eq!(
        verdict(Flags::NonBlocking, 8, KernelOutcome::Failed(Errno::InvalidArgument)),
        (Verdict::Abort(Fatal::Kernel), fresh)
    );
    assert_eq!(
        verdict(Flags::NonBlocking, 8, KernelOutcome::Failed(Errno::WouldBlock)),
        (Verdict::Fallback, fresh)
    );
    assert_eq!(
        verdict(Flags::Insecure, 8, KernelOutcome::Failed(Errno::WouldBlock)),
        (Verdict::Abort(Fatal::Kernel), fresh)
    );
    assert_eq!(
        verdict(Flags::Blocking, 8, KernelOutcome::Failed(Errno::NotImplemented)),
        (Verdict::Fallback, CapabilityState::from_flags(false, true, false))
    );
    assert_eq!(
        verdict(Flags::Insecure, 8, KernelOutcome::Failed(Errno::PermissionDenied)),
        (Verdict::Fallback, CapabilityState::from_flags(false, true, false))
    );
    assert_eq!(
        verdict(Flags::Blocking, 8, KernelOutcome::Failed(Errno::Other(5))),
        (Verdict::Abort(Fatal::Kernel), fresh)
    );
}

#[test]
fn poll_return_values_are_read() {
    let numbers = made_up_numbers();
    assert_eq!(PollOutcome::from_raw(1, 0x40, 0, &numbers), PollOutcome::Readable);
    assert_eq!(PollOutcome::from_raw(1, 0x41, 0, &numbers), PollOutcome::UnexpectedEvents);
    assert_eq!(PollOutcome::from_raw(1, 0, 101, &numbers), PollOutcome::UnexpectedEvents);
    assert_eq!(PollOutcome::from_raw(-1, 0, 101, &numbers), PollOutcome::Interrupted);
    assert_eq!(PollOutcome::from_raw(-1, 0x40, 102, &numbers), PollOutcome::Failed);
    assert_eq!(PollOutcome::from_raw(0, 0, 0, &numbers), PollOutcome::Failed);
    assert_eq!(PollOutcome::from_raw(2, 0x40, 0, &numbers), PollOutcome::Failed);
    let native = Numbers::native();
    assert_eq!(
        PollOutcome::from_raw(1, libc::POLLIN | libc::POLLHUP, 0, &native),
        PollOutcome::UnexpectedEvents
    );
}

#[test]
fn passage_after_one_poll() {
    let passage = |outcome| {
        let mut caps = CapabilityState::new();
        let passage = Passage::judge(&mut caps, outcome);
        (passage, caps.pool_ready())
    };
    assert_eq!(passage(PollOutcome::Readable), (Passage::Open, true));
    assert_eq!(passage(PollOutcome::Interrupted), (Passage::Retry, false));
    assert_eq!(passage(PollOutcome::OpenFailed), (Passage::Abort(Fatal::OpenBlockingDevice), false));
    assert_eq!(passage(PollOutcome::UnexpectedEvents), (Passage::Abort(Fatal::PollEvents), false));
    assert_eq!(passage(PollOutcome::Failed), (Passage::Abort(Fatal::Poll), false));
    assert!(must_wait(&CapabilityState::new()));
    assert!(!must_wait(&CapabilityState::from_flags(true, true, true)));
}

#[test]
fn hash_map_keys_are_the_two_halves_in_native_order() {
    let bytes: [u8; 16] = [1, 2, 3, 4, 5, 6, 7, 8, 0xf1, 0xf2, 0xf3, 0xf4, 0xf5, 0xf6, 0xf7, 0xf8];
    let (k1, k2) = hashmap_random_keys(&bytes);
    assert_eq!(k1, u64::from_ne_bytes([1, 2, 3, 4, 5, 6, 7, 8]));
    assert_eq!(k2, u64::from_ne_bytes([0xf1, 0xf2, 0xf3, 0xf4, 0xf5, 0xf6, 0xf7, 0xf8]));
    assert!(k1 == 0x0807060504030201 || k1 == 0x0102030405060708);
    assert!(k2 == 0xf8f7f6f5f4f3f2f1 || k2 == 0xf1f2f3f4f5f6f7f8);
    assert_eq!(hashmap_random_keys(&[0; 16]), (0, 0));
    assert_eq!(hashmap_random_keys(&[0xff; 16]), (u64::MAX, u64::MAX));
}

#[test]
fn single_call_platform_fills_all_or_aborts() {
    assert_eq!(apple::fill_bytes(0, apple::Status::Success), Ok(0));
    assert_eq!(apple::fill_bytes(4096, apple::Status::Success), Ok(4096));
    assert_eq!(apple::fill_bytes(4096, apple::Status::Failure), Err(Fatal::Platform));
    assert_eq!(apple::fill_bytes(0, apple::Status::Failure), Err(Fatal::Platform));
}

#[test]
fn fatal_messages() {
    assert_eq!(Fatal::Kernel.message(), "failed to generate random data");
    assert_eq!(Fatal::Device.message(), "failed to generate random data");
    assert_eq!(Fatal::Platform.message(), "failed to generate random data");
    assert_eq!(Fatal::OpenBlockingDevice.message(), "failed to open /dev/random");
    assert_eq!(Fatal::Poll.message(), "poll(\"/dev/random\") failed");
    assert_eq!(Fatal::PollEvents.message(), "poll(\"/dev/random\") failed");
    assert_eq!(Fatal::Overrun.message(), "random data overran its buffer");
    assert_eq!(Fatal::Protocol.message(), "unexpected report for a request for random data");
}
