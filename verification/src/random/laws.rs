//! What holds of every request, however the operating system answers.

use super::fatal::Fatal;
use super::linux::{Action, Event, Progress, ReadOutcome, Stage, Step};
use super::probe::Capabilities;
use super::syscall::{Errno, Flags, KernelOutcome};
use vstd::prelude::*;

verus! {

/// Where a request and the capabilities stand after `steps`, having begun
/// as `request` and `caps`.
pub open spec fn reached(request: Progress, caps: Capabilities, steps: Seq<Step>) -> (
    Progress,
    Capabilities,
) {
    if steps.len() == 0 {
        (request, caps)
    } else {
        (steps.last().request, steps.last().caps)
    }
}

/// The decisions that a request takes on a series of reports: one step for
/// each report, each starting from where the step before it ended.
pub open spec fn run(request: Progress, caps: Capabilities, events: Seq<Event>) -> Seq<Step>
    decreases events.len(),
{
    if events.len() == 0 {
        Seq::empty()
    } else {
        let before = run(request, caps, events.drop_last());
        let (request, caps) = reached(request, caps, before);
        before.push(request.step(caps, events.last()))
    }
}

/// One thing that a process does with the capabilities that its requests
/// share: it begins a request, or it reports to a request that is under way,
/// whichever request that is and however far it has come.
pub enum Move {
    Begin { len: nat, insecure: bool },
    Report { request: Progress, event: Event },
}

/// What one move asks of the operating system, and the capabilities as it
/// leaves them.
pub open spec fn act(caps: Capabilities, m: Move) -> (Capabilities, Action) {
    match m {
        Move::Begin { len, insecure } => (caps, Progress::begin(len, insecure, caps).1),
        Move::Report { request, event } => {
            let step = request.step(caps, event);
            (step.caps, step.action)
        },
    }
}

/// The life of a process: what each of its moves asks for and leaves
/// behind, each move finding the capabilities as the move before left them.
pub open spec fn history(caps: Capabilities, moves: Seq<Move>) -> Seq<(Capabilities, Action)>
    decreases moves.len(),
{
    if moves.len() == 0 {
        Seq::empty()
    } else {
        let before = history(caps, moves.drop_last());
        let caps = if before.len() == 0 {
            caps
        } else {
            before.last().0
        };
        before.push(act(caps, moves.last()))
    }
}

/// A request that has just begun is well formed.
pub proof fn lemma_begin_is_well_formed(len: nat, insecure: bool, caps: Capabilities)
    requires
        len <= usize::MAX,
    ensures
        Progress::begin(len, insecure, caps).0.wf(),
{
}

/// A well-formed request stays well formed whatever is reported to it.
pub proof fn lemma_step_is_well_formed(request: Progress, caps: Capabilities, event: Event)
    requires
        request.wf(),
    ensures
        request.step(caps, event).request.wf(),
{
}

/// A request ends with the whole buffer filled or with nothing: it is done
/// exactly when every byte is filled, and an abort leaves no byte counted
/// as filled. Until then it asks for just the bytes that are missing. The
/// length and the grade that were asked for never change.
pub proof fn lemma_all_or_nothing(request: Progress, caps: Capabilities, event: Event)
    requires
        request.wf(),
    ensures
        ({
            let next = request.step(caps, event);
            &&& next.request.len == request.len
            &&& next.request.insecure == request.insecure
            &&& next.request.filled <= next.request.len
            &&& match next.action {
                Action::Done => next.request.stage is Done && next.request.filled == request.len,
                Action::Abort(fatal) => next.request.stage == Stage::Failed(fatal)
                    && next.request.filled == 0,
                Action::Syscall { offset, count, flags } => {
                    &&& next.request.stage == Stage::Kernel(flags)
                    &&& offset == next.request.filled
                    &&& count > 0
                    &&& offset + count == request.len
                },
                Action::Poll => next.request.stage is Waiting && next.request.filled
                    < request.len,
                Action::Read { offset, count } => {
                    &&& next.request.stage is Device
                    &&& offset == next.request.filled
                    &&& count > 0
                    &&& offset + count == request.len
                },
            }
        }),
{
}

/// The same holds of the first decision of a request.
pub proof fn lemma_all_or_nothing_at_first(len: nat, insecure: bool, caps: Capabilities)
    requires
        len <= usize::MAX,
    ensures
        ({
            let (request, action) = Progress::begin(len, insecure, caps);
            &&& request.len == len
            &&& request.insecure == insecure
            &&& request.filled == 0
            &&& match action {
                Action::Done => request.stage is Done && len == 0,
                Action::Abort(_) => false,
                Action::Syscall { offset, count, flags } => {
                    &&& request.stage == Stage::Kernel(flags)
                    &&& offset == 0
                    &&& count == len
                    &&& len > 0
                },
                Action::Poll => request.stage is Waiting && len > 0,
                Action::Read { offset, count } => {
                    &&& request.stage is Device
                    &&& offset == 0
                    &&& count == len
                    &&& len > 0
                },
            }
        }),
{
}

/// Capabilities move one way only: a step may find a fast path missing or
/// the pool seeded, and never the reverse.
pub proof fn lemma_capabilities_only_advance(request: Progress, caps: Capabilities, event: Event)
    ensures
        caps.advances_to(request.step(caps, event).caps),
{
}

/// Once the kernel call is known to be unavailable, no request asks for it
/// again, neither at its beginning nor at any later step, and the knowledge
/// is kept.
pub proof fn lemma_unavailable_syscall_is_not_attempted(
    request: Progress,
    caps: Capabilities,
    event: Event,
)
    requires
        !caps.syscall_available,
    ensures
        !(request.step(caps, event).action is Syscall),
        !request.step(caps, event).caps.syscall_available,
        !(Progress::begin(request.len, request.insecure, caps).1 is Syscall),
{
}

/// Once the pool is known to be seeded, no request polls for readiness
/// again, neither at its beginning nor at any later step, and the knowledge
/// is kept.
pub proof fn lemma_ready_pool_is_not_polled(request: Progress, caps: Capabilities, event: Event)
    requires
        caps.pool_ready,
    ensures
        !(request.step(caps, event).action is Poll),
        request.step(caps, event).caps.pool_ready,
        !(Progress::begin(request.len, request.insecure, caps).1 is Poll),
{
}

/// The grade that was asked for is honoured. A secure request calls the
/// kernel with no flags, so that the call itself waits for the pool, and
/// reads the device only once the pool is known to be seeded. An insecure
/// request never waits: it calls the kernel with one of the two flags that
/// return at once, and never polls.
pub proof fn lemma_grade_is_honoured(request: Progress, caps: Capabilities, event: Event)
    requires
        request.wf(),
    ensures
        ({
            let next = request.step(caps, event);
            match next.action {
                Action::Syscall { flags, .. } => flags is Blocking <==> !request.insecure,
                Action::Poll => !request.insecure,
                Action::Read { .. } => !request.insecure ==> next.caps.pool_ready,
                _ => true,
            }
        }),
        ({
            let (_, action) = Progress::begin(request.len, request.insecure, caps);
            match action {
                Action::Syscall { flags, .. } => flags is Blocking <==> !request.insecure,
                Action::Poll => !request.insecure,
                Action::Read { .. } => !request.insecure ==> caps.pool_ready,
                _ => true,
            }
        }),
{
}

/// An interruption is invisible: the request stays where it is and asks
/// again for what the capabilities, unchanged, call for.
pub proof fn lemma_interruption_is_retried(request: Progress, caps: Capabilities)
    requires
        request.wf(),
        request.stage is Kernel,
    ensures
        ({
            let event = Event::Kernel(KernelOutcome::Failed(Errno::Interrupted));
            let again = Progress::attempt(request.len, request.filled, request.insecure, caps);
            request.step(caps, event) == (Step { request: again.0, caps, action: again.1 })
        }),
{
}

/// A missing capability is no error. A kernel call that is missing or
/// forbidden is recorded and the fallback takes over; a fast-insecure flag
/// that the kernel rejects is recorded and the call is made again without
/// it; and the request goes on with nothing lost of what was filled.
pub proof fn lemma_missing_capability_is_no_error(request: Progress, caps: Capabilities)
    requires
        request.wf(),
        request.stage is Kernel,
    ensures
        ({
            let missing = request.step(
                caps,
                Event::Kernel(KernelOutcome::Failed(Errno::NotImplemented)),
            );
            let forbidden = request.step(
                caps,
                Event::Kernel(KernelOutcome::Failed(Errno::PermissionDenied)),
            );
            &&& missing == forbidden
            &&& missing.caps == (Capabilities { syscall_available: false, ..caps })
            &&& missing.action is Poll || missing.action is Read
            &&& missing.request.filled == request.filled
        }),
        request.stage == Stage::Kernel(Flags::Insecure) ==> ({
            let rejected = request.step(
                caps,
                Event::Kernel(KernelOutcome::Failed(Errno::InvalidArgument)),
            );
            &&& rejected.caps == (Capabilities { insecure_flag_available: false, ..caps })
            &&& rejected.request.filled == request.filled
            &&& caps.syscall_available ==> rejected.action == (Action::Syscall {
                offset: request.filled as usize,
                count: request.remaining() as usize,
                flags: Flags::NonBlocking,
            })
            &&& !caps.syscall_available ==> rejected.action is Read
        }),
{
}

/// A pool that is not yet seeded is no error. An insecure request whose
/// non-blocking call would have had to wait reads the device at once, with
/// nothing recorded and nothing lost of what was filled.
pub proof fn lemma_unseeded_pool_is_no_error(request: Progress, caps: Capabilities)
    requires
        request.wf(),
        request.stage == Stage::Kernel(Flags::NonBlocking),
    ensures
        ({
            let next = request.step(caps, Event::Kernel(KernelOutcome::Failed(Errno::WouldBlock)));
            &&& next.caps == caps
            &&& next.request.filled == request.filled
            &&& next.action == (Action::Read {
                offset: request.filled as usize,
                count: request.remaining() as usize,
            })
        }),
{
}

/// A request that has ended stays ended: whatever is reported to it, it
/// repeats its last word and changes nothing.
pub proof fn lemma_the_end_is_final(request: Progress, caps: Capabilities, event: Event)
    requires
        request.stage is Done || request.stage is Failed,
    ensures
        ({
            let next = request.step(caps, event);
            &&& next.request == request
            &&& next.caps == caps
            &&& request.stage is Done ==> next.action is Done
            &&& request.stage matches Stage::Failed(fatal) ==> next.action == Action::Abort(fatal)
        }),
{
}

/// A report that does not answer what was asked for aborts the request.
pub proof fn lemma_wrong_report_aborts(request: Progress, caps: Capabilities, event: Event)
    requires
        match request.stage {
            Stage::Kernel(_) => !(event is Kernel),
            Stage::Waiting => !(event is Polled),
            Stage::Device => !(event is Read),
            _ => false,
        },
    ensures
        request.step(caps, event).action == Action::Abort(Fatal::Protocol),
        request.step(caps, event).caps == caps,
{
}

/// The step laws hold all along a run: every step keeps the request well
/// formed, the length and grade unchanged, and the capabilities moving one
/// way from where the run began; and whenever the run says "done", the
/// whole length is filled, and whenever it says "abort", nothing is.
pub proof fn lemma_run_is_all_or_nothing(request: Progress, caps: Capabilities, events: Seq<Event>)
    requires
        request.wf(),
    ensures
        run(request, caps, events).len() == events.len(),
        forall|i: int|
            0 <= i < events.len() ==> {
                let step = #[trigger] run(request, caps, events)[i];
                &&& step.request.wf()
                &&& step.request.len == request.len
                &&& step.request.insecure == request.insecure
                &&& caps.advances_to(step.caps)
                &&& step.action is Done ==> step.request.filled == request.len
                &&& step.action is Abort ==> step.request.filled == 0
                &&& !(step.action is Done) && !(step.action is Abort) ==> step.request.filled
                    < request.len
            },
    decreases events.len(),
{
    if events.len() > 0 {
        lemma_run_is_all_or_nothing(request, caps, events.drop_last());
        let before = run(request, caps, events.drop_last());
        let (request, caps) = reached(request, caps, before);
        lemma_all_or_nothing(request, caps, events.last());
        lemma_step_is_well_formed(request, caps, events.last());
        lemma_capabilities_only_advance(request, caps, events.last());
    }
}

/// Whatever its length and grade, whatever the process knew when it began
/// and whatever the operating system answers, a request never ends with
/// fewer bytes than were asked for: its first word and every later one is
/// "done" only with the whole length filled and "abort" only with nothing
/// counted as filled, and anything else asks for more while bytes are
/// missing.
pub proof fn lemma_fill_is_exact_or_aborted(
    len: nat,
    insecure: bool,
    caps: Capabilities,
    events: Seq<Event>,
)
    requires
        len <= usize::MAX,
    ensures
        ({
            let (request, action) = Progress::begin(len, insecure, caps);
            &&& request.len == len
            &&& action is Done ==> request.filled == len
            &&& !(action is Abort)
            &&& !(action is Done) ==> request.filled < len
            &&& forall|i: int|
                0 <= i < events.len() ==> {
                    let step = #[trigger] run(request, caps, events)[i];
                    &&& step.request.len == len
                    &&& step.action is Done ==> step.request.filled == len
                    &&& step.action is Abort ==> step.request.filled == 0
                    &&& !(step.action is Done) && !(step.action is Abort) ==> step.request.filled
                        < len
                }
        }),
{
    let (request, action) = Progress::begin(len, insecure, caps);
    lemma_begin_is_well_formed(len, insecure, caps);
    lemma_all_or_nothing_at_first(len, insecure, caps);
    lemma_run_is_all_or_nothing(request, caps, events);
}

/// A device that fails ends the request, and the read is not tried again:
/// whether the device could not be opened, ended early or returned an error,
/// the request aborts with nothing counted as filled, and whatever is
/// reported to it afterwards, it aborts again and asks for nothing.
pub proof fn lemma_device_failure_is_final(request: Progress, caps: Capabilities, later: Event)
    requires
        request.wf(),
        request.stage is Device,
    ensures
        ({
            let failed = request.step(caps, Event::Read(ReadOutcome::Failed));
            let after = failed.request.step(failed.caps, later);
            &&& failed.action == Action::Abort(Fatal::Device)
            &&& failed.request.stage == Stage::Failed(Fatal::Device)
            &&& failed.request.filled == 0
            &&& failed.caps == caps
            &&& after == failed
        }),
        ({
            let read = request.step(caps, Event::Read(ReadOutcome::Complete));
            &&& read.action is Done
            &&& read.request.filled == request.len
            &&& read.caps == caps
        }),
{
}

/// Capabilities move one way only through the whole life of a process.
pub proof fn lemma_history_only_advances(caps: Capabilities, moves: Seq<Move>)
    ensures
        history(caps, moves).len() == moves.len(),
        forall|i: int|
            0 <= i < moves.len() ==> caps.advances_to((#[trigger] history(caps, moves)[i]).0),
        forall|i: int, j: int|
            0 <= i <= j < moves.len() ==> (#[trigger] history(caps, moves)[i]).0.advances_to(
                (#[trigger] history(caps, moves)[j]).0,
            ),
    decreases moves.len(),
{
    if moves.len() > 0 {
        lemma_history_only_advances(caps, moves.drop_last());
        let before = history(caps, moves.drop_last());
        if let Move::Report { request, event } = moves.last() {
            let found = if before.len() == 0 {
                caps
            } else {
                before.last().0
            };
            lemma_capabilities_only_advance(request, found, event);
        }
    }
}

/// Once the kernel call is known to be unavailable, it is never asked for
/// again for the rest of the process: not by a request that begins later,
/// and not by one that was under way.
pub proof fn lemma_no_syscall_once_unavailable(caps: Capabilities, moves: Seq<Move>)
    requires
        !caps.syscall_available,
    ensures
        forall|i: int|
            0 <= i < history(caps, moves).len() ==> {
                let (left, action) = #[trigger] history(caps, moves)[i];
                !(action is Syscall) && !left.syscall_available
            },
    decreases moves.len(),
{
    if moves.len() > 0 {
        lemma_no_syscall_once_unavailable(caps, moves.drop_last());
    }
}

/// Once the pool is known to be seeded, readiness is never polled for again
/// for the rest of the process: not by a request that begins later, and not
/// by one that was waiting.
pub proof fn lemma_no_poll_once_ready(caps: Capabilities, moves: Seq<Move>)
    requires
        caps.pool_ready,
    ensures
        forall|i: int|
            0 <= i < history(caps, moves).len() ==> {
                let (left, action) = #[trigger] history(caps, moves)[i];
                !(action is Poll) && left.pool_ready
            },
    decreases moves.len(),
{
    if moves.len() > 0 {
        lemma_no_poll_once_ready(caps, moves.drop_last());
    }
}

} // verus!
