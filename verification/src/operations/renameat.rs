//! Probes for renames.
//!
//! A rename reaches the kernel on one of three paths: as the plain system
//! call, as the system call with flags, or as a request on the asynchronous
//! submission path. All three run the same kernel function, and the probe at
//! its exit writes the six arguments that are known there. On the two system
//! call paths that probe also ends the event. On the asynchronous path a
//! probe at the entry of the submission function has marked the thread
//! before; the probe of the rename function then leaves the record open for
//! that thread, and a probe at the exit of the submission function adds the
//! result of the request and ends the event.
//!
//! A record that a probe gave up on is abandoned: no later probe adds to it
//! or finalizes it. The probe at the asynchronous exit goes on only with the
//! record that was left open for its thread, so that a missed event stays
//! missed and never turns into a damaged one.
//!
//! A probe never submits an event itself: it returns the bytes of the
//! finished event, and its caller hands them to the ring buffer.

use crate::auxbuf::{
    fits, lemma_fits_without_last, stopped_by, Attempt, AuxiliaryBuffer, Phase, Record,
};
use crate::error::ProbeError;
use crate::event::{
    event_bytes, i64_payload, lemma_i64_payload_is_injective, lemma_params_bytes_push, open_record,
    u32_payload, EventType,
};
use crate::files::Filename;
use crate::operations::writer_helpers::{filename_payload, store_filename_param};
use crate::scap::{encode_dirfd, spec_encode_dirfd};
use crate::shared_state::op_info::{OpInfo, RenameatData};
use crate::shared_state::{SharedState, State};
use vstd::prelude::*;

verus! {

/// Number of parameters of the record that the probe of the kernel's rename
/// function leaves open on the asynchronous path.
pub const OPEN_PARAMS: usize = 6;

/// The arguments of the kernel's rename function and what it returned, as
/// they were read from the kernel.
#[derive(Debug)]
pub struct RenameatArgs {
    /// Directory descriptor that the old path is relative to.
    pub olddirfd: i32,
    /// The old path.
    pub oldpath: Filename,
    /// Directory descriptor that the new path is relative to.
    pub newdirfd: i32,
    /// The new path.
    pub newpath: Filename,
    /// The flags of the rename.
    pub flags: u32,
    /// What the kernel's rename function returned.
    pub res: i64,
}

/// Both paths can be read, and the identity of the file behind each can be
/// resolved.
pub open spec fn resolvable(args: RenameatArgs) -> bool {
    &&& filename_payload(args.oldpath, true) is Ok
    &&& filename_payload(args.newpath, true) is Ok
}

/// The six parameters that are known when the kernel's rename function
/// returns, in their order: old directory descriptor, old path with the
/// identity of its file, new directory descriptor, new path with the
/// identity of its file, flags, result. The descriptors are encoded for the
/// event first.
pub open spec fn first_six_params(args: RenameatArgs) -> Seq<Seq<u8>>
    recommends
        resolvable(args),
{
    seq![
        i64_payload(spec_encode_dirfd(args.olddirfd) as i64),
        filename_payload(args.oldpath, true)->Ok_0,
        i64_payload(spec_encode_dirfd(args.newdirfd) as i64),
        filename_payload(args.newpath, true)->Ok_0,
        u32_payload(args.flags),
        i64_payload(args.res),
    ]
}

/// The seventh parameter: the result of the asynchronous request, and empty
/// for a rename that came in as a system call.
pub open spec fn seventh_param(iou_ret: Option<i64>) -> Seq<u8> {
    match iou_ret {
        Some(ret) => i64_payload(ret),
        None => Seq::empty(),
    }
}

/// The seven parameters of the event for a rename, in their order.
pub open spec fn renameat_params(args: RenameatArgs, iou_ret: Option<i64>) -> Seq<Seq<u8>>
    recommends
        resolvable(args),
{
    first_six_params(args).push(seventh_param(iou_ret))
}

/// Thread `pid` has a rename pending on the asynchronous path.
pub open spec fn is_iou(state: State, pid: u32) -> bool {
    state.op_info.get(pid) matches Some(OpInfo::Renameat(_))
}

/// The probe of the kernel's rename function goes on for thread `pid`: the
/// thread has a rename pending on the asynchronous path, or events for plain
/// system calls are wanted.
pub open spec fn admitted(state: State, pid: u32) -> bool {
    is_iou(state, pid) || state.renameat_syscall_enabled
}

/// What becomes of a scratch region when a new record is started in it and
/// the first six parameters are written one after the other. Writing stops at
/// the first parameter that cannot be worked out or stored, and the record
/// is then abandoned.
pub open spec fn write_first_six(record: Record, args: RenameatArgs) -> Attempt {
    Attempt::start(record.preload(EventType::Renameat)).store(
        Ok(i64_payload(spec_encode_dirfd(args.olddirfd) as i64)),
    ).store(filename_payload(args.oldpath, true)).store(
        Ok(i64_payload(spec_encode_dirfd(args.newdirfd) as i64)),
    ).store(filename_payload(args.newpath, true)).store(Ok(u32_payload(args.flags))).store(
        Ok(i64_payload(args.res)),
    )
}

/// What the probe at the entry of the asynchronous rename does to the state,
/// and what it returns: it marks the thread, or fails when the store has no
/// room.
pub open spec fn spec_io_renameat_e(state: State, pid: u32) -> (State, Result<u32, ProbeError>) {
    if state.op_info.can_insert(pid) {
        (
            State {
                op_info: state.op_info.insert(pid, OpInfo::Renameat(RenameatData {  })),
                ..state
            },
            Ok(0),
        )
    } else {
        (state, Err(ProbeError::ResourceExhausted))
    }
}

/// What the probe at the exit of the kernel's rename function does to the
/// state, and what it returns: the event to submit, if it finished one.
pub open spec fn spec_do_renameat2_x(state: State, pid: u32, args: RenameatArgs) -> (
    State,
    Result<Option<Seq<u8>>, ProbeError>,
) {
    if !admitted(state, pid) {
        (state, Ok(None))
    } else {
        match state.auxbuf {
            None => (state, Err(ProbeError::ResourceExhausted)),
            Some(record) => {
                let six = write_first_six(record, args);
                let written = if is_iou(state, pid) {
                    six
                } else {
                    six.store(Ok(seventh_param(None)))
                };
                match written.error {
                    Some(error) => (State { auxbuf: Some(written.record), ..state }, Err(error)),
                    None => if is_iou(state, pid) {
                        (
                            State { auxbuf: Some(written.record.leave_open(pid)), ..state },
                            Ok(None),
                        )
                    } else {
                        (
                            State { auxbuf: Some(written.record.finalize()), ..state },
                            Ok(Some(written.record.finalize().bytes())),
                        )
                    },
                }
            },
        }
    }
}

/// What the probe at the exit of the asynchronous rename does to the state,
/// and what it returns: the event to submit.
pub open spec fn spec_io_renameat_x(state: State, pid: u32, iou_ret: i64) -> (
    State,
    Result<Seq<u8>, ProbeError>,
) {
    let cleared = State { op_info: state.op_info.remove(pid), ..state };
    match state.auxbuf {
        None => (cleared, Err(ProbeError::ResourceExhausted)),
        Some(record) => if !record.is_open_for(pid, EventType::Renameat, OPEN_PARAMS as nat) {
            (cleared, Err(ProbeError::RecordNotOpen))
        } else {
            let seven = Attempt::start(record.resume()).store(Ok(seventh_param(Some(iou_ret))));
            match seven.error {
                Some(error) => (State { auxbuf: Some(seven.record), ..cleared }, Err(error)),
                None => (
                    State { auxbuf: Some(seven.record.finalize()), ..cleared },
                    Ok(seven.record.finalize().bytes()),
                ),
            }
        },
    }
}

/// What a probe of the kernel's rename function returned, with the bytes of
/// the event in place of the vector that holds them.
pub open spec fn handed_over(r: Result<Option<Vec<u8>>, ProbeError>) -> Result<
    Option<Seq<u8>>,
    ProbeError,
> {
    match r {
        Ok(Some(event)) => Ok(Some(event@)),
        Ok(None) => Ok(None),
        Err(error) => Err(error),
    }
}

/// What a probe of the asynchronous exit returned, with the bytes of the
/// event in place of the vector that holds them.
pub open spec fn completed(r: Result<Vec<u8>, ProbeError>) -> Result<Seq<u8>, ProbeError> {
    match r {
        Ok(event) => Ok(event@),
        Err(error) => Err(error),
    }
}

/// The bytes that the scratch buffer holds, if there is one.
pub open spec fn buffer_bytes(state: State) -> Option<Seq<u8>> {
    match state.auxbuf {
        Some(record) => Some(record.bytes()),
        None => None,
    }
}

/// Probe at the entry of the asynchronous rename. Marks thread `pid` as
/// having a rename pending on the asynchronous path, in place of any mark
/// that the thread had. Fails, and changes nothing, when the thread has no
/// mark and the store is full.
pub fn try_io_renameat_e(state: &mut SharedState, pid: u32) -> (r: Result<u32, ProbeError>)
    ensures
        (final(state)@, r) == spec_io_renameat_e(old(state)@, pid),
        r is Ok <==> old(state)@.op_info.can_insert(pid),
        r is Ok ==> is_iou(final(state)@, pid),
        final(state)@.wf(),
{
    if let Some(auxbuf) = &state.auxbuf {
        proof {
            use_type_invariant(auxbuf);
        }
    }
    let op_info = OpInfo::Renameat(RenameatData {  });
    state.op_info.insert(pid, &op_info)
}

/// Tells whether the probe of the kernel's rename function goes on for
/// thread `pid`, so that its caller need not read the arguments of a rename
/// that the probe would skip.
pub fn is_admitted(state: &SharedState, pid: u32) -> (yes: bool)
    ensures
        yes == admitted(state@, pid),
{
    let is_iou = match state.op_info.get(pid) {
        Some(OpInfo::Renameat(_)) => true,
        _ => false,
    };
    let is_renameat_sc_support_enabled = state.renameat_syscall_enabled;
    is_iou || is_renameat_sc_support_enabled
}

/// Starts a new record in `writer` and writes the six parameters in `args`
/// to it, one after the other. Stops at the first that cannot be worked out
/// or stored, abandons the record and returns the error.
fn store_first_six(writer: &mut AuxiliaryBuffer, args: &RenameatArgs) -> (r: Result<
    (),
    ProbeError,
>)
    ensures
        (Attempt { record: final(writer)@, error: stopped_by(r) }) == write_first_six(
            old(writer)@,
            *args,
        ),
        final(writer)@.wf(),
        final(writer)@.len == 0,
        final(writer)@.event_type == EventType::Renameat.code(),
        r is Ok ==> final(writer)@.phase is Writing && final(writer)@.params.len() == OPEN_PARAMS,
        r is Err ==> final(writer)@.phase is Idle,
{
    writer.preload_event_header(EventType::Renameat);

    // Parameter 1: olddirfd.
    writer.store_param(encode_dirfd(args.olddirfd) as i64)?;

    // Parameter 2: oldpath.
    store_filename_param(writer, &args.oldpath, true)?;

    // Parameter 3: newdirfd.
    writer.store_param(encode_dirfd(args.newdirfd) as i64)?;

    // Parameter 4: newpath.
    store_filename_param(writer, &args.newpath, true)?;

    // Parameter 5: flags.
    writer.store_u32_param(args.flags)?;

    // Parameter 6: res.
    writer.store_param(args.res)
}

/// Probe at the exit of the kernel's rename function, which every rename
/// runs through, whatever path it came on.
///
/// The probe goes on only if thread `pid` has a rename pending on the
/// asynchronous path or events for plain system calls are wanted; else it
/// leaves everything as it is and hands nothing over. Where it goes on, it
/// starts a new record in the scratch buffer, in place of whatever the
/// buffer held, and writes the six parameters in `args`. On the system call
/// paths it then writes an empty seventh parameter, finalizes the record and
/// returns the finished event for the caller to submit. On the asynchronous
/// path it leaves the record open for the probe at the asynchronous exit of
/// the same thread and hands nothing over.
///
/// It fails when there is no scratch buffer, when a path cannot be read or
/// the identity of either file cannot be resolved, and when the buffer
/// cannot hold a parameter. A failed probe hands nothing over and abandons
/// the record: it is not finalized, and no later probe goes on with it. The
/// store is only read.
pub fn try_do_renameat2_x(state: &mut SharedState, pid: u32, args: &RenameatArgs) -> (r: Result<
    Option<Vec<u8>>,
    ProbeError,
>)
    ensures
        (final(state)@, handed_over(r)) == spec_do_renameat2_x(old(state)@, pid, *args),
        final(state)@.wf(),
        final(state)@.op_info == old(state)@.op_info,
        !admitted(old(state)@, pid) ==> {
            &&& handed_over(r) == Ok::<Option<Seq<u8>>, ProbeError>(None)
            &&& final(state)@ == old(state)@
        },
        !is_iou(old(state)@, pid) && old(state)@.renameat_syscall_enabled && old(state)@.auxbuf
            is Some && resolvable(*args) && fits(
            old(state)@.auxbuf->Some_0.capacity,
            renameat_params(*args, None),
        ) ==> handed_over(r) == Ok::<Option<Seq<u8>>, ProbeError>(
            Some(event_bytes(EventType::Renameat.code(), renameat_params(*args, None))),
        ),
        is_iou(old(state)@, pid) && old(state)@.auxbuf is Some && resolvable(*args) && fits(
            old(state)@.auxbuf->Some_0.capacity,
            first_six_params(*args),
        ) ==> {
            &&& handed_over(r) == Ok::<Option<Seq<u8>>, ProbeError>(None)
            &&& final(state)@.auxbuf->Some_0.is_open_for(
                pid,
                EventType::Renameat,
                OPEN_PARAMS as nat,
            )
            &&& final(state)@.auxbuf->Some_0.params == first_six_params(*args)
            &&& final(state)@.auxbuf->Some_0.bytes() == open_record(
                EventType::Renameat.code(),
                first_six_params(*args),
            )
        },
        r is Err && final(state)@.auxbuf is Some ==> {
            &&& final(state)@.auxbuf->Some_0.phase is Idle
            &&& final(state)@.auxbuf->Some_0.len == 0
        },
        admitted(old(state)@, pid) && final(state)@.auxbuf is Some ==> !(
        final(state)@.auxbuf->Some_0.phase is Writing),
{
    proof {
        use_type_invariant(&state.op_info);
        if state@.auxbuf is Some && resolvable(*args) {
            if !is_iou(state@, pid) && state@.renameat_syscall_enabled && fits(
                state@.auxbuf->Some_0.capacity,
                renameat_params(*args, None),
            ) {
                lemma_syscall_rename_emits_one_event(state@, pid, *args);
            }
            if is_iou(state@, pid) && fits(
                state@.auxbuf->Some_0.capacity,
                first_six_params(*args),
            ) {
                lemma_async_rename_is_left_open(state@, pid, *args);
            }
        }
    }
    let is_iou = match state.op_info.get(pid) {
        Some(OpInfo::Renameat(_)) => true,
        _ => false,
    };
    if !is_admitted(state, pid) {
        if let Some(auxbuf) = &state.auxbuf {
            proof {
                use_type_invariant(auxbuf);
            }
        }
        return Ok(None);
    }
    let writer = match &mut state.auxbuf {
        Some(auxbuf) => auxbuf,
        None => return Err(ProbeError::ResourceExhausted),
    };
    store_first_six(writer, args)?;

    if !is_iou {
        // Parameter 7: iou_ret.
        writer.store_empty_param()?;
        writer.finalize_event_header();
        return Ok(Some(writer.as_bytes()));
    }
    // The probe at the asynchronous exit has the seventh parameter.
    writer.leave_open(pid);
    Ok(None)
}

/// Probe at the exit of the asynchronous rename.
///
/// Takes the mark of thread `pid` out of the store, whether or not there is
/// one. Then it takes up the record that the probe of the kernel's rename
/// function left open for this thread, a rename record with six parameters,
/// appends the result of the request as the seventh parameter, finalizes the
/// record and returns the finished event for the caller to submit. It starts
/// no record of its own.
///
/// Where the scratch buffer holds anything but that record, the probe fails
/// and hands nothing over, and the buffer stays as it is: so after the
/// probe of the rename function was skipped, failed or ended the event
/// itself, and where another probe has used the buffer since. It also fails
/// when there is no scratch buffer, and when the buffer cannot hold the
/// parameter; the record is then abandoned. The mark is gone all the same.
pub fn try_io_renameat_x(state: &mut SharedState, pid: u32, iou_ret: i64) -> (r: Result<
    Vec<u8>,
    ProbeError,
>)
    ensures
        (final(state)@, completed(r)) == spec_io_renameat_x(old(state)@, pid, iou_ret),
        final(state)@.wf(),
        final(state)@.op_info == old(state)@.op_info.remove(pid),
        !final(state)@.op_info.map.contains_key(pid),
        r is Ok <==> old(state)@.auxbuf is Some && old(state)@.auxbuf->Some_0.is_open_for(
            pid,
            EventType::Renameat,
            OPEN_PARAMS as nat,
        ) && old(state)@.auxbuf->Some_0.can_store(8),
        r is Ok ==> completed(r) == Ok::<Seq<u8>, ProbeError>(
            event_bytes(
                EventType::Renameat.code(),
                old(state)@.auxbuf->Some_0.params.push(i64_payload(iou_ret)),
            ),
        ),
        r is Err ==> buffer_bytes(final(state)@) == buffer_bytes(old(state)@),
        r == Err::<Vec<u8>, ProbeError>(ProbeError::ResourceExhausted) <==> old(state)@.auxbuf
            is None,
        r == Err::<Vec<u8>, ProbeError>(ProbeError::RecordNotOpen) <==> old(state)@.auxbuf
            is Some && !old(state)@.auxbuf->Some_0.is_open_for(
            pid,
            EventType::Renameat,
            OPEN_PARAMS as nat,
        ),
        r == Err::<Vec<u8>, ProbeError>(ProbeError::RecordNotOpen) ==> final(state)@.auxbuf
            == old(state)@.auxbuf,
        r == Err::<Vec<u8>, ProbeError>(ProbeError::EncodingOverflow) <==> old(state)@.auxbuf
            is Some && old(state)@.auxbuf->Some_0.is_open_for(
            pid,
            EventType::Renameat,
            OPEN_PARAMS as nat,
        ) && !old(state)@.auxbuf->Some_0.can_store(8),
        r == Err::<Vec<u8>, ProbeError>(ProbeError::EncodingOverflow) ==> final(state)@.auxbuf
            == Some(old(state)@.auxbuf->Some_0.abandon()),
{
    let _ = state.op_info.remove(pid);

    let writer = match &mut state.auxbuf {
        Some(auxbuf) => auxbuf,
        None => return Err(ProbeError::ResourceExhausted),
    };
    proof {
        use_type_invariant(&*writer);
    }
    // No new record is started: the probe goes on with the one that the
    // probe of the kernel's rename function left open.
    writer.continue_event(pid, EventType::Renameat, OPEN_PARAMS)?;

    // Parameter 7: iou_ret.
    writer.store_param(iou_ret)?;

    writer.finalize_event_header();
    Ok(writer.as_bytes())
}

/// The probe at the entry of the asynchronous rename, as its host sees it.
/// Returns the status of the probe: zero where it ran through, one where it
/// gave up. The status is for counting; the observed rename goes on either
/// way.
pub fn io_renameat_e(state: &mut SharedState, pid: u32) -> (status: u32)
    ensures
        final(state)@ == spec_io_renameat_e(old(state)@, pid).0,
        status == match spec_io_renameat_e(old(state)@, pid).1 {
            Ok(code) => code,
            Err(_) => 1u32,
        },
        final(state)@.wf(),
{
    match try_io_renameat_e(state, pid) {
        Ok(code) => code,
        Err(_) => 1,
    }
}

/// The probe at the exit of the kernel's rename function, as its host sees
/// it. Returns the status of the probe, zero where it ran through and one
/// where it gave up, and the event to submit, if there is one. A probe that
/// gave up has no event.
pub fn do_renameat2_x(state: &mut SharedState, pid: u32, args: &RenameatArgs) -> (out: (
    u32,
    Option<Vec<u8>>,
))
    ensures
        final(state)@ == spec_do_renameat2_x(old(state)@, pid, *args).0,
        match spec_do_renameat2_x(old(state)@, pid, *args).1 {
            Ok(Some(event)) => out.0 == 0 && out.1 is Some && out.1->Some_0@ == event,
            Ok(None) => out.0 == 0 && out.1 is None,
            Err(_) => out.0 == 1 && out.1 is None,
        },
        final(state)@.wf(),
{
    match try_do_renameat2_x(state, pid, args) {
        Ok(event) => (0, event),
        Err(_) => (1, None),
    }
}

/// The probe at the exit of the asynchronous rename, as its host sees it.
/// Returns the status of the probe, zero where it ran through and one where
/// it gave up, and the event to submit, if there is one. A probe that gave
/// up has no event.
pub fn io_renameat_x(state: &mut SharedState, pid: u32, iou_ret: i64) -> (out: (
    u32,
    Option<Vec<u8>>,
))
    ensures
        final(state)@ == spec_io_renameat_x(old(state)@, pid, iou_ret).0,
        match spec_io_renameat_x(old(state)@, pid, iou_ret).1 {
            Ok(event) => out.0 == 0 && out.1 is Some && out.1->Some_0@ == event,
            Err(_) => out.0 == 1 && out.1 is None,
        },
        final(state)@.wf(),
        !final(state)@.op_info.map.contains_key(pid),
{
    match try_io_renameat_x(state, pid, iou_ret) {
        Ok(event) => (0, Some(event)),
        Err(_) => (1, None),
    }
}

/// Where the paths and identities resolve and the region can hold the first
/// six parameters, writing them succeeds and leaves a record in progress
/// with exactly those six.
pub proof fn lemma_write_first_six(record: Record, args: RenameatArgs)
    requires
        resolvable(args),
        fits(record.capacity, first_six_params(args)),
    ensures
        write_first_six(record, args) == Attempt::start(
            Record {
                event_type: EventType::Renameat.code(),
                len: 0,
                params: first_six_params(args),
                phase: Phase::Writing,
                capacity: record.capacity,
            },
        ),
{
    let capacity = record.capacity;
    let six = first_six_params(args);
    let none = Seq::<Seq<u8>>::empty();
    let one = none.push(six[0]);
    let two = one.push(six[1]);
    let three = two.push(six[2]);
    let four = three.push(six[3]);
    let five = four.push(six[4]);
    assert(five.push(six[5]) =~= six);
    lemma_fits_without_last(capacity, five, six[5]);
    lemma_fits_without_last(capacity, four, six[4]);
    lemma_fits_without_last(capacity, three, six[3]);
    lemma_fits_without_last(capacity, two, six[2]);
    lemma_fits_without_last(capacity, one, six[1]);
    lemma_fits_without_last(capacity, none, six[0]);
    let started = Attempt::start(record.preload(EventType::Renameat));
    let first = started.store(Ok(six[0]));
    assert(first.record.params == one && first.error is None);
    let second = first.store(Ok(six[1]));
    assert(second.record.params == two && second.error is None);
    let third = second.store(Ok(six[2]));
    assert(third.record.params == three && third.error is None);
    let fourth = third.store(Ok(six[3]));
    assert(fourth.record.params == four && fourth.error is None);
    let fifth = fourth.store(Ok(six[4]));
    assert(fifth.record.params == five && fifth.error is None);
}

/// On the asynchronous path the probe at the exit of the kernel's rename
/// function writes the six parameters and leaves the record open: where the
/// thread is marked, there is a scratch buffer that can hold the six, and
/// the paths and identities of both files resolve, it hands nothing over,
/// and the buffer holds a rename record with exactly those six, open for
/// the thread.
pub proof fn lemma_async_rename_is_left_open(state: State, pid: u32, args: RenameatArgs)
    requires
        is_iou(state, pid),
        state.auxbuf is Some,
        resolvable(args),
        fits(state.auxbuf->Some_0.capacity, first_six_params(args)),
    ensures
        spec_do_renameat2_x(state, pid, args).1 == Ok::<Option<Seq<u8>>, ProbeError>(None),
        spec_do_renameat2_x(state, pid, args).0 == (State {
            auxbuf: Some(
                Record {
                    event_type: EventType::Renameat.code(),
                    len: 0,
                    params: first_six_params(args),
                    phase: Phase::Open(pid),
                    capacity: state.auxbuf->Some_0.capacity,
                },
            ),
            ..state
        }),
        spec_do_renameat2_x(state, pid, args).0.auxbuf->Some_0.bytes() == open_record(
            EventType::Renameat.code(),
            first_six_params(args),
        ),
{
    lemma_write_first_six(state.auxbuf->Some_0, args);
}

/// Where the scratch buffer holds the record that was left open for the
/// thread, a rename record with six parameters, and can hold one more
/// parameter of eight bytes, the probe at the exit of the asynchronous rename
/// hands over the finished rename event with the same six parameters and the
/// result of the request behind them.
pub proof fn lemma_async_exit_completes_the_record(state: State, pid: u32, iou_ret: i64)
    requires
        state.auxbuf is Some,
        state.auxbuf->Some_0.is_open_for(pid, EventType::Renameat, OPEN_PARAMS as nat),
        state.auxbuf->Some_0.can_store(8),
    ensures
        spec_io_renameat_x(state, pid, iou_ret).1 == Ok::<Seq<u8>, ProbeError>(
            event_bytes(
                EventType::Renameat.code(),
                state.auxbuf->Some_0.params.push(i64_payload(iou_ret)),
            ),
        ),
        state.auxbuf->Some_0.params.push(i64_payload(iou_ret)).len() == 7,
{
    let record = state.auxbuf->Some_0;
    lemma_params_bytes_push(record.params, i64_payload(iou_ret));
}

/// A rename that comes in as a system call, plain or with flags, gives one
/// event: where events for system calls are wanted, the thread has no rename
/// pending on the asynchronous path, there is a scratch buffer that can hold
/// the event, and the paths and identities of both files resolve, the probe
/// at the exit of the kernel's rename function hands over an event of the
/// rename type with the seven parameters in their order, the seventh empty.
/// The store stays as it was, and the record is no longer in progress.
pub proof fn lemma_syscall_rename_emits_one_event(state: State, pid: u32, args: RenameatArgs)
    requires
        !is_iou(state, pid),
        state.renameat_syscall_enabled,
        state.auxbuf is Some,
        resolvable(args),
        fits(state.auxbuf->Some_0.capacity, renameat_params(args, None)),
    ensures
        spec_do_renameat2_x(state, pid, args).1 == Ok::<Option<Seq<u8>>, ProbeError>(
            Some(event_bytes(EventType::Renameat.code(), renameat_params(args, None))),
        ),
        spec_do_renameat2_x(state, pid, args).0.op_info == state.op_info,
        spec_do_renameat2_x(state, pid, args).0.auxbuf->Some_0.phase is Idle,
        renameat_params(args, None).len() == 7,
        renameat_params(args, None)[6] == Seq::<u8>::empty(),
{
    let record = state.auxbuf->Some_0;
    let six = first_six_params(args);
    let seventh = seventh_param(None);
    lemma_fits_without_last(record.capacity, six, seventh);
    lemma_write_first_six(record, args);
    lemma_params_bytes_push(six, seventh);
}

/// A rename on the asynchronous path gives one event: where the store has
/// room for the thread, there is a scratch buffer that can hold the event,
/// and the paths and identities of both files resolve, the probe at the
/// entry marks the thread, the probe at the exit of the kernel's rename
/// function writes six parameters and hands nothing over, and the probe at
/// the asynchronous exit hands over an event of the rename type with the
/// seven parameters in their order. The seventh is the result of the
/// asynchronous request, the sixth the result of the kernel's rename
/// function. After the three probes the thread has no mark in the store and
/// the record is no longer in progress. Whether events for system calls are
/// wanted makes no difference.
pub proof fn lemma_async_rename_emits_one_event(
    state: State,
    pid: u32,
    args: RenameatArgs,
    iou_ret: i64,
)
    requires
        state.op_info.can_insert(pid),
        state.auxbuf is Some,
        resolvable(args),
        fits(state.auxbuf->Some_0.capacity, renameat_params(args, Some(iou_ret))),
    ensures
        ({
            let (entered, r1) = spec_io_renameat_e(state, pid);
            let (written, r2) = spec_do_renameat2_x(entered, pid, args);
            let (done, r3) = spec_io_renameat_x(written, pid, iou_ret);
            &&& r1 == Ok::<u32, ProbeError>(0)
            &&& is_iou(entered, pid)
            &&& r2 == Ok::<Option<Seq<u8>>, ProbeError>(None)
            &&& written.auxbuf->Some_0.bytes() == open_record(
                EventType::Renameat.code(),
                first_six_params(args),
            )
            &&& r3 == Ok::<Seq<u8>, ProbeError>(
                event_bytes(EventType::Renameat.code(), renameat_params(args, Some(iou_ret))),
            )
            &&& !done.op_info.map.contains_key(pid)
            &&& done.op_info.map == state.op_info.map.remove(pid)
            &&& done.auxbuf->Some_0.phase is Idle
        }),
        renameat_params(args, Some(iou_ret)).len() == 7,
        renameat_params(args, Some(iou_ret))[5] == i64_payload(args.res),
        renameat_params(args, Some(iou_ret))[6] == i64_payload(iou_ret),
{
    let six = first_six_params(args);
    let seventh = seventh_param(Some(iou_ret));
    lemma_fits_without_last(state.auxbuf->Some_0.capacity, six, seventh);
    let (entered, r1) = spec_io_renameat_e(state, pid);
    lemma_async_rename_is_left_open(entered, pid, args);
    let (written, r2) = spec_do_renameat2_x(entered, pid, args);
    assert(written.auxbuf->Some_0.params == six);
    assert(seventh.len() == 8);
    assert(written.auxbuf->Some_0.can_store(8));
    lemma_async_exit_completes_the_record(written, pid, iou_ret);
    let (done, r3) = spec_io_renameat_x(written, pid, iou_ret);
    assert(done.op_info.map =~= state.op_info.map.remove(pid));
}

/// A record that was given up is never completed: where the probe at the
/// exit of the kernel's rename function fails, for want of a scratch buffer,
/// of a path or an identity, or of room, the probe at the asynchronous exit
/// that follows it fails too, hands nothing over and leaves the bytes in the
/// scratch buffer as they are.
pub proof fn lemma_failed_rename_is_never_completed(
    state: State,
    pid: u32,
    args: RenameatArgs,
    iou_ret: i64,
)
    requires
        spec_do_renameat2_x(state, pid, args).1 is Err,
    ensures
        ({
            let (failed, _r) = spec_do_renameat2_x(state, pid, args);
            let (done, r) = spec_io_renameat_x(failed, pid, iou_ret);
            &&& r is Err
            &&& buffer_bytes(done) == buffer_bytes(failed)
        }),
{
}

/// A rename that ended its event is not ended again: where the thread has
/// no mark, because it came in as a system call or because the probe at the
/// asynchronous entry found no room in the store, and events for system
/// calls are wanted, the probe at the exit of the kernel's rename function
/// hands over the one event or fails, and a probe at the asynchronous exit
/// that follows it fails, hands nothing over and leaves the bytes in the
/// scratch buffer as they are.
pub proof fn lemma_ended_rename_is_not_ended_again(
    state: State,
    pid: u32,
    args: RenameatArgs,
    iou_ret: i64,
)
    requires
        !is_iou(state, pid),
        state.renameat_syscall_enabled,
    ensures
        ({
            let (ended, _r) = spec_do_renameat2_x(state, pid, args);
            let (done, r) = spec_io_renameat_x(ended, pid, iou_ret);
            &&& r is Err
            &&& buffer_bytes(done) == buffer_bytes(ended)
        }),
{
}

/// The probe at the asynchronous exit completes a record once: whatever the
/// state, a second run of it for the same thread fails and hands nothing
/// over.
pub proof fn lemma_async_exit_completes_once(state: State, pid: u32, first: i64, second: i64)
    ensures
        spec_io_renameat_x(spec_io_renameat_x(state, pid, first).0, pid, second).1 is Err,
{
}

/// On the asynchronous path the seventh parameter tells the result of the
/// request apart from the result of the kernel's rename function: where the
/// two results differ, so do the sixth and the seventh parameter.
pub proof fn lemma_async_result_is_distinct(args: RenameatArgs, iou_ret: i64)
    requires
        args.res != iou_ret,
    ensures
        renameat_params(args, Some(iou_ret))[5] != renameat_params(args, Some(iou_ret))[6],
{
    if i64_payload(args.res) == i64_payload(iou_ret) {
        lemma_i64_payload_is_injective(args.res, iou_ret);
    }
}

/// Where events for system calls are not wanted and the thread has no rename
/// pending on the asynchronous path, the probe at the exit of the kernel's
/// rename function hands nothing over and changes nothing: not the store,
/// and not the scratch buffer, which it does not even ask for.
pub proof fn lemma_unwanted_rename_is_skipped(state: State, pid: u32, args: RenameatArgs)
    requires
        !state.renameat_syscall_enabled,
        !is_iou(state, pid),
    ensures
        spec_do_renameat2_x(state, pid, args) == (state, Ok::<Option<Seq<u8>>, ProbeError>(None)),
{
}

/// After the probe at the asynchronous exit the store has no entry for the
/// thread, whether the probe failed or not and whether there was an entry
/// or not. Cleaning up twice is the same as cleaning up once, and a thread
/// without an entry leaves the store as it was.
pub proof fn lemma_async_exit_clears_the_thread(state: State, pid: u32, iou_ret: i64)
    ensures
        !spec_io_renameat_x(state, pid, iou_ret).0.op_info.map.contains_key(pid),
        spec_io_renameat_x(state, pid, iou_ret).0.op_info == state.op_info.remove(pid),
        state.op_info.remove(pid).remove(pid) == state.op_info.remove(pid),
        !state.op_info.map.contains_key(pid) ==> state.op_info.remove(pid) == state.op_info,
{
    assert(state.op_info.map.remove(pid).remove(pid) =~= state.op_info.map.remove(pid));
    if !state.op_info.map.contains_key(pid) {
        assert(state.op_info.map.remove(pid) =~= state.op_info.map);
    }
}

} // verus!
