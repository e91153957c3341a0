use krsi_ebpf::auxbuf::{AuxiliaryBuffer, Phase};
use krsi_ebpf::error::ProbeError;
use krsi_ebpf::event::EventType;
use krsi_ebpf::files::{Dentry, File, Filename, Inode, SuperBlock, OVERLAYFS_SUPER_MAGIC};
use krsi_ebpf::operations::renameat::{
    do_renameat2_x, io_renameat_e, io_renameat_x, is_admitted, try_do_renameat2_x,
    try_io_renameat_e, try_io_renameat_x, RenameatArgs,
};
use krsi_ebpf::operations::writer_helpers::store_filename_param;
use krsi_ebpf::shared_state::op_info::{OpInfo, OpInfoStore, RenameatData};
use krsi_ebpf::shared_state::SharedState;

const T: u32 = 4711;

fn file(dev: u32, ino: u64) -> File {
    let sb = || SuperBlock { s_dev: Ok(dev), s_magic: Ok(0xef53) };
    let inode = || Inode { i_sb: Ok(sb()), i_ino: Ok(ino), upper_dentry: Err(-2) };
    File { f_inode: Ok(inode()), f_dentry: Ok(Dentry { d_sb: Ok(sb()), d_inode: Ok(inode()) }) }
}

fn lower_file(dev: u32, ino: u64) -> File {
    let sb = || SuperBlock { s_dev: Ok(dev), s_magic: Ok(OVERLAYFS_SUPER_MAGIC) };
    let inode = || Inode { i_sb: Ok(sb()), i_ino: Ok(ino), upper_dentry: Err(-2) };
    File { f_inode: Ok(inode()), f_dentry: Ok(Dentry { d_sb: Ok(sb()), d_inode: Ok(inode()) }) }
}

fn filename(path: &str, file: File) -> Filename {
    Filename { name: Ok(path.as_bytes().to_vec()), file }
}

fn args(flags: u32, res: i64) -> RenameatArgs {
    RenameatArgs {
        olddirfd: 3,
        oldpath: filename("/a", file((8 << 20) | 1, 10)),
        newdirfd: 3,
        newpath: filename("/b", file((8 << 20) | 1, 11)),
        flags,
        res,
    }
}

fn new_state(enabled: bool, capacity: usize) -> SharedState {
    SharedState {
        op_info: OpInfoStore::new(8),
        renameat_syscall_enabled: enabled,
        auxbuf: AuxiliaryBuffer::new(capacity),
    }
}

fn record(state: &SharedState) -> Vec<u8> {
    state.auxbuf.as_ref().unwrap().as_bytes()
}

fn phase(state: &SharedState) -> Phase {
    state.auxbuf.as_ref().unwrap().phase()
}

/// The first six parameters of the rename of `/a` to `/b` above.
fn six_params(flags: u32, res: i64) -> Vec<u8> {
    let mut bytes = Vec::new();
    // olddirfd
    bytes.extend_from_slice(&[8, 0, 3, 0, 0, 0, 0, 0, 0, 0]);
    // oldpath, device 0x0801, inode 10, no overlay
    bytes.extend_from_slice(&[16, 0, b'/', b'a']);
    bytes.extend_from_slice(&[0x01, 0x08, 0, 0, 10, 0, 0, 0, 0, 0, 0, 0, 0, 0]);
    // newdirfd
    bytes.extend_from_slice(&[8, 0, 3, 0, 0, 0, 0, 0, 0, 0]);
    // newpath, device 0x0801, inode 11, no overlay
    bytes.extend_from_slice(&[16, 0, b'/', b'b']);
    bytes.extend_from_slice(&[0x01, 0x08, 0, 0, 11, 0, 0, 0, 0, 0, 0, 0, 0, 0]);
    // flags
    bytes.extend_from_slice(&[4, 0]);
    bytes.extend_from_slice(&flags.to_le_bytes());
    // res
    bytes.extend_from_slice(&[8, 0]);
    bytes.extend_from_slice(&res.to_le_bytes());
    bytes
}

fn event(len: u32, params: &[u8]) -> Vec<u8> {
    let mut bytes = vec![1, 0];
    bytes.extend_from_slice(&len.to_le_bytes());
    bytes.extend_from_slice(params);
    bytes
}

#[test]
fn asynchronous_rename_scenario() {
    let mut state = new_state(false, 4096);

    // The asynchronous entry marks the thread.
    assert_eq!(io_renameat_e(&mut state, T), 0);
    assert_eq!(state.op_info.get(T), Some(&OpInfo::Renameat(RenameatData {})));

    // The kernel's rename function returns: six parameters, nothing handed over.
    let (status, submitted) = do_renameat2_x(&mut state, T, &args(0, 0));
    assert_eq!(status, 0);
    assert_eq!(submitted, None);
    assert_eq!(record(&state), event(0, &six_params(0, 0)));
    assert_eq!(phase(&state), Phase::Open(T));
    assert_eq!(state.op_info.get(T), Some(&OpInfo::Renameat(RenameatData {})));

    // The asynchronous exit adds the seventh, finishes and hands over.
    let (status, submitted) = io_renameat_x(&mut state, T, 0);
    assert_eq!(status, 0);
    let mut params = six_params(0, 0);
    params.extend_from_slice(&[8, 0, 0, 0, 0, 0, 0, 0, 0, 0]);
    assert_eq!(params.len(), 82);
    assert_eq!(submitted, Some(event(88, &params)));
    assert_eq!(record(&state), event(88, &params));
    assert_eq!(phase(&state), Phase::Idle);
    assert_eq!(state.op_info.get(T), None);

    // Nothing is left to hand over a second time.
    assert_eq!(io_renameat_x(&mut state, T, 0), (1, None));
    assert_eq!(record(&state), event(88, &params));
}

#[test]
fn plain_rename_with_syscalls_disabled_scenario() {
    let mut state = new_state(false, 4096);
    let (status, submitted) = do_renameat2_x(&mut state, T, &args(0, 0));
    assert_eq!(status, 0);
    assert_eq!(submitted, None);
    // The scratch buffer was never touched.
    assert_eq!(record(&state), vec![0, 0, 0, 0, 0, 0]);
    assert_eq!(state.op_info.get(T), None);
}

#[test]
fn plain_rename_with_syscalls_disabled_needs_no_buffer() {
    let mut state = new_state(false, 0);
    assert!(state.auxbuf.is_none());
    assert_eq!(try_do_renameat2_x(&mut state, T, &args(0, 0)), Ok(None));
    assert!(state.auxbuf.is_none());
}

#[test]
fn plain_rename_gives_one_event_with_an_empty_seventh_parameter() {
    let mut state = new_state(true, 4096);
    let (status, submitted) = do_renameat2_x(&mut state, T, &args(0, 0));
    assert_eq!(status, 0);
    let mut params = six_params(0, 0);
    params.extend_from_slice(&[0, 0]);
    assert_eq!(submitted, Some(event(80, &params)));
    assert_eq!(record(&state), event(80, &params));
    assert_eq!(state.op_info.get(T), None);
}

#[test]
fn rename_with_flags_gives_one_event() {
    let mut state = new_state(true, 4096);
    // RENAME_EXCHANGE, failed with -EINVAL.
    let result = try_do_renameat2_x(&mut state, T, &args(2, -22));
    let mut params = six_params(2, -22);
    params.extend_from_slice(&[0, 0]);
    assert_eq!(result, Ok(Some(event(80, &params))));
}

#[test]
fn asynchronous_rename_is_written_even_with_syscalls_disabled() {
    let mut state = new_state(false, 4096);
    assert_eq!(try_io_renameat_e(&mut state, T), Ok(0));
    assert_eq!(try_do_renameat2_x(&mut state, T, &args(1, 0)), Ok(None));
    assert_eq!(record(&state), event(0, &six_params(1, 0)));
}

#[test]
fn another_threads_mark_does_not_admit_this_thread() {
    let mut state = new_state(false, 4096);
    assert_eq!(try_io_renameat_e(&mut state, T + 1), Ok(0));
    assert_eq!(try_do_renameat2_x(&mut state, T, &args(0, 0)), Ok(None));
    assert_eq!(record(&state), vec![0, 0, 0, 0, 0, 0]);
}

#[test]
fn asynchronous_result_differs_from_the_rename_result() {
    let mut state = new_state(true, 4096);
    assert_eq!(try_io_renameat_e(&mut state, T), Ok(0));
    assert_eq!(try_do_renameat2_x(&mut state, T, &args(0, -2)), Ok(None));
    let submitted = try_io_renameat_x(&mut state, T, -5).unwrap();
    let mut params = six_params(0, -2);
    params.extend_from_slice(&[8, 0]);
    params.extend_from_slice(&(-5i64).to_le_bytes());
    assert_eq!(submitted, event(88, &params));
    // Sixth parameter: -2. Seventh parameter: -5.
    assert_eq!(&submitted[70..78], &(-2i64).to_le_bytes());
    assert_eq!(&submitted[80..88], &(-5i64).to_le_bytes());
}

#[test]
fn asynchronous_exit_clears_the_thread_even_when_it_fails() {
    let mut state = new_state(true, 0);
    assert_eq!(try_io_renameat_e(&mut state, T), Ok(0));
    assert_eq!(try_io_renameat_x(&mut state, T, 0), Err(ProbeError::ResourceExhausted));
    assert_eq!(state.op_info.get(T), None);
    assert_eq!(io_renameat_x(&mut state, T, 0), (1, None));
}

#[test]
fn asynchronous_exit_on_a_blank_buffer_hands_nothing_over() {
    let mut state = new_state(true, 4096);
    assert_eq!(try_io_renameat_e(&mut state, T + 1), Ok(0));
    // No probe has left a record open for this thread.
    assert_eq!(try_io_renameat_x(&mut state, T, 9), Err(ProbeError::RecordNotOpen));
    assert_eq!(record(&state), vec![0, 0, 0, 0, 0, 0]);
    assert_eq!(phase(&state), Phase::Idle);
    // A thread without a mark is no error of the store.
    assert_eq!(state.op_info.get(T), None);
    assert_eq!(state.op_info.get(T + 1), Some(&OpInfo::Renameat(RenameatData {})));
}

#[test]
fn asynchronous_exit_in_a_full_buffer_abandons_the_record() {
    // Room for the six parameters, not for the seventh.
    let mut state = new_state(false, 6 + 72 + 9);
    assert_eq!(try_io_renameat_e(&mut state, T), Ok(0));
    assert_eq!(try_do_renameat2_x(&mut state, T, &args(0, 0)), Ok(None));
    assert_eq!(phase(&state), Phase::Open(T));
    assert_eq!(try_io_renameat_x(&mut state, T, 0), Err(ProbeError::EncodingOverflow));
    assert_eq!(record(&state), event(0, &six_params(0, 0)));
    assert_eq!(phase(&state), Phase::Idle);
    assert_eq!(state.op_info.get(T), None);
    assert_eq!(try_io_renameat_x(&mut state, T, 0), Err(ProbeError::RecordNotOpen));
}

#[test]
fn asynchronous_exit_after_a_failed_rename_hands_nothing_over() {
    let mut state = new_state(false, 4096);
    assert_eq!(try_io_renameat_e(&mut state, T), Ok(0));
    let mut args = args(0, 0);
    args.newpath.file.f_inode = Err(-14);
    assert_eq!(
        try_do_renameat2_x(&mut state, T, &args),
        Err(ProbeError::KernelStructureMissing(-14))
    );
    let abandoned = record(&state);
    assert_eq!(abandoned, event(0, &six_params(0, 0)[..38]));
    assert_eq!(phase(&state), Phase::Idle);
    assert_eq!(try_io_renameat_x(&mut state, T, 0), Err(ProbeError::RecordNotOpen));
    assert_eq!(io_renameat_x(&mut state, T, 0), (1, None));
    assert_eq!(record(&state), abandoned);
    assert_eq!(state.op_info.get(T), None);
}

#[test]
fn asynchronous_exit_after_a_rename_that_did_not_fit_hands_nothing_over() {
    let mut state = new_state(false, 6 + 71);
    assert_eq!(try_io_renameat_e(&mut state, T), Ok(0));
    assert_eq!(try_do_renameat2_x(&mut state, T, &args(0, 0)), Err(ProbeError::EncodingOverflow));
    let abandoned = record(&state);
    assert_eq!(abandoned, event(0, &six_params(0, 0)[..62]));
    assert_eq!(try_io_renameat_x(&mut state, T, 0), Err(ProbeError::RecordNotOpen));
    assert_eq!(record(&state), abandoned);
}

#[test]
fn rename_whose_entry_found_no_room_gives_one_event() {
    let mut state = SharedState {
        op_info: OpInfoStore::new(0),
        renameat_syscall_enabled: true,
        auxbuf: AuxiliaryBuffer::new(4096),
    };
    assert_eq!(io_renameat_e(&mut state, T), 1);
    let (status, submitted) = do_renameat2_x(&mut state, T, &args(0, 0));
    assert_eq!(status, 0);
    let mut params = six_params(0, 0);
    params.extend_from_slice(&[0, 0]);
    assert_eq!(submitted, Some(event(80, &params)));
    // The asynchronous exit has nothing to add to the finished event.
    assert_eq!(io_renameat_x(&mut state, T, 0), (1, None));
    assert_eq!(try_io_renameat_x(&mut state, T, 0), Err(ProbeError::RecordNotOpen));
    assert_eq!(record(&state), event(80, &params));
}

#[test]
fn rename_whose_entry_found_no_room_and_is_not_wanted_gives_no_event() {
    let mut state = SharedState {
        op_info: OpInfoStore::new(0),
        renameat_syscall_enabled: false,
        auxbuf: AuxiliaryBuffer::new(4096),
    };
    assert_eq!(io_renameat_e(&mut state, T), 1);
    assert_eq!(do_renameat2_x(&mut state, T, &args(0, 0)), (0, None));
    assert_eq!(io_renameat_x(&mut state, T, 0), (1, None));
    assert_eq!(record(&state), vec![0, 0, 0, 0, 0, 0]);
}

#[test]
fn record_of_another_thread_is_not_completed() {
    let mut state = new_state(false, 4096);
    assert_eq!(try_io_renameat_e(&mut state, T), Ok(0));
    assert_eq!(try_do_renameat2_x(&mut state, T, &args(0, -1)), Ok(None));
    // Another thread finds the record of the first and leaves it alone.
    assert_eq!(try_io_renameat_e(&mut state, T + 1), Ok(0));
    assert_eq!(try_io_renameat_x(&mut state, T + 1, 5), Err(ProbeError::RecordNotOpen));
    assert_eq!(phase(&state), Phase::Open(T));
    assert_eq!(record(&state), event(0, &six_params(0, -1)));
    // The first thread still completes it.
    let submitted = try_io_renameat_x(&mut state, T, 7).unwrap();
    assert_eq!(submitted.len(), 88);
    assert_eq!(&submitted[80..88], &7i64.to_le_bytes());
}

#[test]
fn record_that_another_rename_overwrote_is_not_completed() {
    let mut state = new_state(true, 4096);
    assert_eq!(try_io_renameat_e(&mut state, T), Ok(0));
    assert_eq!(try_do_renameat2_x(&mut state, T, &args(0, 0)), Ok(None));
    // A plain rename of another thread uses the buffer in between.
    let other = try_do_renameat2_x(&mut state, T + 1, &args(4, 0)).unwrap().unwrap();
    assert_eq!(other.len(), 80);
    assert_eq!(try_io_renameat_x(&mut state, T, 0), Err(ProbeError::RecordNotOpen));
    assert_eq!(record(&state), other);
    assert_eq!(state.op_info.get(T), None);
}

#[test]
fn admission_of_a_rename() {
    let mut state = new_state(false, 4096);
    assert!(!is_admitted(&state, T));
    assert_eq!(try_io_renameat_e(&mut state, T), Ok(0));
    assert!(is_admitted(&state, T));
    assert!(!is_admitted(&state, T + 1));
    state.renameat_syscall_enabled = true;
    assert!(is_admitted(&state, T + 1));
}

#[test]
fn entry_fails_when_the_store_is_full() {
    let mut state = SharedState {
        op_info: OpInfoStore::new(1),
        renameat_syscall_enabled: false,
        auxbuf: AuxiliaryBuffer::new(4096),
    };
    assert_eq!(io_renameat_e(&mut state, T), 0);
    assert_eq!(try_io_renameat_e(&mut state, T + 1), Err(ProbeError::ResourceExhausted));
    assert_eq!(io_renameat_e(&mut state, T + 1), 1);
    assert_eq!(state.op_info.get(T + 1), None);
    // A second entry of the same thread overwrites.
    assert_eq!(io_renameat_e(&mut state, T), 0);
}

#[test]
fn rename_without_a_buffer_fails() {
    let mut state = new_state(true, 0);
    assert_eq!(try_do_renameat2_x(&mut state, T, &args(0, 0)), Err(ProbeError::ResourceExhausted));
    assert_eq!(do_renameat2_x(&mut state, T, &args(0, 0)), (1, None));
}

#[test]
fn rename_of_a_file_without_identity_fails_and_abandons_the_record() {
    let mut state = new_state(true, 4096);
    let mut args = args(0, 0);
    args.newpath.file.f_inode = Err(-14);
    assert_eq!(
        try_do_renameat2_x(&mut state, T, &args),
        Err(ProbeError::KernelStructureMissing(-14))
    );
    // Three parameters were written before the failure; the length is not set.
    assert_eq!(record(&state), event(0, &six_params(0, 0)[..38]));
    assert_eq!(phase(&state), Phase::Idle);
    assert_eq!(do_renameat2_x(&mut state, T, &args), (1, None));
}

#[test]
fn rename_that_does_not_fit_fails() {
    // One byte short of the whole event.
    let mut state = new_state(true, 79);
    assert_eq!(try_do_renameat2_x(&mut state, T, &args(0, 0)), Err(ProbeError::EncodingOverflow));
    assert_eq!(record(&state), event(0, &six_params(0, 0)));
    // Nothing at all fits behind a bare header.
    let mut state = new_state(true, 6);
    assert_eq!(try_do_renameat2_x(&mut state, T, &args(0, 0)), Err(ProbeError::EncodingOverflow));
    assert_eq!(record(&state), vec![1, 0, 0, 0, 0, 0]);
}

#[test]
fn rename_that_fits_exactly() {
    let mut state = new_state(true, 80);
    let result = try_do_renameat2_x(&mut state, T, &args(0, 0));
    assert_eq!(result.map(|event| event.map(|bytes| bytes.len())), Ok(Some(80)));
}

#[test]
fn directory_descriptors_are_encoded_and_sign_extended() {
    let mut state = new_state(true, 4096);
    let mut args = args(0, 0);
    args.olddirfd = -100;
    args.newdirfd = -1;
    let submitted = try_do_renameat2_x(&mut state, T, &args).unwrap().unwrap();
    assert_eq!(&submitted[8..16], &(-100i64).to_le_bytes());
    assert_eq!(&submitted[36..44], &(-1i64).to_le_bytes());
}

#[test]
fn rename_with_an_unreadable_path_fails() {
    let mut state = new_state(true, 4096);
    let mut args = args(0, 0);
    args.oldpath.name = Err(-14);
    assert_eq!(
        try_do_renameat2_x(&mut state, T, &args),
        Err(ProbeError::KernelStructureMissing(-14))
    );
    assert_eq!(record(&state), event(0, &six_params(0, 0)[..10]));
    assert_eq!(phase(&state), Phase::Idle);
}

#[test]
fn filename_with_identity_on_an_overlay() {
    let mut buffer = AuxiliaryBuffer::new(64).unwrap();
    buffer.preload_event_header(EventType::Renameat);
    let name = filename("x", lower_file(0x12310345, 0x0102_0304_0506_0708));
    // The kernel's device number 0x12310345 is major 0x123, minor 0x10345.
    assert_eq!(store_filename_param(&mut buffer, &name, true), Ok(()));
    let expected: Vec<u8> = vec![
        1, 0, 0, 0, 0, 0, // header
        15, 0, b'x', // length, path
        0x45, 0x23, 0x31, 0x10, // device: 0x45 | 0x123 << 8 | 0x103 << 20
        8, 7, 6, 5, 4, 3, 2, 1, // inode
        2, 0, // lower layer
    ];
    assert_eq!(buffer.as_bytes(), expected);
    assert_eq!(buffer.phase(), Phase::Writing);
}

#[test]
fn filename_without_identity_is_the_path_alone() {
    let mut buffer = AuxiliaryBuffer::new(64).unwrap();
    buffer.preload_event_header(EventType::Renameat);
    let name = Filename {
        name: Ok(b"/tmp/f".to_vec()),
        file: File { f_inode: Err(-1), f_dentry: Err(-1) },
    };
    assert_eq!(store_filename_param(&mut buffer, &name, false), Ok(()));
    let written = vec![1, 0, 0, 0, 0, 0, 6, 0, b'/', b't', b'm', b'p', b'/', b'f'];
    assert_eq!(buffer.as_bytes(), written);
    // With the identity asked for, the same name fails and abandons the record.
    assert_eq!(
        store_filename_param(&mut buffer, &name, true),
        Err(ProbeError::KernelStructureMissing(-1))
    );
    assert_eq!(buffer.as_bytes(), written);
    assert_eq!(buffer.phase(), Phase::Idle);
    assert_eq!(store_filename_param(&mut buffer, &name, false), Err(ProbeError::RecordNotOpen));
}

#[test]
fn filename_whose_path_cannot_be_read() {
    let mut buffer = AuxiliaryBuffer::new(64).unwrap();
    buffer.preload_event_header(EventType::Renameat);
    let name = Filename { name: Err(-14), file: file(1, 1) };
    assert_eq!(
        store_filename_param(&mut buffer, &name, false),
        Err(ProbeError::KernelStructureMissing(-14))
    );
    assert_eq!(buffer.as_bytes(), vec![1, 0, 0, 0, 0, 0]);
    assert_eq!(buffer.phase(), Phase::Idle);
}

#[test]
fn filename_that_does_not_fit() {
    let mut buffer = AuxiliaryBuffer::new(6 + 2 + 2 + 13).unwrap();
    let name = filename("/a", file(1, 1));
    buffer.preload_event_header(EventType::Renameat);
    assert_eq!(store_filename_param(&mut buffer, &name, true), Err(ProbeError::EncodingOverflow));
    assert_eq!(buffer.as_bytes(), vec![1, 0, 0, 0, 0, 0]);
    assert_eq!(buffer.phase(), Phase::Idle);
    buffer.preload_event_header(EventType::Renameat);
    assert_eq!(store_filename_param(&mut buffer, &name, false), Ok(()));
}

#[test]
fn filename_is_not_stored_where_no_record_was_started() {
    let mut buffer = AuxiliaryBuffer::new(64).unwrap();
    let name = filename("/a", file(1, 1));
    assert_eq!(store_filename_param(&mut buffer, &name, true), Err(ProbeError::RecordNotOpen));
    assert_eq!(buffer.as_bytes(), vec![0, 0, 0, 0, 0, 0]);
}
