//! Parameters that take more than one call of the writer.

use crate::auxbuf::{stopped_by, Attempt, AuxiliaryBuffer, Phase};
use crate::error::ProbeError;
use crate::event::{le16, le32, le64, put_le16, put_le32, put_le64};
use crate::files::{dev_ino_overlay, Filename, Overlay};
use vstd::prelude::*;

verus! {

/// A file identity on the wire: the device identifier in four bytes, the
/// inode number in eight, the code of the overlay layer in two.
pub open spec fn identity_bytes(dev: u32, ino: u64, overlay: Overlay) -> Seq<u8> {
    le32(dev) + le64(ino) + le16(overlay.code())
}

/// Payload of a file name parameter: the bytes of the path and, where the
/// identity is asked for, the identity of the file behind them. Where the
/// path cannot be read, or the identity is asked for and cannot be resolved,
/// there is no payload, but the code of the failed read.
pub open spec fn filename_payload(filename: Filename, resolve_identity: bool) -> Result<
    Seq<u8>,
    ProbeError,
> {
    match filename.name {
        Err(code) => Err(ProbeError::KernelStructureMissing(code)),
        Ok(name) => if !resolve_identity {
            Ok(name@)
        } else {
            match filename.file.spec_dev_ino_overlay() {
                Err(code) => Err(ProbeError::KernelStructureMissing(code)),
                Ok((dev, ino, overlay)) => Ok(name@ + identity_bytes(dev, ino, overlay)),
            }
        },
    }
}

/// Appends a file name parameter to the record that is being written. With
/// `resolve_identity` the identity of the named file is resolved and stored
/// behind the path, so that the file can still be told when the path has
/// gone stale.
///
/// Where no record is being written the call fails and changes nothing. A
/// path that could not be read and a file whose identity cannot be resolved
/// fail the call with the code of the failed read, and a parameter that the
/// buffer cannot hold fails it with an overflow; either abandons the record,
/// with no byte added to it.
pub fn store_filename_param(
    writer: &mut AuxiliaryBuffer,
    filename: &Filename,
    resolve_identity: bool,
) -> (r: Result<(), ProbeError>)
    ensures
        (Attempt { record: final(writer)@, error: stopped_by(r) }) == Attempt::start(
            old(writer)@,
        ).store(filename_payload(*filename, resolve_identity)),
        r is Ok <==> old(writer)@.phase is Writing && filename_payload(
            *filename,
            resolve_identity,
        ) is Ok && old(writer)@.can_store(
            filename_payload(*filename, resolve_identity)->Ok_0.len(),
        ),
        final(writer)@.wf(),
{
    proof {
        use_type_invariant(&*writer);
    }
    match writer.phase() {
        Phase::Writing => {},
        _ => {
            return Err(ProbeError::RecordNotOpen);
        },
    }
    let name = match &filename.name {
        Ok(name) => name,
        Err(code) => {
            writer.abandon();
            return Err(ProbeError::KernelStructureMissing(*code));
        },
    };
    let mut payload: Vec<u8> = Vec::new();
    let len: usize = name.len();
    let mut i: usize = 0;
    while i < len
        invariant
            i <= len,
            len == name@.len(),
            payload@ == name@.subrange(0, i as int),
        decreases len - i,
    {
        payload.push(name[i]);
        i += 1;
    }
    assert(name@.subrange(0, len as int) =~= name@);
    if resolve_identity {
        match dev_ino_overlay(&filename.file) {
            Ok((dev, ino, overlay)) => {
                put_le32(&mut payload, dev);
                put_le64(&mut payload, ino);
                put_le16(&mut payload, overlay.to_u16());
                assert(payload@ =~= name@ + identity_bytes(dev, ino, overlay));
            },
            Err(code) => {
                writer.abandon();
                return Err(ProbeError::KernelStructureMissing(code));
            },
        }
    }
    writer.store_bytes_param(payload.as_slice())
}

} // verus!
