//! The scratch buffer in which one event is assembled before it is handed
//! over, and the writer that fills it.
//!
//! A buffer holds one record: a header and the parameters written behind
//! it. [`AuxiliaryBuffer::preload_event_header`] starts a record, the
//! `store_*` methods append one parameter each, and
//! [`AuxiliaryBuffer::finalize_event_header`] sets the length field and so
//! ends the record. A record ends in one of two ways only: it is finalized,
//! or it is abandoned, by a parameter that cannot be stored or by
//! [`AuxiliaryBuffer::abandon`]. An abandoned record is never finalized.
//!
//! A probe that cannot end its record, because a later probe of the same
//! thread has the last parameter, leaves it open for that thread with
//! [`AuxiliaryBuffer::leave_open`]. The later probe takes it up with
//! [`AuxiliaryBuffer::continue_event`], which succeeds only on the record
//! that was left open for it.

use crate::error::ProbeError;
use crate::event::{
    event_bytes, header_bytes, i64_payload, le16, lemma_params_bytes_len, lemma_params_bytes_push,
    open_record, params_bytes, put_i64, put_le16, put_le32, u32_payload, EventType, HEADER_SIZE,
    MAX_PARAM_SIZE, PARAM_LEN_SIZE,
};
use vstd::prelude::*;

verus! {

/// Largest scratch region that the length field of a header can describe.
pub const MAX_CAPACITY: usize = 0xffff_ffff;

/// How far the record in a scratch region has come.
#[derive(Clone, Copy, Debug, PartialEq, Eq, Structural)]
pub enum Phase {
    /// No record is in progress: the region is blank, or its record was
    /// finalized or abandoned.
    Idle,
    /// A probe has started a record and is writing its parameters.
    Writing,
    /// A probe has left the record open for a later probe of the thread with
    /// this identifier.
    Open(u32),
}

/// What a scratch region holds, and how much it can hold.
pub ghost struct Record {
    /// The event type in the header.
    pub event_type: u16,
    /// The length field in the header.
    pub len: u32,
    /// The payloads of the parameters behind the header, in their order.
    pub params: Seq<Seq<u8>>,
    /// How far the record has come.
    pub phase: Phase,
    /// Size of the scratch region in bytes.
    pub capacity: nat,
}

impl Record {
    /// The bytes of the record: the header, then the parameters.
    pub open spec fn bytes(self) -> Seq<u8> {
        header_bytes(self.event_type, self.len) + params_bytes(self.params)
    }

    /// Number of bytes of the record.
    pub open spec fn size(self) -> nat {
        HEADER_SIZE as nat + params_bytes(self.params).len()
    }

    /// The record is no longer than the region, and the length field of a
    /// record in progress is still zero.
    pub open spec fn wf(self) -> bool {
        &&& self.size() <= self.capacity <= MAX_CAPACITY
        &&& !(self.phase is Idle) ==> self.len == 0
    }

    /// A parameter of `payload_len` bytes can be appended: its length can be
    /// written in front of it, and the region has room for both.
    pub open spec fn can_store(self, payload_len: nat) -> bool {
        &&& payload_len <= MAX_PARAM_SIZE
        &&& self.size() + PARAM_LEN_SIZE + payload_len <= self.capacity
    }

    /// The record is the one that was left open for thread `pid`, with the
    /// type `event_type` and `nparams` parameters.
    pub open spec fn is_open_for(self, pid: u32, event_type: EventType, nparams: nat) -> bool {
        &&& self.phase == Phase::Open(pid)
        &&& self.event_type == event_type.code()
        &&& self.params.len() == nparams
    }

    /// The region after a record of type `event_type` was started in it.
    pub open spec fn preload(self, event_type: EventType) -> Record {
        Record {
            event_type: event_type.code(),
            len: 0,
            params: Seq::empty(),
            phase: Phase::Writing,
            capacity: self.capacity,
        }
    }

    /// The region after a parameter with the payload `payload` was appended.
    pub open spec fn store(self, payload: Seq<u8>) -> Record {
        Record { params: self.params.push(payload), ..self }
    }

    /// The region after its record was abandoned: the bytes stay, and no
    /// probe may go on with them.
    pub open spec fn abandon(self) -> Record {
        Record { phase: Phase::Idle, ..self }
    }

    /// The region after the record that was being written was left open for
    /// thread `pid`. Where no record was being written nothing changes.
    pub open spec fn leave_open(self, pid: u32) -> Record {
        if self.phase is Writing {
            Record { phase: Phase::Open(pid), ..self }
        } else {
            self
        }
    }

    /// The region after the record that was left open was taken up again.
    pub open spec fn resume(self) -> Record {
        Record { phase: Phase::Writing, ..self }
    }

    /// The region after the record that was being written was finalized: the
    /// length field holds the length of the record, and the record is no
    /// longer in progress. Where no record was being written nothing changes.
    pub open spec fn finalize(self) -> Record {
        if self.phase is Writing {
            Record { len: self.size() as u32, phase: Phase::Idle, ..self }
        } else {
            self
        }
    }
}

/// A record that parameters are being written to, and the error, if there
/// was one, at which the writing stopped.
pub ghost struct Attempt {
    /// The region as the writing left it.
    pub record: Record,
    /// The error that stopped the writing.
    pub error: Option<ProbeError>,
}

impl Attempt {
    /// Writing to `record` begins.
    pub open spec fn start(record: Record) -> Attempt {
        Attempt { record, error: None }
    }

    /// The next parameter is written, unless the writing has stopped. Where
    /// no record is being written, the writing stops and the region stays as
    /// it is. A parameter that could not be worked out stops the writing
    /// with its error, and one that the region cannot hold stops it with an
    /// overflow; either abandons the record and leaves no byte in it.
    pub open spec fn store(self, param: Result<Seq<u8>, ProbeError>) -> Attempt {
        if self.error is Some {
            self
        } else if !(self.record.phase is Writing) {
            Attempt { record: self.record, error: Some(ProbeError::RecordNotOpen) }
        } else {
            match param {
                Err(error) => Attempt { record: self.record.abandon(), error: Some(error) },
                Ok(payload) => if self.record.can_store(payload.len()) {
                    Attempt { record: self.record.store(payload), error: None }
                } else {
                    Attempt {
                        record: self.record.abandon(),
                        error: Some(ProbeError::EncodingOverflow),
                    }
                },
            }
        }
    }
}

/// What a call of the writer returned, as the error that stopped it.
pub open spec fn stopped_by(r: Result<(), ProbeError>) -> Option<ProbeError> {
    match r {
        Ok(_) => None,
        Err(error) => Some(error),
    }
}

/// The region can hold an event with the parameters `params`: the length of
/// each can be written in front of it, and the region has room for the whole
/// event.
pub open spec fn fits(capacity: nat, params: Seq<Seq<u8>>) -> bool {
    &&& forall|i: int| 0 <= i < params.len() ==> (#[trigger] params[i]).len() <= MAX_PARAM_SIZE
    &&& HEADER_SIZE + params_bytes(params).len() <= capacity
}

/// A region that can hold an event can hold the event without its last
/// parameter, and then has room for the last.
pub proof fn lemma_fits_without_last(capacity: nat, params: Seq<Seq<u8>>, payload: Seq<u8>)
    requires
        fits(capacity, params.push(payload)),
    ensures
        fits(capacity, params),
        payload.len() <= MAX_PARAM_SIZE,
        HEADER_SIZE + params_bytes(params).len() + PARAM_LEN_SIZE + payload.len() <= capacity,
{
    lemma_params_bytes_push(params, payload);
    let all = params.push(payload);
    assert(all[params.len() as int] == payload);
    assert forall|i: int| 0 <= i < params.len() implies (#[trigger] params[i]).len()
        <= MAX_PARAM_SIZE by {
        assert(all[i] == params[i]);
    }
}

/// The bytes of a record in progress are a header with the length zero and
/// the parameters; the bytes of a record that was finalized from there are
/// the finished event with the same type and parameters.
pub proof fn lemma_record_bytes(record: Record)
    requires
        record.wf(),
        record.phase is Writing,
    ensures
        record.bytes() == open_record(record.event_type, record.params),
        record.finalize().bytes() == event_bytes(record.event_type, record.params),
        record.finalize().wf(),
{
}

/// A scratch region of fixed size that holds one record.
pub struct AuxiliaryBuffer {
    event_type: u16,
    event_len: u32,
    params: Vec<u8>,
    nparams: usize,
    payloads: Ghost<Seq<Seq<u8>>>,
    phase: Phase,
    capacity: usize,
}

impl View for AuxiliaryBuffer {
    type V = Record;

    closed spec fn view(&self) -> Record {
        Record {
            event_type: self.event_type,
            len: self.event_len,
            params: self.payloads@,
            phase: self.phase,
            capacity: self.capacity as nat,
        }
    }
}

impl AuxiliaryBuffer {
    /// Every scratch region keeps within its bounds, and holds the bytes of
    /// the parameters that its record is made of.
    #[verifier::type_invariant]
    pub open spec fn inv(self) -> bool {
        self@.wf() && self.coherent()
    }

    /// The region holds the bytes and the number of the parameters of its
    /// record.
    pub closed spec fn coherent(self) -> bool {
        &&& self.params@ == params_bytes(self.payloads@)
        &&& self.nparams == self.payloads@.len()
    }

    /// Makes a scratch region of `capacity` bytes that holds a blank header
    /// and no parameter, with no record in progress. There is none that
    /// cannot hold a header, and none larger than a header's length field
    /// can describe.
    pub fn new(capacity: usize) -> (buffer: Option<Self>)
        ensures
            buffer is Some <==> HEADER_SIZE <= capacity <= MAX_CAPACITY,
            buffer is Some ==> buffer->Some_0@ == (Record {
                event_type: 0,
                len: 0,
                params: Seq::empty(),
                phase: Phase::Idle,
                capacity: capacity as nat,
            }),
    {
        if capacity < HEADER_SIZE || capacity > MAX_CAPACITY {
            return None;
        }
        Some(
            AuxiliaryBuffer {
                event_type: 0,
                event_len: 0,
                params: Vec::new(),
                nparams: 0,
                payloads: Ghost(Seq::empty()),
                phase: Phase::Idle,
                capacity,
            },
        )
    }

    /// Tells how far the record has come.
    pub fn phase(&self) -> (phase: Phase)
        ensures
            phase == self@.phase,
    {
        self.phase
    }

    /// Starts a record of type `event_type`: what the region held is dropped,
    /// whatever it was, and the region holds a header with that type and the
    /// length zero, ready for the parameters.
    pub fn preload_event_header(&mut self, event_type: EventType)
        ensures
            final(self)@ == old(self)@.preload(event_type),
            final(self)@.wf(),
    {
        proof {
            use_type_invariant(&*self);
        }
        *self = AuxiliaryBuffer {
            event_type: event_type.to_u16(),
            event_len: 0,
            params: Vec::new(),
            nparams: 0,
            payloads: Ghost(Seq::empty()),
            phase: Phase::Writing,
            capacity: self.capacity,
        };
    }

    /// Appends one parameter with the payload `payload` to the record that is
    /// being written. Where no record is being written the call fails and
    /// changes nothing. Where the region cannot hold the parameter the call
    /// fails and abandons the record, with no byte added to it.
    pub fn store_bytes_param(&mut self, payload: &[u8]) -> (r: Result<(), ProbeError>)
        ensures
            (Attempt { record: final(self)@, error: stopped_by(r) }) == Attempt::start(
                old(self)@,
            ).store(Ok(payload@)),
            r is Ok <==> old(self)@.phase is Writing && old(self)@.can_store(payload@.len()),
            final(self)@.wf(),
    {
        proof {
            use_type_invariant(&*self);
            lemma_params_bytes_len(self.payloads@);
            lemma_params_bytes_push(self.payloads@, payload@);
        }
        match self.phase {
            Phase::Writing => {},
            _ => {
                return Err(ProbeError::RecordNotOpen);
            },
        }
        let len: usize = payload.len();
        if len > MAX_PARAM_SIZE || len > self.capacity - HEADER_SIZE - self.params.len()
            || PARAM_LEN_SIZE > self.capacity - HEADER_SIZE - self.params.len() - len {
            self.phase = Phase::Idle;
            return Err(ProbeError::EncodingOverflow);
        }
        // The record is taken out of the region, extended, and put back.
        let mut taken = AuxiliaryBuffer {
            event_type: 0,
            event_len: 0,
            params: Vec::new(),
            nparams: 0,
            payloads: Ghost(Seq::empty()),
            phase: Phase::Idle,
            capacity: self.capacity,
        };
        std::mem::swap(&mut taken, self);
        let AuxiliaryBuffer { event_type, event_len, params, nparams, payloads, phase, capacity } =
            taken;
        let mut params = params;
        put_le16(&mut params, len as u16);
        let mut i: usize = 0;
        while i < len
            invariant
                i <= len,
                len == payload@.len(),
                len <= MAX_PARAM_SIZE,
                params@ == params_bytes(payloads@) + le16(len as u16) + payload@.subrange(
                    0,
                    i as int,
                ),
            decreases len - i,
        {
            params.push(payload[i]);
            i += 1;
        }
        assert(payload@.subrange(0, len as int) =~= payload@);
        assert(params@ =~= params_bytes(payloads@.push(payload@)));
        *self = AuxiliaryBuffer {
            event_type,
            event_len,
            params,
            nparams: nparams + 1,
            payloads: Ghost(payloads@.push(payload@)),
            phase,
            capacity,
        };
        Ok(())
    }

    /// Appends a signed 64-bit parameter, as [`Self::store_bytes_param`]
    /// appends its eight bytes.
    pub fn store_param(&mut self, value: i64) -> (r: Result<(), ProbeError>)
        ensures
            (Attempt { record: final(self)@, error: stopped_by(r) }) == Attempt::start(
                old(self)@,
            ).store(Ok(i64_payload(value))),
            r is Ok <==> old(self)@.phase is Writing && old(self)@.can_store(8),
            final(self)@.wf(),
    {
        let mut payload: Vec<u8> = Vec::new();
        put_i64(&mut payload, value);
        self.store_bytes_param(payload.as_slice())
    }

    /// Appends an unsigned 32-bit parameter, as [`Self::store_bytes_param`]
    /// appends its four bytes.
    pub fn store_u32_param(&mut self, value: u32) -> (r: Result<(), ProbeError>)
        ensures
            (Attempt { record: final(self)@, error: stopped_by(r) }) == Attempt::start(
                old(self)@,
            ).store(Ok(u32_payload(value))),
            r is Ok <==> old(self)@.phase is Writing && old(self)@.can_store(4),
            final(self)@.wf(),
    {
        let mut payload: Vec<u8> = Vec::new();
        put_le32(&mut payload, value);
        self.store_bytes_param(payload.as_slice())
    }

    /// Appends an empty parameter, in place of one that does not apply, as
    /// [`Self::store_bytes_param`] appends no byte.
    pub fn store_empty_param(&mut self) -> (r: Result<(), ProbeError>)
        ensures
            (Attempt { record: final(self)@, error: stopped_by(r) }) == Attempt::start(
                old(self)@,
            ).store(Ok(Seq::empty())),
            r is Ok <==> old(self)@.phase is Writing && old(self)@.can_store(0),
            final(self)@.wf(),
    {
        let payload: Vec<u8> = Vec::new();
        self.store_bytes_param(payload.as_slice())
    }

    /// Abandons the record: its bytes stay where they are, and no probe may
    /// write to them or finalize them.
    pub fn abandon(&mut self)
        ensures
            final(self)@ == old(self)@.abandon(),
            final(self)@.wf(),
    {
        proof {
            use_type_invariant(&*self);
        }
        self.phase = Phase::Idle;
    }

    /// Leaves the record that is being written open for a later probe of
    /// thread `pid`. Where no record is being written nothing changes.
    pub fn leave_open(&mut self, pid: u32)
        ensures
            final(self)@ == old(self)@.leave_open(pid),
            final(self)@.wf(),
    {
        proof {
            use_type_invariant(&*self);
        }
        match self.phase {
            Phase::Writing => {
                self.phase = Phase::Open(pid);
            },
            _ => {},
        }
    }

    /// Takes up the record that an earlier probe left open for thread `pid`,
    /// with the type `event_type` and `nparams` parameters, so that more
    /// parameters can be written to it. Fails, and changes nothing, where the
    /// region holds anything else: a blank header, a record that was
    /// finalized or abandoned, a record of another thread, of another type
    /// or with another number of parameters.
    pub fn continue_event(&mut self, pid: u32, event_type: EventType, nparams: usize) -> (r:
        Result<(), ProbeError>)
        ensures
            r is Ok <==> old(self)@.is_open_for(pid, event_type, nparams as nat),
            r is Ok ==> final(self)@ == old(self)@.resume(),
            r is Err ==> r == Err::<(), ProbeError>(ProbeError::RecordNotOpen) && final(self)@
                == old(self)@,
            final(self)@.wf(),
    {
        proof {
            use_type_invariant(&*self);
        }
        let open = match self.phase {
            Phase::Open(owner) => owner == pid,
            _ => false,
        };
        if !open || self.event_type != event_type.to_u16() || self.nparams != nparams {
            return Err(ProbeError::RecordNotOpen);
        }
        self.phase = Phase::Writing;
        Ok(())
    }

    /// Finalizes the record that is being written: sets the length field of
    /// the header to the length of the record, after which the record is no
    /// longer in progress. Where no record is being written nothing changes,
    /// so that no record is finalized twice and none after it was abandoned.
    pub fn finalize_event_header(&mut self)
        ensures
            final(self)@ == old(self)@.finalize(),
            final(self)@.wf(),
    {
        proof {
            use_type_invariant(&*self);
        }
        match self.phase {
            Phase::Writing => {
                self.phase = Phase::Idle;
                self.event_len = (HEADER_SIZE + self.params.len()) as u32;
            },
            _ => {},
        }
    }

    /// Returns the bytes of the record, whatever phase it is in.
    pub fn as_bytes(&self) -> (bytes: Vec<u8>)
        ensures
            bytes@ == self@.bytes(),
    {
        proof {
            use_type_invariant(self);
        }
        let mut bytes: Vec<u8> = Vec::new();
        put_le16(&mut bytes, self.event_type);
        put_le32(&mut bytes, self.event_len);
        let len: usize = self.params.len();
        let mut i: usize = 0;
        while i < len
            invariant
                i <= len,
                len == self.params@.len(),
                bytes@ == header_bytes(self.event_type, self.event_len) + self.params@.subrange(
                    0,
                    i as int,
                ),
            decreases len - i,
        {
            bytes.push(self.params[i]);
            i += 1;
        }
        assert(self.params@.subrange(0, len as int) =~= self.params@);
        bytes
    }
}

} // verus!
