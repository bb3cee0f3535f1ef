//! Call and connection identifiers, and their boundary encodings.
//!
//! Identifiers cross the boundary as fixed-width integers: the 64-bit call
//! id as a signed 64-bit value, the 32-bit device id as a signed 32-bit
//! value. Both encodings reinterpret the bits, lose no information, and are
//! proved invertible here.

use vstd::prelude::*;

verus! {

/// A remote participant's device number within a call.
pub type DeviceId = u32;

/// A 64-bit opaque call identifier, assigned by the native engine and
/// immutable once created.
#[derive(Clone, Copy, Debug, PartialEq, Eq, Structural, Hash)]
pub struct CallId {
    pub id: u64,
}

impl CallId {
    pub fn new(id: u64) -> (r: CallId)
        ensures
            r.id == id,
    {
        CallId { id }
    }

    pub fn as_u64(&self) -> (r: u64)
        ensures
            r == self.id,
    {
        self.id
    }
}

/// Identifies one native connection: the pair of the call it belongs to and
/// the remote device it reaches. Immutable; both components are recoverable.
#[derive(Clone, Copy, Debug, PartialEq, Eq, Structural, Hash)]
pub struct ConnectionId {
    call_id: CallId,
    remote_device: DeviceId,
}

impl ConnectionId {
    pub fn new(call_id: CallId, remote_device: DeviceId) -> (r: ConnectionId)
        ensures
            r.spec_call_id() == call_id,
            r.spec_remote_device() == remote_device,
    {
        ConnectionId { call_id, remote_device }
    }

    pub closed spec fn spec_call_id(self) -> CallId {
        self.call_id
    }

    pub closed spec fn spec_remote_device(self) -> DeviceId {
        self.remote_device
    }

    pub fn call_id(&self) -> (r: CallId)
        ensures
            r == self.spec_call_id(),
    {
        self.call_id
    }

    pub fn remote_device(&self) -> (r: DeviceId)
        ensures
            r == self.spec_remote_device(),
    {
        self.remote_device
    }
}

/// The boundary encoding of a call id: the same 64 bits read as a signed
/// value.
pub open spec fn jlong_of_call_id(c: CallId) -> i64 {
    c.id as i64
}

/// The boundary encoding of a device id: the same 32 bits read as a signed
/// value.
pub open spec fn jint_of_device_id(d: DeviceId) -> i32 {
    d as i32
}

/// Encode a call id for the boundary.
pub fn call_id_to_jlong(call_id: CallId) -> (r: i64)
    ensures
        r == jlong_of_call_id(call_id),
{
    #[verifier::truncate]
    (call_id.id as i64)
}

/// Decode a boundary call id back into a call id.
pub fn call_id_from_jlong(v: i64) -> (r: CallId)
    ensures
        r.id == v as u64,
{
    let id: u64 = #[verifier::truncate]
    (v as u64);
    CallId { id }
}

/// Encode a device id for the boundary.
pub fn device_id_to_jint(device_id: DeviceId) -> (r: i32)
    ensures
        r == jint_of_device_id(device_id),
{
    #[verifier::truncate]
    (device_id as i32)
}

/// Decode a boundary device id back into a device id.
pub fn device_id_from_jint(v: i32) -> (r: DeviceId)
    ensures
        r == v as u32,
{
    #[verifier::truncate]
    (v as u32)
}

/// Encode a raw native handle (a native object's address-sized token) for
/// the boundary: the same 64 bits read as a signed value.
pub fn raw_handle_to_jlong(handle: u64) -> (r: i64)
    ensures
        r == handle as i64,
{
    #[verifier::truncate]
    (handle as i64)
}

/// The call-id encoding loses nothing: decoding returns the original bits.
pub proof fn lemma_call_id_encoding_invertible(c: CallId)
    ensures
        jlong_of_call_id(c) as u64 == c.id,
{
    let x: u64 = c.id;
    assert((x as i64) as u64 == x) by (bit_vector);
}

/// The device-id encoding loses nothing: decoding returns the original bits.
pub proof fn lemma_device_id_encoding_invertible(d: DeviceId)
    ensures
        jint_of_device_id(d) as u32 == d,
{
    let x: u32 = d;
    assert((x as i32) as u32 == x) by (bit_vector);
}

/// Distinct call ids keep distinct boundary encodings.
pub proof fn lemma_call_id_encoding_injective(a: CallId, b: CallId)
    requires
        jlong_of_call_id(a) == jlong_of_call_id(b),
    ensures
        a.id == b.id,
{
    lemma_call_id_encoding_invertible(a);
    lemma_call_id_encoding_invertible(b);
}

} // verus!
