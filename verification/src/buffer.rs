//! The handle that owns one captured frame.

use crate::c;
use crate::c::Call;
use vstd::prelude::*;
use vstd::slice::slice_subrange;

verus! {

/// What a [`Buffer`] stands for: a native buffer, by the address of its
/// header, the header itself, and the bytes of its payload allocation.
pub struct BufferView {
    /// The address of the native header.
    pub pointer: usize,
    /// The native header.
    pub header: c::Buffer,
    /// The payload allocation, all `alloc_size` bytes of it.
    pub memory: Seq<u8>,
}

impl BufferView {
    /// A native buffer as the native library hands it out: its header is
    /// not at the null address, its allocation has the size that the header
    /// records, and the bytes in use lie within the allocation.
    pub open spec fn valid(self) -> bool {
        &&& self.pointer != 0
        &&& self.memory.len() == self.header.alloc_size
        &&& self.header.length <= self.header.alloc_size
    }

    /// The bytes in use: the first `length` bytes of the allocation.
    pub open spec fn data(self) -> Seq<u8> {
        self.memory.subrange(0, self.header.length as int)
    }

    /// The presentation timestamp, absent where the header holds
    /// [`c::TIME_UNKNOWN`].
    pub open spec fn timestamp(self) -> Option<i64> {
        if self.header.pts == c::TIME_UNKNOWN {
            None
        } else {
            Some(self.header.pts)
        }
    }

    /// The native call that gives the buffer back.
    pub open spec fn release(self) -> Call {
        Call::ReleaseBuffer { buffer: self.pointer }
    }

    /// The bytes in use are as many as the header records, and each of them
    /// is a byte of the allocation at the same place.
    pub proof fn lemma_data_within_allocation(self)
        requires
            self.valid(),
        ensures
            self.data().len() == self.header.length,
            self.data().len() <= self.header.alloc_size,
            forall|i: int|
                0 <= i < self.data().len() ==> i < self.memory.len() && self.data()[i]
                    == self.memory[i],
    {
    }

    /// The timestamp is absent for the unknown-time value alone; every other
    /// value, negative ones too, comes out as it is.
    pub proof fn lemma_timestamp_passes_through(self)
        ensures
            self.header.pts == i64::MIN <==> self.timestamp() is None,
            self.header.pts != i64::MIN ==> self.timestamp() == Some(self.header.pts),
    {
    }
}

/// Buffer returned by [`Camera::capture`](crate::Camera::capture).
///
/// The handle owns the native buffer: it is neither copied nor cloned, and
/// [`Buffer::release`] consumes it.
pub struct Buffer {
    ptr: usize,
    raw: c::Buffer,
    memory: Vec<u8>,
}

impl View for Buffer {
    type V = BufferView;

    closed spec fn view(&self) -> BufferView {
        BufferView { pointer: self.ptr, header: self.raw, memory: self.memory@ }
    }
}

impl Buffer {
    #[verifier::type_invariant]
    spec fn inv(self) -> bool {
        self@.valid()
    }

    /// Whether the header `raw` at the address `ptr`, with the payload
    /// allocation `memory`, is a native buffer that a handle can own: what
    /// [`Buffer::from_raw_pointer`] and [`Camera::capture`](crate::Camera::capture)
    /// ask of their arguments.
    pub fn is_valid(ptr: usize, raw: &c::Buffer, memory: &Vec<u8>) -> (res: bool)
        ensures
            res == (BufferView { pointer: ptr, header: *raw, memory: memory@ }).valid(),
    {
        ptr != 0 && memory.len() == raw.alloc_size as usize && raw.length <= raw.alloc_size
    }

    /// The data contained in the buffer.
    pub fn data(&self) -> (res: &[u8])
        ensures
            self@.valid(),
            res@ == self@.data(),
            res@.len() == self@.header.length,
    {
        proof {
            use_type_invariant(self);
        }
        slice_subrange(self.memory.as_slice(), 0, self.raw.length as usize)
    }

    /// The presentation timestamp of the buffer.
    ///
    /// Returns `None` when the buffer timestamp is set to `TIME_UNKNOWN`.
    pub fn timestamp(&self) -> (res: Option<i64>)
        ensures
            res == self@.timestamp(),
    {
        let t: i64 = self.raw.pts;
        if t == c::TIME_UNKNOWN {
            None
        } else {
            Some(t)
        }
    }

    /// Access to the raw [`Buffer`][c::Buffer] structure.
    pub fn raw_buffer(&self) -> (res: &c::Buffer)
        ensures
            self@.valid(),
            *res == self@.header,
    {
        proof {
            use_type_invariant(self);
        }
        &self.raw
    }

    /// The address of the [`Buffer`][c::Buffer] structure, as used by the C interface.
    pub fn raw_pointer(&self) -> (res: usize)
        ensures
            self@.valid(),
            res == self@.pointer,
    {
        proof {
            use_type_invariant(self);
        }
        self.ptr
    }

    /// Take ownership of a raw [`Buffer`][c::Buffer]: of the header `raw` at
    /// the address `ptr`, and of its payload allocation, whose bytes are
    /// `memory`.
    ///
    /// The pointer must be valid and non-null.
    pub fn from_raw_pointer(ptr: usize, raw: c::Buffer, memory: Vec<u8>) -> (res: Self)
        requires
            (BufferView { pointer: ptr, header: raw, memory: memory@ }).valid(),
        ensures
            res@ == (BufferView { pointer: ptr, header: raw, memory: memory@ }),
    {
        Self { ptr, raw, memory }
    }

    /// Gives the handle up for the one native call that releases its buffer.
    ///
    /// Nothing borrowed from the handle, the byte view least of all, outlives
    /// this call.
    pub fn release(self) -> (call: Call)
        ensures
            self@.valid(),
            call == self@.release(),
    {
        proof {
            use_type_invariant(&self);
        }
        Call::ReleaseBuffer { buffer: self.ptr }
    }
}

} // verus!
