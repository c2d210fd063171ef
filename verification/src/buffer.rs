//! The dual-cursor byte buffer.
//!
//! A [`ByteBuf`] owns a contiguous byte store of a fixed *capacity* and two
//! cursors that partition it into three regions: discarded bytes
//! `[0, read_position)`, readable bytes `[read_position, write_position)` and
//! writable bytes `[write_position, capacity)`. Reads consume from the
//! readable window; writes append at the write cursor, growing the store
//! geometrically when it is full. A read-only buffer rejects every write,
//! every write-cursor mutation and every storage mutation.

use crate::errors::BufError;
use vstd::prelude::*;

verus! {

/// The largest capacity a buffer may have: cursors and sizes are exchanged
/// as 32-bit values at the public interface.
pub open spec fn spec_max_capacity() -> int {
    0xFFFF_FFFF
}

/// The capacity after growing a store of capacity `cap` so that it holds at
/// least `needed` bytes: unchanged where it already fits, else at least
/// doubled (clamped to the largest capacity), for amortized-constant-time
/// appends.
pub open spec fn grown_capacity(cap: int, needed: int) -> int {
    if needed <= cap {
        cap
    } else {
        let doubled = if 2 * cap <= spec_max_capacity() {
            2 * cap
        } else {
            spec_max_capacity()
        };
        if needed >= doubled {
            needed
        } else {
            doubled
        }
    }
}

/// The backing store after appending `data` at position `w` to a store that
/// held `pre`, grown to `newcap` slots: `data` occupies `[w, w + len(data))`,
/// the old bytes elsewhere are untouched, and any newly exposed slot is
/// zero-filled.
pub open spec fn written(pre: Seq<u8>, w: int, data: Seq<u8>, newcap: int) -> Seq<u8> {
    Seq::new(
        newcap as nat,
        |i: int|
            if w <= i < w + data.len() {
                data[i - w]
            } else if 0 <= i < pre.len() {
                pre[i]
            } else {
                0u8
            },
    )
}

/// The relation the contract of [`ByteBuf::clear`] establishes between the
/// buffer before and after the call: both cursors at zero, the store and the
/// read-only flag untouched.
pub open spec fn clear_transition(pre: ByteBuf, post: ByteBuf) -> bool {
    &&& post.bytes() == pre.bytes()
    &&& post.rpos() == 0
    &&& post.wpos() == 0
    &&& post.ro() == pre.ro()
}

/// A growable, bounds-checked byte buffer with independent read and write
/// cursors and an optional read-only mode.
pub struct ByteBuf {
    buf: Vec<u8>,
    r_pos: usize,
    w_pos: usize,
    read_only: bool,
}

impl ByteBuf {
    /// The bytes of the whole backing store (its length is the capacity).
    pub closed spec fn bytes(&self) -> Seq<u8> {
        self.buf@
    }

    /// The read cursor.
    pub closed spec fn rpos(&self) -> int {
        self.r_pos as int
    }

    /// The write cursor.
    pub closed spec fn wpos(&self) -> int {
        self.w_pos as int
    }

    /// Whether the buffer rejects mutation.
    pub closed spec fn ro(&self) -> bool {
        self.read_only
    }

    /// The capacity: the total number of byte slots of the backing store.
    pub open spec fn cap(&self) -> int {
        self.bytes().len() as int
    }

    /// The number of readable bytes, `write_position - read_position`.
    pub open spec fn readable(&self) -> int {
        self.wpos() - self.rpos()
    }

    /// The number of writable bytes: `capacity - write_position`, or zero on
    /// a read-only buffer.
    pub open spec fn writable(&self) -> int {
        if self.ro() {
            0
        } else {
            self.cap() - self.wpos()
        }
    }

    /// The readable window, `[read_position, write_position)`.
    pub open spec fn readable_window(&self) -> Seq<u8> {
        self.bytes().subrange(self.rpos(), self.wpos())
    }

    /// The invariant every operation preserves: the cursors are ordered
    /// within the capacity, and the capacity fits the 32-bit interface.
    pub open spec fn wf(&self) -> bool {
        0 <= self.rpos() <= self.wpos() <= self.cap() <= spec_max_capacity()
    }

    /// A buffer holding the given bytes, all of them immediately readable;
    /// an absent argument gives an empty buffer.
    pub fn new(buf: Option<Vec<u8>>) -> (b: ByteBuf)
        requires
            buf matches Some(v) ==> v@.len() <= spec_max_capacity(),
        ensures
            b.wf(),
            !b.ro(),
            b.rpos() == 0,
            match buf {
                Some(v) => b.bytes() == v@ && b.wpos() == v@.len(),
                None => b.bytes() == Seq::<u8>::empty() && b.wpos() == 0,
            },
    {
        match buf {
            Some(v) => {
                let len = v.len();
                ByteBuf { w_pos: len, buf: v, r_pos: 0, read_only: false }
            },
            None => {
                let b = ByteBuf { buf: Vec::new(), r_pos: 0, w_pos: 0, read_only: false };
                proof {
                    assert(b.bytes() =~= Seq::<u8>::empty());
                }
                b
            },
        }
    }

    /// An empty buffer whose store reserves `initial_capacity` byte slots:
    /// nothing readable yet, `initial_capacity` bytes writable.
    pub fn with_initial_capacity(initial_capacity: u32) -> (b: ByteBuf)
        ensures
            b.wf(),
            !b.ro(),
            b.rpos() == 0,
            b.wpos() == 0,
            b.cap() == initial_capacity,
            forall|i: int| 0 <= i < b.cap() ==> b.bytes()[i] == 0u8,
    {
        let n = initial_capacity as usize;
        let store: Vec<u8> = vec![0u8; n];
        ByteBuf { buf: store, r_pos: 0, w_pos: 0, read_only: false }
    }

    /// A buffer whose store equals the given byte sequence, the whole of it
    /// immediately readable.
    pub fn from_byte_array(byte_array: Vec<u8>) -> (b: ByteBuf)
        requires
            byte_array@.len() <= spec_max_capacity(),
        ensures
            b.wf(),
            !b.ro(),
            b.rpos() == 0,
            b.wpos() == byte_array@.len(),
            b.bytes() == byte_array@,
    {
        let len = byte_array.len();
        ByteBuf { w_pos: len, buf: byte_array, r_pos: 0, read_only: false }
    }

    /// Resets both cursors to zero. The capacity is preserved and the bytes
    /// are not erased: they merely become logically unreadable.
    pub fn clear(&mut self)
        requires
            old(self).wf(),
        ensures
            final(self).wf(),
            clear_transition(*old(self), *final(self)),
    {
        self.r_pos = 0;
        self.w_pos = 0;
    }

    /// Sets the capacity. Shrinking truncates the store to exactly `size`
    /// bytes and clamps both cursors into the new capacity (a visible,
    /// documented truncation); growing zero-fills the new slots and moves no
    /// cursor. Fails with `ReadOnlyViolation` and leaves the buffer
    /// unchanged on a read-only buffer.
    pub fn set_capacity(&mut self, size: u32) -> (r: Result<(), BufError>)
        requires
            old(self).wf(),
        ensures
            final(self).wf(),
            old(self).ro() ==> {
                &&& r == Result::<(), BufError>::Err(BufError::ReadOnlyViolation)
                &&& *final(self) == *old(self)
            },
            !old(self).ro() ==> {
                &&& r is Ok
                &&& final(self).cap() == size
                &&& final(self).bytes() == written(
                    old(self).bytes(),
                    0,
                    Seq::<u8>::empty(),
                    size as int,
                )
                &&& final(self).wpos() == if old(self).wpos() <= size {
                    old(self).wpos()
                } else {
                    size as int
                }
                &&& final(self).rpos() == if old(self).rpos() <= size {
                    old(self).rpos()
                } else {
                    size as int
                }
                &&& final(self).ro() == old(self).ro()
            },
    {
        if self.read_only {
            return Err(BufError::ReadOnlyViolation);
        }
        let size_us = size as usize;
        self.buf.resize(size_us, 0u8);
        if self.w_pos > size_us {
            self.w_pos = size_us;
        }
        if self.r_pos > size_us {
            self.r_pos = size_us;
        }
        proof {
            assert(self.bytes() =~= written(
                old(self).bytes(),
                0,
                Seq::<u8>::empty(),
                size as int,
            ));
        }
        Ok(())
    }

    /// A new, independent copy of the entire backing store (capacity
    /// length), decoupled from future mutation of this buffer.
    pub fn get_array(&self) -> (r: Vec<u8>)
        requires
            self.wf(),
        ensures
            r@ == self.bytes(),
    {
        let r = self.buf.clone();
        proof {
            assert(r@ =~= self.buf@);
        }
        r
    }

    /// A new, independent copy of exactly the readable window
    /// `[read_position, write_position)` — the bytes currently available to
    /// read, no more.
    pub fn get_buffer(&self) -> (r: Vec<u8>)
        requires
            self.wf(),
        ensures
            r@ == self.readable_window(),
    {
        let mut out: Vec<u8> = Vec::new();
        let mut i: usize = self.r_pos;
        while i < self.w_pos
            invariant
                self.wf(),
                self.rpos() <= i <= self.wpos(),
                out@ == self.bytes().subrange(self.rpos(), i as int),
            decreases self.wpos() - i,
        {
            out.push(self.buf[i]);
            i = i + 1;
            proof {
                assert(out@ =~= self.bytes().subrange(self.rpos(), i as int));
            }
        }
        proof {
            assert(out@ =~= self.readable_window());
        }
        out
    }

    /// A new buffer holding an independent copy of this buffer's full
    /// storage, both cursors reset to zero and `read_only` set: it rejects
    /// every write and observes no future mutation of this buffer.
    pub fn as_read_only(&self) -> (b: ByteBuf)
        requires
            self.wf(),
        ensures
            b.wf(),
            b.ro(),
            b.rpos() == 0,
            b.wpos() == 0,
            b.bytes() == self.bytes(),
    {
        let store = self.buf.clone();
        proof {
            assert(store@ =~= self.buf@);
        }
        ByteBuf { buf: store, r_pos: 0, w_pos: 0, read_only: true }
    }

    /// The number of bytes this buffer can contain.
    pub fn get_capacity(&self) -> (n: u32)
        requires
            self.wf(),
        ensures
            n == self.cap(),
    {
        self.buf.len() as u32
    }

    /// The number of readable bytes, `write_position - read_position`.
    pub fn get_readable_bytes(&self) -> (n: u32)
        requires
            self.wf(),
        ensures
            n == self.readable(),
    {
        (self.w_pos - self.r_pos) as u32
    }

    /// The number of writable bytes: `capacity - write_position`, or zero on
    /// a read-only buffer.
    pub fn get_writable_bytes(&self) -> (n: u32)
        requires
            self.wf(),
        ensures
            n == self.writable(),
    {
        if self.read_only {
            0
        } else {
            (self.buf.len() - self.w_pos) as u32
        }
    }

    /// Whether at least `min` bytes (one, where `min` is absent) are
    /// readable.
    pub fn is_readable(&self, min: Option<u32>) -> (r: bool)
        requires
            self.wf(),
        ensures
            r == (self.readable() >= match min {
                Some(n) => n as int,
                None => 1,
            }),
    {
        let threshold = match min {
            Some(n) => n,
            None => 1,
        };
        self.get_readable_bytes() >= threshold
    }

    /// Whether at least `min` bytes (one, where `min` is absent) are
    /// writable; always false on a read-only buffer.
    pub fn is_writable(&self, min: Option<u32>) -> (r: bool)
        requires
            self.wf(),
        ensures
            r == (!self.ro() && self.writable() >= match min {
                Some(n) => n as int,
                None => 1,
            }),
    {
        if self.read_only {
            return false;
        }
        let threshold = match min {
            Some(n) => n,
            None => 1,
        };
        self.get_writable_bytes() >= threshold
    }

    /// Whether the buffer rejects writes, write-cursor mutation and storage
    /// mutation.
    pub fn is_read_only(&self) -> (r: bool)
        ensures
            r == self.ro(),
    {
        self.read_only
    }

    /// The read cursor.
    pub fn get_reader_index(&self) -> (i: u32)
        requires
            self.wf(),
        ensures
            i == self.rpos(),
    {
        self.r_pos as u32
    }

    /// The write cursor.
    pub fn get_writer_index(&self) -> (i: u32)
        requires
            self.wf(),
        ensures
            i == self.wpos(),
    {
        self.w_pos as u32
    }

    /// Advances the read cursor by `length` bytes; fails with `OutOfRange`
    /// and leaves the buffer unchanged if fewer than `length` bytes are
    /// readable.
    pub fn skip_bytes(&mut self, length: u32) -> (r: Result<(), BufError>)
        requires
            old(self).wf(),
        ensures
            final(self).wf(),
            length <= old(self).readable() ==> {
                &&& r is Ok
                &&& final(self).rpos() == old(self).rpos() + length
                &&& final(self).wpos() == old(self).wpos()
                &&& final(self).bytes() == old(self).bytes()
                &&& final(self).ro() == old(self).ro()
            },
            length > old(self).readable() ==> {
                &&& r == Result::<(), BufError>::Err(
                    BufError::OutOfRange {
                        requested: length,
                        limit: old(self).readable() as u32,
                    },
                )
                &&& *final(self) == *old(self)
            },
    {
        let readable = self.get_readable_bytes();
        if length > readable {
            return Err(BufError::OutOfRange { requested: length, limit: readable });
        }
        self.r_pos = self.r_pos + length as usize;
        Ok(())
    }

    /// Sets the read cursor; fails with `OutOfRange` and leaves the buffer
    /// unchanged if `index` would pass the write cursor.
    pub fn set_reader_index(&mut self, index: u32) -> (r: Result<(), BufError>)
        requires
            old(self).wf(),
        ensures
            final(self).wf(),
            index <= old(self).wpos() ==> {
                &&& r is Ok
                &&& final(self).rpos() == index
                &&& final(self).wpos() == old(self).wpos()
                &&& final(self).bytes() == old(self).bytes()
                &&& final(self).ro() == old(self).ro()
            },
            index > old(self).wpos() ==> {
                &&& r == Result::<(), BufError>::Err(
                    BufError::OutOfRange { requested: index, limit: old(self).wpos() as u32 },
                )
                &&& *final(self) == *old(self)
            },
    {
        let w = self.get_writer_index();
        if index > w {
            return Err(BufError::OutOfRange { requested: index, limit: w });
        }
        self.r_pos = index as usize;
        Ok(())
    }

    /// Sets the write cursor. Fails with `ReadOnlyViolation` on a read-only
    /// buffer, with `OutOfRange` if `index` would retreat before the read
    /// cursor, and with `CapacityViolation` if `index` exceeds the capacity;
    /// on failure the buffer is unchanged.
    pub fn set_writer_index(&mut self, index: u32) -> (r: Result<(), BufError>)
        requires
            old(self).wf(),
        ensures
            final(self).wf(),
            old(self).ro() ==> {
                &&& r == Result::<(), BufError>::Err(BufError::ReadOnlyViolation)
                &&& *final(self) == *old(self)
            },
            !old(self).ro() && index < old(self).rpos() ==> {
                &&& r == Result::<(), BufError>::Err(
                    BufError::OutOfRange { requested: index, limit: old(self).rpos() as u32 },
                )
                &&& *final(self) == *old(self)
            },
            !old(self).ro() && index >= old(self).rpos() && index > old(self).cap() ==> {
                &&& r == Result::<(), BufError>::Err(
                    BufError::CapacityViolation {
                        requested: index,
                        capacity: old(self).cap() as u32,
                    },
                )
                &&& *final(self) == *old(self)
            },
            !old(self).ro() && old(self).rpos() <= index <= old(self).cap() ==> {
                &&& r is Ok
                &&& final(self).wpos() == index
                &&& final(self).rpos() == old(self).rpos()
                &&& final(self).bytes() == old(self).bytes()
                &&& final(self).ro() == old(self).ro()
            },
    {
        if self.read_only {
            return Err(BufError::ReadOnlyViolation);
        }
        let r_index = self.get_reader_index();
        if index < r_index {
            return Err(BufError::OutOfRange { requested: index, limit: r_index });
        }
        let capacity = self.get_capacity();
        if index > capacity {
            return Err(BufError::CapacityViolation { requested: index, capacity });
        }
        self.w_pos = index as usize;
        Ok(())
    }

    /// Reads one byte and decodes it as a boolean (any nonzero byte is
    /// true); fails with `OutOfRange` and leaves the buffer unchanged if
    /// nothing is readable.
    pub fn read_boolean(&mut self) -> (r: Result<bool, BufError>)
        requires
            old(self).wf(),
        ensures
            final(self).wf(),
            old(self).readable() >= 1 ==> {
                &&& r == Result::<bool, BufError>::Ok(
                    crate::codec::dec_bool(old(self).bytes()[old(self).rpos()]),
                )
                &&& final(self).rpos() == old(self).rpos() + 1
                &&& final(self).wpos() == old(self).wpos()
                &&& final(self).bytes() == old(self).bytes()
                &&& final(self).ro() == old(self).ro()
            },
            old(self).readable() < 1 ==> {
                &&& r == Result::<bool, BufError>::Err(
                    BufError::OutOfRange { requested: 1, limit: old(self).readable() as u32 },
                )
                &&& *final(self) == *old(self)
            },
    {
        let readable = self.get_readable_bytes();
        if readable < 1 {
            return Err(BufError::OutOfRange { requested: 1, limit: readable });
        }
        let b = self.buf[self.r_pos];
        self.r_pos = self.r_pos + 1;
        Ok(b != 0)
    }

    /// Reads one byte, sign-extended; fails with `OutOfRange` and leaves the
    /// buffer unchanged if nothing is readable.
    pub fn read_byte(&mut self) -> (r: Result<i32, BufError>)
        requires
            old(self).wf(),
        ensures
            final(self).wf(),
            old(self).readable() >= 1 ==> {
                &&& r matches Ok(v) && v as int == crate::codec::sign_extend8(
                    old(self).bytes()[old(self).rpos()] as int,
                )
                &&& final(self).rpos() == old(self).rpos() + 1
                &&& final(self).wpos() == old(self).wpos()
                &&& final(self).bytes() == old(self).bytes()
                &&& final(self).ro() == old(self).ro()
            },
            old(self).readable() < 1 ==> {
                &&& r == Result::<i32, BufError>::Err(
                    BufError::OutOfRange { requested: 1, limit: old(self).readable() as u32 },
                )
                &&& *final(self) == *old(self)
            },
    {
        let readable = self.get_readable_bytes();
        if readable < 1 {
            return Err(BufError::OutOfRange { requested: 1, limit: readable });
        }
        let b = self.buf[self.r_pos];
        self.r_pos = self.r_pos + 1;
        if b >= 0x80 {
            Ok(b as i32 - 0x100)
        } else {
            Ok(b as i32)
        }
    }

    /// Reads one byte, zero-extended; fails with `OutOfRange` and leaves the
    /// buffer unchanged if nothing is readable.
    pub fn read_unsigned_byte(&mut self) -> (r: Result<u32, BufError>)
        requires
            old(self).wf(),
        ensures
            final(self).wf(),
            old(self).readable() >= 1 ==> {
                &&& r matches Ok(v) && v == old(self).bytes()[old(self).rpos()] as u32
                &&& final(self).rpos() == old(self).rpos() + 1
                &&& final(self).wpos() == old(self).wpos()
                &&& final(self).bytes() == old(self).bytes()
                &&& final(self).ro() == old(self).ro()
            },
            old(self).readable() < 1 ==> {
                &&& r == Result::<u32, BufError>::Err(
                    BufError::OutOfRange { requested: 1, limit: old(self).readable() as u32 },
                )
                &&& *final(self) == *old(self)
            },
    {
        let readable = self.get_readable_bytes();
        if readable < 1 {
            return Err(BufError::OutOfRange { requested: 1, limit: readable });
        }
        let b = self.buf[self.r_pos];
        self.r_pos = self.r_pos + 1;
        Ok(b as u32)
    }

    /// Reads a 16-bit big-endian value, sign-extended; fails with
    /// `OutOfRange` and leaves the buffer unchanged if fewer than two bytes
    /// are readable.
    pub fn read_short(&mut self) -> (r: Result<i32, BufError>)
        requires
            old(self).wf(),
        ensures
            final(self).wf(),
            old(self).readable() >= 2 ==> {
                &&& r matches Ok(v) && v as int == crate::codec::dec_i16_be(
                    old(self).bytes()[old(self).rpos()],
                    old(self).bytes()[old(self).rpos() + 1],
                )
                &&& final(self).rpos() == old(self).rpos() + 2
                &&& final(self).wpos() == old(self).wpos()
                &&& final(self).bytes() == old(self).bytes()
                &&& final(self).ro() == old(self).ro()
            },
            old(self).readable() < 2 ==> {
                &&& r == Result::<i32, BufError>::Err(
                    BufError::OutOfRange { requested: 2, limit: old(self).readable() as u32 },
                )
                &&& *final(self) == *old(self)
            },
    {
        let readable = self.get_readable_bytes();
        if readable < 2 {
            return Err(BufError::OutOfRange { requested: 2, limit: readable });
        }
        let b0 = self.buf[self.r_pos];
        let b1 = self.buf[self.r_pos + 1];
        self.r_pos = self.r_pos + 2;
        let u: u32 = (b0 as u32) * 0x100 + (b1 as u32);
        if u >= 0x8000 {
            Ok(u as i32 - 0x10000)
        } else {
            Ok(u as i32)
        }
    }

    /// Reads a 16-bit little-endian value, sign-extended; fails with
    /// `OutOfRange` and leaves the buffer unchanged if fewer than two bytes
    /// are readable.
    pub fn read_short_le(&mut self) -> (r: Result<i32, BufError>)
        requires
            old(self).wf(),
        ensures
            final(self).wf(),
            old(self).readable() >= 2 ==> {
                &&& r matches Ok(v) && v as int == crate::codec::dec_i16_le(
                    old(self).bytes()[old(self).rpos()],
                    old(self).bytes()[old(self).rpos() + 1],
                )
                &&& final(self).rpos() == old(self).rpos() + 2
                &&& final(self).wpos() == old(self).wpos()
                &&& final(self).bytes() == old(self).bytes()
                &&& final(self).ro() == old(self).ro()
            },
            old(self).readable() < 2 ==> {
                &&& r == Result::<i32, BufError>::Err(
                    BufError::OutOfRange { requested: 2, limit: old(self).readable() as u32 },
                )
                &&& *final(self) == *old(self)
            },
    {
        let readable = self.get_readable_bytes();
        if readable < 2 {
            return Err(BufError::OutOfRange { requested: 2, limit: readable });
        }
        let b0 = self.buf[self.r_pos];
        let b1 = self.buf[self.r_pos + 1];
        self.r_pos = self.r_pos + 2;
        let u: u32 = (b1 as u32) * 0x100 + (b0 as u32);
        if u >= 0x8000 {
            Ok(u as i32 - 0x10000)
        } else {
            Ok(u as i32)
        }
    }

    /// Reads a 16-bit big-endian value, zero-extended; fails with
    /// `OutOfRange` and leaves the buffer unchanged if fewer than two bytes
    /// are readable.
    pub fn read_unsigned_short(&mut self) -> (r: Result<u32, BufError>)
        requires
            old(self).wf(),
        ensures
            final(self).wf(),
            old(self).readable() >= 2 ==> {
                &&& r matches Ok(v) && v as int == crate::codec::dec_u16_be(
                    old(self).bytes()[old(self).rpos()],
                    old(self).bytes()[old(self).rpos() + 1],
                )
                &&& final(self).rpos() == old(self).rpos() + 2
                &&& final(self).wpos() == old(self).wpos()
                &&& final(self).bytes() == old(self).bytes()
                &&& final(self).ro() == old(self).ro()
            },
            old(self).readable() < 2 ==> {
                &&& r == Result::<u32, BufError>::Err(
                    BufError::OutOfRange { requested: 2, limit: old(self).readable() as u32 },
                )
                &&& *final(self) == *old(self)
            },
    {
        let readable = self.get_readable_bytes();
        if readable < 2 {
            return Err(BufError::OutOfRange { requested: 2, limit: readable });
        }
        let b0 = self.buf[self.r_pos];
        let b1 = self.buf[self.r_pos + 1];
        self.r_pos = self.r_pos + 2;
        Ok((b0 as u32) * 0x100 + (b1 as u32))
    }

    /// Reads a 16-bit little-endian value, zero-extended; fails with
    /// `OutOfRange` and leaves the buffer unchanged if fewer than two bytes
    /// are readable.
    pub fn read_unsigned_short_le(&mut self) -> (r: Result<u32, BufError>)
        requires
            old(self).wf(),
        ensures
            final(self).wf(),
            old(self).readable() >= 2 ==> {
                &&& r matches Ok(v) && v as int == crate::codec::dec_u16_le(
                    old(self).bytes()[old(self).rpos()],
                    old(self).bytes()[old(self).rpos() + 1],
                )
                &&& final(self).rpos() == old(self).rpos() + 2
                &&& final(self).wpos() == old(self).wpos()
                &&& final(self).bytes() == old(self).bytes()
                &&& final(self).ro() == old(self).ro()
            },
            old(self).readable() < 2 ==> {
                &&& r == Result::<u32, BufError>::Err(
                    BufError::OutOfRange { requested: 2, limit: old(self).readable() as u32 },
                )
                &&& *final(self) == *old(self)
            },
    {
        let readable = self.get_readable_bytes();
        if readable < 2 {
            return Err(BufError::OutOfRange { requested: 2, limit: readable });
        }
        let b0 = self.buf[self.r_pos];
        let b1 = self.buf[self.r_pos + 1];
        self.r_pos = self.r_pos + 2;
        Ok((b1 as u32) * 0x100 + (b0 as u32))
    }

    /// Reads a 24-bit big-endian value `(b0<<16)|(b1<<8)|b2`, with no sign
    /// extension beyond bit 23; fails with `OutOfRange` and leaves the
    /// buffer unchanged if fewer than three bytes are readable.
    pub fn read_medium(&mut self) -> (r: Result<i32, BufError>)
        requires
            old(self).wf(),
        ensures
            final(self).wf(),
            old(self).readable() >= 3 ==> {
                &&& r matches Ok(v) && v as int == crate::codec::dec_u24_be(
                    old(self).bytes()[old(self).rpos()],
                    old(self).bytes()[old(self).rpos() + 1],
                    old(self).bytes()[old(self).rpos() + 2],
                )
                &&& final(self).rpos() == old(self).rpos() + 3
                &&& final(self).wpos() == old(self).wpos()
                &&& final(self).bytes() == old(self).bytes()
                &&& final(self).ro() == old(self).ro()
            },
            old(self).readable() < 3 ==> {
                &&& r == Result::<i32, BufError>::Err(
                    BufError::OutOfRange { requested: 3, limit: old(self).readable() as u32 },
                )
                &&& *final(self) == *old(self)
            },
    {
        let readable = self.get_readable_bytes();
        if readable < 3 {
            return Err(BufError::OutOfRange { requested: 3, limit: readable });
        }
        let b0 = self.buf[self.r_pos];
        let b1 = self.buf[self.r_pos + 1];
        let b2 = self.buf[self.r_pos + 2];
        self.r_pos = self.r_pos + 3;
        let u: u32 = (b0 as u32) * 0x10000 + (b1 as u32) * 0x100 + (b2 as u32);
        Ok(u as i32)
    }

    /// Grows the store so that `width` more bytes fit at the write cursor,
    /// zero-filling every newly exposed slot; geometric growth keeps
    /// appending amortized constant time.
    fn ensure_capacity_for(&mut self, width: u32)
        requires
            old(self).wf(),
            !old(self).ro(),
            old(self).wpos() + width <= spec_max_capacity(),
        ensures
            final(self).wf(),
            final(self).rpos() == old(self).rpos(),
            final(self).wpos() == old(self).wpos(),
            final(self).ro() == old(self).ro(),
            final(self).cap() == grown_capacity(old(self).cap(), old(self).wpos() + width),
            final(self).cap() >= old(self).wpos() + width,
            final(self).bytes() == written(old(self).bytes(), 0, Seq::<u8>::empty(), final(self).cap()),
    {
        let needed: u32 = self.w_pos as u32 + width;
        let cap: u32 = self.buf.len() as u32;
        if needed <= cap {
            proof {
                assert(self.bytes() =~= written(self.bytes(), 0, Seq::<u8>::empty(), self.cap()));
            }
            return;
        }
        let doubled: u64 = (cap as u64) * 2;
        let capped: u64 = if doubled <= 0xFFFF_FFFFu64 {
            doubled
        } else {
            0xFFFF_FFFFu64
        };
        let newcap: u64 = if (needed as u64) >= capped {
            needed as u64
        } else {
            capped
        };
        self.buf.resize(newcap as usize, 0u8);
        proof {
            assert(self.bytes() =~= written(old(self).bytes(), 0, Seq::<u8>::empty(), self.cap()));
        }
    }

    /// Appends the low 8 bits of `val` at the write cursor, growing the
    /// store as needed; fails with `ReadOnlyViolation` and leaves the buffer
    /// unchanged on a read-only buffer. Writes both a signed and an unsigned
    /// byte.
    pub fn write_byte(&mut self, val: i32) -> (r: Result<(), BufError>)
        requires
            old(self).wf(),
            old(self).wpos() + 1 <= spec_max_capacity(),
        ensures
            final(self).wf(),
            old(self).ro() ==> {
                &&& r == Result::<(), BufError>::Err(BufError::ReadOnlyViolation)
                &&& *final(self) == *old(self)
            },
            !old(self).ro() ==> {
                &&& r is Ok
                &&& final(self).bytes() == written(
                    old(self).bytes(),
                    old(self).wpos(),
                    seq![crate::codec::enc_byte(val as int)],
                    grown_capacity(old(self).cap(), old(self).wpos() + 1),
                )
                &&& final(self).wpos() == old(self).wpos() + 1
                &&& final(self).rpos() == old(self).rpos()
                &&& final(self).ro() == old(self).ro()
            },
    {
        if self.read_only {
            return Err(BufError::ReadOnlyViolation);
        }
        self.ensure_capacity_for(1);
        let b: u8 = crate::codec::low_bits(val, 0x100) as u8;
        self.buf.set(self.w_pos, b);
        self.w_pos = self.w_pos + 1;
        proof {
            assert(self.bytes() =~= written(
                old(self).bytes(),
                old(self).wpos(),
                seq![crate::codec::enc_byte(val as int)],
                grown_capacity(old(self).cap(), old(self).wpos() + 1),
            ));
        }
        Ok(())
    }

    /// Appends one byte, 1 for true and 0 for false, growing the store as
    /// needed; fails with `ReadOnlyViolation` and leaves the buffer
    /// unchanged on a read-only buffer.
    pub fn write_boolean(&mut self, val: bool) -> (r: Result<(), BufError>)
        requires
            old(self).wf(),
            old(self).wpos() + 1 <= spec_max_capacity(),
        ensures
            final(self).wf(),
            old(self).ro() ==> {
                &&& r == Result::<(), BufError>::Err(BufError::ReadOnlyViolation)
                &&& *final(self) == *old(self)
            },
            !old(self).ro() ==> {
                &&& r is Ok
                &&& final(self).bytes() == written(
                    old(self).bytes(),
                    old(self).wpos(),
                    seq![crate::codec::enc_bool(val)],
                    grown_capacity(old(self).cap(), old(self).wpos() + 1),
                )
                &&& final(self).wpos() == old(self).wpos() + 1
                &&& final(self).rpos() == old(self).rpos()
                &&& final(self).ro() == old(self).ro()
            },
    {
        if val {
            self.write_byte(1)
        } else {
            self.write_byte(0)
        }
    }

    /// Appends 16 bits big-endian, the two's-complement truncation of `val`,
    /// growing the store as needed; fails with `ReadOnlyViolation` and
    /// leaves the buffer unchanged on a read-only buffer.
    pub fn write_short(&mut self, val: i32) -> (r: Result<(), BufError>)
        requires
            old(self).wf(),
            old(self).wpos() + 2 <= spec_max_capacity(),
        ensures
            final(self).wf(),
            old(self).ro() ==> {
                &&& r == Result::<(), BufError>::Err(BufError::ReadOnlyViolation)
                &&& *final(self) == *old(self)
            },
            !old(self).ro() ==> {
                &&& r is Ok
                &&& final(self).bytes() == written(
                    old(self).bytes(),
                    old(self).wpos(),
                    seq![
                        crate::codec::enc16_hi(val as int),
                        crate::codec::enc16_lo(val as int),
                    ],
                    grown_capacity(old(self).cap(), old(self).wpos() + 2),
                )
                &&& final(self).wpos() == old(self).wpos() + 2
                &&& final(self).rpos() == old(self).rpos()
                &&& final(self).ro() == old(self).ro()
            },
    {
        if self.read_only {
            return Err(BufError::ReadOnlyViolation);
        }
        self.ensure_capacity_for(2);
        let low: u32 = crate::codec::low_bits(val, 0x10000);
        let hi: u8 = (low / 0x100) as u8;
        let lo: u8 = (low % 0x100) as u8;
        self.buf.set(self.w_pos, hi);
        self.buf.set(self.w_pos + 1, lo);
        self.w_pos = self.w_pos + 2;
        proof {
            assert(self.bytes() =~= written(
                old(self).bytes(),
                old(self).wpos(),
                seq![
                    crate::codec::enc16_hi(val as int),
                    crate::codec::enc16_lo(val as int),
                ],
                grown_capacity(old(self).cap(), old(self).wpos() + 2),
            ));
        }
        Ok(())
    }

    /// Appends 16 bits little-endian, the two's-complement truncation of
    /// `val`, growing the store as needed; fails with `ReadOnlyViolation`
    /// and leaves the buffer unchanged on a read-only buffer.
    pub fn write_short_le(&mut self, val: i32) -> (r: Result<(), BufError>)
        requires
            old(self).wf(),
            old(self).wpos() + 2 <= spec_max_capacity(),
        ensures
            final(self).wf(),
            old(self).ro() ==> {
                &&& r == Result::<(), BufError>::Err(BufError::ReadOnlyViolation)
                &&& *final(self) == *old(self)
            },
            !old(self).ro() ==> {
                &&& r is Ok
                &&& final(self).bytes() == written(
                    old(self).bytes(),
                    old(self).wpos(),
                    seq![
                        crate::codec::enc16_lo(val as int),
                        crate::codec::enc16_hi(val as int),
                    ],
                    grown_capacity(old(self).cap(), old(self).wpos() + 2),
                )
                &&& final(self).wpos() == old(self).wpos() + 2
                &&& final(self).rpos() == old(self).rpos()
                &&& final(self).ro() == old(self).ro()
            },
    {
        if self.read_only {
            return Err(BufError::ReadOnlyViolation);
        }
        self.ensure_capacity_for(2);
        let low: u32 = crate::codec::low_bits(val, 0x10000);
        let hi: u8 = (low / 0x100) as u8;
        let lo: u8 = (low % 0x100) as u8;
        self.buf.set(self.w_pos, lo);
        self.buf.set(self.w_pos + 1, hi);
        self.w_pos = self.w_pos + 2;
        proof {
            assert(self.bytes() =~= written(
                old(self).bytes(),
                old(self).wpos(),
                seq![
                    crate::codec::enc16_lo(val as int),
                    crate::codec::enc16_hi(val as int),
                ],
                grown_capacity(old(self).cap(), old(self).wpos() + 2),
            ));
        }
        Ok(())
    }

    /// Appends 24 bits big-endian — bits 16..24, 8..16 and 0..8 of `val` in
    /// that order — growing the store as needed; fails with
    /// `ReadOnlyViolation` and leaves the buffer unchanged on a read-only
    /// buffer.
    pub fn write_medium(&mut self, val: i32) -> (r: Result<(), BufError>)
        requires
            old(self).wf(),
            old(self).wpos() + 3 <= spec_max_capacity(),
        ensures
            final(self).wf(),
            old(self).ro() ==> {
                &&& r == Result::<(), BufError>::Err(BufError::ReadOnlyViolation)
                &&& *final(self) == *old(self)
            },
            !old(self).ro() ==> {
                &&& r is Ok
                &&& final(self).bytes() == written(
                    old(self).bytes(),
                    old(self).wpos(),
                    seq![
                        crate::codec::enc24_hi(val as int),
                        crate::codec::enc24_mid(val as int),
                        crate::codec::enc24_lo(val as int),
                    ],
                    grown_capacity(old(self).cap(), old(self).wpos() + 3),
                )
                &&& final(self).wpos() == old(self).wpos() + 3
                &&& final(self).rpos() == old(self).rpos()
                &&& final(self).ro() == old(self).ro()
            },
    {
        if self.read_only {
            return Err(BufError::ReadOnlyViolation);
        }
        self.ensure_capacity_for(3);
        let low: u32 = crate::codec::low_bits(val, 0x1000000);
        let b0: u8 = (low / 0x10000) as u8;
        let b1: u8 = ((low / 0x100) % 0x100) as u8;
        let b2: u8 = (low % 0x100) as u8;
        self.buf.set(self.w_pos, b0);
        self.buf.set(self.w_pos + 1, b1);
        self.buf.set(self.w_pos + 2, b2);
        self.w_pos = self.w_pos + 3;
        proof {
            assert(self.bytes() =~= written(
                old(self).bytes(),
                old(self).wpos(),
                seq![
                    crate::codec::enc24_hi(val as int),
                    crate::codec::enc24_mid(val as int),
                    crate::codec::enc24_lo(val as int),
                ],
                grown_capacity(old(self).cap(), old(self).wpos() + 3),
            ));
        }
        Ok(())
    }

    /// Appends the given bytes unchanged at the write cursor, growing the
    /// store as needed; fails with `ReadOnlyViolation` and leaves the buffer
    /// unchanged on a read-only buffer.
    pub fn write_bytes(&mut self, data: &[u8]) -> (r: Result<(), BufError>)
        requires
            old(self).wf(),
            old(self).wpos() + data@.len() <= spec_max_capacity(),
        ensures
            final(self).wf(),
            old(self).ro() ==> {
                &&& r == Result::<(), BufError>::Err(BufError::ReadOnlyViolation)
                &&& *final(self) == *old(self)
            },
            !old(self).ro() ==> {
                &&& r is Ok
                &&& final(self).bytes() == written(
                    old(self).bytes(),
                    old(self).wpos(),
                    data@,
                    grown_capacity(old(self).cap(), old(self).wpos() + data@.len()),
                )
                &&& final(self).wpos() == old(self).wpos() + data@.len()
                &&& final(self).rpos() == old(self).rpos()
                &&& final(self).ro() == old(self).ro()
            },
    {
        if self.read_only {
            return Err(BufError::ReadOnlyViolation);
        }
        let len = data.len();
        self.ensure_capacity_for(len as u32);
        let ghost mid = *self;
        let mut i: usize = 0;
        while i < len
            invariant
                self.wf(),
                i <= len,
                len == data@.len(),
                self.rpos() == mid.rpos(),
                self.wpos() == mid.wpos(),
                self.ro() == mid.ro(),
                !self.ro(),
                self.cap() == mid.cap(),
                self.wpos() + len <= self.cap(),
                self.bytes() == written(mid.bytes(), mid.wpos(), data@.subrange(0, i as int), mid.cap()),
            decreases len - i,
        {
            self.buf.set(self.w_pos + i, data[i]);
            i = i + 1;
            proof {
                assert(self.bytes() =~= written(
                    mid.bytes(),
                    mid.wpos(),
                    data@.subrange(0, i as int),
                    mid.cap(),
                ));
            }
        }
        self.w_pos = self.w_pos + len;
        proof {
            assert(data@.subrange(0, len as int) =~= data@);
            assert(self.bytes() =~= written(
                old(self).bytes(),
                old(self).wpos(),
                data@,
                grown_capacity(old(self).cap(), old(self).wpos() + data@.len()),
            ));
        }
        Ok(())
    }

    /// Sets both cursors together: no intermediate invalid state is
    /// observable. Fails with `ReadOnlyViolation` on a read-only buffer,
    /// with `OutOfRange` if `w_index < r_index`, and with
    /// `CapacityViolation` if `w_index` exceeds the capacity; on failure the
    /// buffer is unchanged.
    pub fn set_index(&mut self, r_index: u32, w_index: u32) -> (r: Result<(), BufError>)
        requires
            old(self).wf(),
        ensures
            final(self).wf(),
            old(self).ro() ==> {
                &&& r == Result::<(), BufError>::Err(BufError::ReadOnlyViolation)
                &&& *final(self) == *old(self)
            },
            !old(self).ro() && w_index < r_index ==> {
                &&& r == Result::<(), BufError>::Err(
                    BufError::OutOfRange { requested: w_index, limit: r_index },
                )
                &&& *final(self) == *old(self)
            },
            !old(self).ro() && w_index >= r_index && w_index > old(self).cap() ==> {
                &&& r == Result::<(), BufError>::Err(
                    BufError::CapacityViolation {
                        requested: w_index,
                        capacity: old(self).cap() as u32,
                    },
                )
                &&& *final(self) == *old(self)
            },
            !old(self).ro() && r_index <= w_index <= old(self).cap() ==> {
                &&& r is Ok
                &&& final(self).rpos() == r_index
                &&& final(self).wpos() == w_index
                &&& final(self).bytes() == old(self).bytes()
                &&& final(self).ro() == old(self).ro()
            },
    {
        if self.read_only {
            return Err(BufError::ReadOnlyViolation);
        }
        if w_index < r_index {
            return Err(BufError::OutOfRange { requested: w_index, limit: r_index });
        }
        let capacity = self.get_capacity();
        if w_index > capacity {
            return Err(BufError::CapacityViolation { requested: w_index, capacity });
        }
        self.r_pos = r_index as usize;
        self.w_pos = w_index as usize;
        Ok(())
    }
}

} // verus!
