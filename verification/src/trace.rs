//! Trace buffer: a fixed-size text buffer shared with the host processor,
//! which reads it as a NUL-terminated log.
//!
//! Writes drop NUL bytes from the text, wrap the cursor back to the start
//! when the text (with its terminator) no longer fits behind it, stop at the
//! buffer end, and keep the text NUL-terminated whenever room remains.  The
//! placement of the buffer in the shared link section and the process-wide
//! handle to it are the board glue's concern.

use vstd::prelude::*;

verus! {

/// Size of the shared trace buffer in bytes.
pub const TRACE_BUF_SIZE: usize = 0x1000;

/// The bytes of `s` that are written out: every byte but NUL, in order.
pub open spec fn printable(s: Seq<u8>) -> Seq<u8>
    decreases s.len(),
{
    if s.len() == 0 {
        Seq::empty()
    } else if s.last() != 0 {
        printable(s.drop_last()).push(s.last())
    } else {
        printable(s.drop_last())
    }
}

/// Appending a byte appends it to the printable bytes unless it is NUL.
pub proof fn lemma_printable_push(s: Seq<u8>, x: u8)
    ensures
        printable(s.push(x)) == (if x != 0 {
            printable(s).push(x)
        } else {
            printable(s)
        }),
{
    assert(s.push(x).drop_last() =~= s);
    assert(s.push(x).last() == x);
}

/// How many bytes a write starting at `start` stores: the data, capped by
/// the room up to the buffer end.
pub open spec fn spec_written(cap: int, start: int, data_len: int) -> int {
    if data_len <= cap - start {
        data_len
    } else {
        cap - start
    }
}

/// The buffer contents after storing `data` from `start` on, without the
/// terminator: as much of `data` as fits up to the buffer end, the rest of
/// the buffer unchanged.
pub open spec fn spec_partial(buf: Seq<u8>, start: int, data: Seq<u8>) -> Seq<u8> {
    let w = spec_written(buf.len() as int, start, data.len() as int);
    Seq::new(
        buf.len(),
        |i: int|
            if start <= i < start + w {
                data[i - start]
            } else {
                buf[i]
            },
    )
}

/// The buffer contents after a full write: the stored data, a NUL
/// terminator where room remains behind it, the rest unchanged.
pub open spec fn spec_write_result(buf: Seq<u8>, start: int, data: Seq<u8>) -> Seq<u8> {
    let w = spec_written(buf.len() as int, start, data.len() as int);
    Seq::new(
        buf.len(),
        |i: int|
            if start <= i < start + w {
                data[i - start]
            } else if i == start + w {
                0u8
            } else {
                buf[i]
            },
    )
}

/// The trace buffer: a cursor and the shared byte buffer.
pub struct TraceBuffer {
    pub pos: usize,
    pub buffer: Vec<u8>,
}

impl TraceBuffer {
    /// The cursor never leaves the buffer.
    pub open spec fn wf(self) -> bool {
        self.pos <= self.buffer@.len()
    }

    /// A fresh, zeroed trace buffer.
    pub fn new() -> (r: TraceBuffer)
        ensures
            r.wf(),
            r.pos == 0,
            r.buffer@.len() == TRACE_BUF_SIZE,
            forall|i: int| 0 <= i < r.buffer@.len() ==> r.buffer@[i] == 0,
    {
        let mut buffer: Vec<u8> = Vec::new();
        let mut i: usize = 0;
        while i < TRACE_BUF_SIZE
            invariant
                i <= TRACE_BUF_SIZE,
                buffer@.len() == i,
                forall|j: int| 0 <= j < i ==> buffer@[j] == 0,
            decreases TRACE_BUF_SIZE - i,
        {
            buffer.push(0);
            i = i + 1;
        }
        TraceBuffer { pos: 0, buffer }
    }

    /// Take over an existing buffer, as the panic path does with the shared
    /// one: the cursor is placed at the first NUL — the end of the text
    /// already there — or at the start when no NUL is found.
    pub fn recover(buffer: Vec<u8>) -> (r: TraceBuffer)
        ensures
            r.wf(),
            r.buffer@ == buffer@,
            ({
                let used = r.pos as int;
                if exists|i: int| 0 <= i < buffer@.len() && buffer@[i] == 0 {
                    &&& buffer@[used] == 0
                    &&& forall|i: int| 0 <= i < used ==> buffer@[i] != 0
                } else {
                    used == 0
                }
            }),
    {
        let mut used_space: usize = 0;
        let mut idx: usize = 0;
        let mut found: bool = false;
        while idx < buffer.len() && !found
            invariant
                idx <= buffer@.len(),
                !found ==> used_space == 0,
                !found ==> forall|i: int| 0 <= i < idx ==> buffer@[i] != 0,
                found ==> (used_space < idx <= buffer@.len() && buffer@[used_space as int] == 0
                    && forall|i: int| 0 <= i < used_space ==> buffer@[i] != 0),
            decreases buffer@.len() - idx,
        {
            if buffer[idx] == 0 {
                used_space = idx;
                found = true;
            }
            idx = idx + 1;
        }
        TraceBuffer { pos: used_space, buffer }
    }

    /// Append `s` to the buffer at the cursor: NUL bytes are dropped, the
    /// cursor wraps to the start when `s` and its terminator no longer fit
    /// behind it, writing stops at the buffer end, and a NUL terminator
    /// follows the text where room remains.
    pub fn write(&mut self, s: &[u8])
        requires
            old(self).wf(),
            s@.len() < usize::MAX,
        ensures
            final(self).wf(),
            ({
                let start = if s@.len() + 1 > old(self).buffer@.len() - old(self).pos {
                    0int
                } else {
                    old(self).pos as int
                };
                let w = spec_written(
                    old(self).buffer@.len() as int,
                    start,
                    printable(s@).len() as int,
                );
                &&& final(self).pos == start + w
                &&& final(self).buffer@ == spec_write_result(
                    old(self).buffer@,
                    start,
                    printable(s@),
                )
            }),
    {
        let byte_len = s.len();
        let cap = self.buffer.len();
        let space = cap - self.pos;
        // Does not fit (with the terminator): wrap to make room.
        if byte_len + 1 > space {
            self.pos = 0;
        }
        let start = self.pos;
        let mut written: usize = 0;
        let mut i: usize = 0;
        proof {
            assert(s@.take(0) =~= Seq::<u8>::empty());
            assert(printable(s@.take(0)).len() == 0);
            assert(self.buffer@ =~= spec_partial(self.buffer@, start as int, printable(s@.take(0))));
        }
        while i < byte_len
            invariant
                i <= byte_len,
                byte_len == s@.len(),
                cap == old(self).buffer@.len(),
                start as int == (if s@.len() + 1 > old(self).buffer@.len() - old(self).pos {
                    0int
                } else {
                    old(self).pos as int
                }),
                start <= cap,
                self.pos == start,
                self.buffer@.len() == cap,
                written == spec_written(
                    cap as int,
                    start as int,
                    printable(s@.take(i as int)).len() as int,
                ),
                self.buffer@ == spec_partial(
                    old(self).buffer@,
                    start as int,
                    printable(s@.take(i as int)),
                ),
            decreases byte_len - i,
        {
            let c = s[i];
            proof {
                assert(s@.take(i + 1) =~= s@.take(i as int).push(s@[i as int]));
                lemma_printable_push(s@.take(i as int), s@[i as int]);
            }
            if c != 0 {
                if start + written < cap {
                    self.buffer.set(start + written, c);
                    written = written + 1;
                }
            }
            i = i + 1;
            proof {
                assert(self.buffer@ =~= spec_partial(
                    old(self).buffer@,
                    start as int,
                    printable(s@.take(i as int)),
                ));
            }
        }
        proof {
            assert(s@.take(byte_len as int) =~= s@);
        }
        self.pos = start + written;
        if self.pos < cap {
            let p = self.pos;
            self.buffer.set(p, 0);
        }
        proof {
            assert(self.buffer@ =~= spec_write_result(
                old(self).buffer@,
                start as int,
                printable(s@),
            ));
        }
    }
}

} // verus!
