//! A loopback transport: the simplest "thing that blocks".
//!
//! The channel stands for the kernel buffer between the two ends of a
//! connected pair. Writes append to it and block (report would-block) when
//! it is full; reads drain it in order and block when it is empty; both
//! may complete partially. Two ghost logs record every byte ever accepted
//! from the writer and every byte ever handed to the reader, so that
//! round-trip exactness is a stated invariant: the sent log is always the
//! received log followed by what is still in flight.

use vstd::prelude::*;

use crate::errors::IoErrorKind;

verus! {

/// The smaller of two mathematical integers.
pub open spec fn lesser(a: int, b: int) -> int {
    if a <= b {
        a
    } else {
        b
    }
}

/// The byte sequences a vector of buffers holds, in order.
pub open spec fn seq_views(bufs: Seq<Vec<u8>>) -> Seq<Seq<u8>> {
    bufs.map_values(|b: Vec<u8>| b@)
}

/// All the bytes of a sequence of segments, in order: what a gather
/// operation treats as one contiguous buffer.
pub open spec fn flat(segments: Seq<Seq<u8>>) -> Seq<u8>
    decreases segments.len(),
{
    if segments.len() == 0 {
        Seq::empty()
    } else {
        segments[0] + flat(segments.drop_first())
    }
}

/// The sum of a sequence of segment sizes.
pub open spec fn total_size(sizes: Seq<usize>) -> int
    decreases sizes.len(),
{
    if sizes.len() == 0 {
        0
    } else {
        sizes[0] + total_size(sizes.drop_first())
    }
}

/// Flattening splits at any segment boundary.
pub proof fn lemma_flat_split(segments: Seq<Seq<u8>>, i: int)
    requires
        0 <= i <= segments.len(),
    ensures
        flat(segments) == flat(segments.take(i)) + flat(segments.skip(i)),
    decreases i,
{
    if i == 0 {
        assert(segments.take(0) =~= Seq::<Seq<u8>>::empty());
        assert(segments.skip(0) =~= segments);
        assert(flat(segments.take(0)) + flat(segments.skip(0)) =~= flat(segments));
    } else {
        lemma_flat_split(segments.drop_first(), i - 1);
        assert(segments.drop_first().take(i - 1) =~= segments.take(i).drop_first());
        assert(segments.drop_first().skip(i - 1) =~= segments.skip(i));
        assert(flat(segments.take(i)) == segments.take(i)[0] + flat(segments.take(i).drop_first()));
        assert(flat(segments) =~= flat(segments.take(i)) + flat(segments.skip(i)));
    }
}

/// A sum of sizes splits at any boundary.
pub proof fn lemma_total_size_split(sizes: Seq<usize>, i: int)
    requires
        0 <= i <= sizes.len(),
    ensures
        total_size(sizes) == total_size(sizes.take(i)) + total_size(sizes.skip(i)),
    decreases i,
{
    if i == 0 {
        assert(sizes.take(0) =~= Seq::<usize>::empty());
        assert(sizes.skip(0) =~= sizes);
    } else {
        lemma_total_size_split(sizes.drop_first(), i - 1);
        assert(sizes.drop_first().take(i - 1) =~= sizes.take(i).drop_first());
        assert(sizes.drop_first().skip(i - 1) =~= sizes.skip(i));
        assert(total_size(sizes.take(i)) == sizes.take(i)[0] + total_size(
            sizes.take(i).drop_first(),
        ));
    }
}

/// Flattening commutes with appending one more segment.
pub proof fn lemma_flat_push(segments: Seq<Seq<u8>>, last: Seq<u8>)
    ensures
        flat(segments.push(last)) == flat(segments) + last,
{
    let p = segments.push(last);
    lemma_flat_split(p, segments.len() as int);
    assert(p.take(segments.len() as int) =~= segments);
    assert(p.skip(segments.len() as int) =~= seq![last]);
    assert(seq![last].drop_first() =~= Seq::<Seq<u8>>::empty());
    assert(flat(seq![last]) == last + flat(Seq::<Seq<u8>>::empty()));
    assert(flat(segments.push(last)) =~= flat(segments) + last);
}

/// A sum of sizes grows by the appended size.
pub proof fn lemma_total_size_push(sizes: Seq<usize>, last: usize)
    ensures
        total_size(sizes.push(last)) == total_size(sizes) + last,
{
    let p = sizes.push(last);
    lemma_total_size_split(p, sizes.len() as int);
    assert(p.take(sizes.len() as int) =~= sizes);
    assert(p.skip(sizes.len() as int) =~= seq![last]);
    assert(seq![last].drop_first() =~= Seq::<usize>::empty());
    assert(total_size(seq![last]) == last + total_size(Seq::<usize>::empty()));
}

/// Sizes are never negative, so a sum of them only grows with more of them.
pub proof fn lemma_total_size_nonneg(sizes: Seq<usize>)
    ensures
        0 <= total_size(sizes),
    decreases sizes.len(),
{
    if sizes.len() > 0 {
        lemma_total_size_nonneg(sizes.drop_first());
    }
}

/// Whether every segment size is zero, that is, the whole scatter request
/// asks for nothing.
fn all_sizes_zero(sizes: &Vec<usize>) -> (r: bool)
    ensures
        r <==> total_size(sizes@) == 0,
{
    let mut j: usize = 0;
    while j < sizes.len()
        invariant
            j <= sizes@.len(),
            total_size(sizes@.take(j as int)) == 0,
        decreases sizes@.len() - j,
    {
        if sizes[j] > 0 {
            proof {
                lemma_total_size_split(sizes@, j as int);
                lemma_total_size_nonneg(sizes@.take(j as int));
                assert(sizes@.skip(j as int)[0] == sizes@[j as int]);
                assert(total_size(sizes@.skip(j as int)) == sizes@[j as int] + total_size(
                    sizes@.skip(j as int).drop_first(),
                ));
                lemma_total_size_nonneg(sizes@.skip(j as int).drop_first());
            }
            return false;
        }
        proof {
            assert(sizes@.take(j as int + 1) =~= sizes@.take(j as int).push(sizes@[j as int]));
            lemma_total_size_push(sizes@.take(j as int), sizes@[j as int]);
        }
        j = j + 1;
    }
    proof {
        assert(sizes@.take(sizes@.len() as int) =~= sizes@);
    }
    true
}

/// Law: in every reachable channel state the bytes handed to the reader
/// are exactly a prefix of the bytes accepted from the writer — whatever
/// mixture of partial completions and retries produced them — and what is
/// missing is exactly what is still in flight.
pub proof fn received_is_prefix_of_sent(ch: LoopbackChannel)
    requires
        ch.wf(),
    ensures
        ch.received@ == ch.sent@.subrange(0, ch.received@.len() as int),
        ch.sent@.len() == ch.received@.len() + ch.data@.len(),
{
    assert(ch.received@ =~= ch.sent@.subrange(0, ch.received@.len() as int));
}

/// A bounded byte queue connecting a writing end to a reading end.
pub struct LoopbackChannel {
    /// Bytes accepted from the writer and not yet read, oldest first.
    pub data: Vec<u8>,
    /// How many bytes the channel holds at most; writes beyond it block.
    pub capacity: usize,
    /// Every byte ever accepted from the writer, in order.
    pub sent: Ghost<Seq<u8>>,
    /// Every byte ever handed to the reader, in order.
    pub received: Ghost<Seq<u8>>,
}

impl LoopbackChannel {
    /// Well-formedness: the queue respects its bound, and what was sent is
    /// exactly what was received followed by what is still in flight.
    pub open spec fn wf(self) -> bool {
        &&& self.data@.len() <= self.capacity
        &&& self.sent@ == self.received@ + self.data@
    }

    /// An empty channel with the given bound.
    pub fn new(capacity: usize) -> (ch: LoopbackChannel)
        ensures
            ch.wf(),
            ch.capacity == capacity,
            ch.data@ == Seq::<u8>::empty(),
            ch.sent@ == Seq::<u8>::empty(),
            ch.received@ == Seq::<u8>::empty(),
    {
        let ch = LoopbackChannel {
            data: Vec::new(),
            capacity,
            sent: Ghost(Seq::empty()),
            received: Ghost(Seq::empty()),
        };
        proof {
            assert(ch.sent@ =~= ch.received@ + ch.data@);
        }
        ch
    }

    /// A channel already holding `initial` bytes in flight, as if they had
    /// been written earlier and not yet read.
    pub fn with_contents(initial: Vec<u8>, capacity: usize) -> (ch: LoopbackChannel)
        requires
            initial@.len() <= capacity,
        ensures
            ch.wf(),
            ch.capacity == capacity,
            ch.data@ == initial@,
            ch.sent@ == initial@,
            ch.received@ == Seq::<u8>::empty(),
    {
        let ghost contents = initial@;
        let ch = LoopbackChannel {
            data: initial,
            capacity,
            sent: Ghost(contents),
            received: Ghost(Seq::empty()),
        };
        proof {
            assert(ch.sent@ =~= ch.received@ + ch.data@);
        }
        ch
    }

    /// The blocking write of the wrapped object: append as much of `buf`
    /// as fits, reporting how much was accepted. Completes partially when
    /// the channel has less room than `buf`, and reports would-block when
    /// there is something to write and no room at all. A write of nothing
    /// always completes with nothing accepted.
    pub fn try_write(&mut self, buf: &Vec<u8>) -> (r: Result<usize, IoErrorKind>)
        requires
            old(self).wf(),
        ensures
            final(self).wf(),
            final(self).capacity == old(self).capacity,
            final(self).received@ == old(self).received@,
            (r is Err) <==> (buf@.len() > 0 && old(self).data@.len() == old(self).capacity),
            r matches Err(e) ==> e == IoErrorKind::WouldBlock && *final(self) == *old(self),
            r matches Ok(n) ==> {
                &&& n as int == lesser(buf@.len() as int, old(self).capacity - old(self).data@.len())
                &&& final(self).data@ == old(self).data@ + buf@.subrange(0, n as int)
                &&& final(self).sent@ == old(self).sent@ + buf@.subrange(0, n as int)
            },
    {
        let space: usize = self.capacity - self.data.len();
        if buf.len() > 0 && space == 0 {
            return Err(IoErrorKind::WouldBlock);
        }
        let n: usize = if buf.len() <= space {
            buf.len()
        } else {
            space
        };
        let mut i: usize = 0;
        while i < n
            invariant
                i <= n,
                n <= buf@.len(),
                self.capacity == old(self).capacity,
                self.sent == old(self).sent,
                self.received == old(self).received,
                self.data@ == old(self).data@ + buf@.subrange(0, i as int),
                old(self).data@.len() + n <= self.capacity,
            decreases n - i,
        {
            self.data.push(buf[i]);
            proof {
                assert(self.data@ =~= old(self).data@ + buf@.subrange(0, i + 1));
            }
            i = i + 1;
        }
        self.sent = Ghost(self.sent@ + buf@.subrange(0, n as int));
        proof {
            assert(self.sent@ =~= self.received@ + self.data@);
        }
        Ok(n)
    }

    /// The blocking read of the wrapped object: take up to `max` bytes
    /// from the front of the channel, in order. Completes partially when
    /// fewer bytes are in flight than asked for, and reports would-block
    /// when something was asked for and nothing is in flight. A read of
    /// nothing always completes with nothing.
    pub fn try_read(&mut self, max: usize) -> (r: Result<Vec<u8>, IoErrorKind>)
        requires
            old(self).wf(),
        ensures
            final(self).wf(),
            final(self).capacity == old(self).capacity,
            final(self).sent@ == old(self).sent@,
            (r is Err) <==> (max > 0 && old(self).data@.len() == 0),
            r matches Err(e) ==> e == IoErrorKind::WouldBlock && *final(self) == *old(self),
            r matches Ok(bytes) ==> {
                &&& bytes@.len() as int == lesser(max as int, old(self).data@.len() as int)
                &&& bytes@ == old(self).data@.subrange(0, bytes@.len() as int)
                &&& final(self).data@ == old(self).data@.subrange(
                    bytes@.len() as int,
                    old(self).data@.len() as int,
                )
                &&& final(self).received@ == old(self).received@ + bytes@
            },
    {
        if max > 0 && self.data.len() == 0 {
            return Err(IoErrorKind::WouldBlock);
        }
        let m: usize = if max <= self.data.len() {
            max
        } else {
            self.data.len()
        };
        let mut bytes: Vec<u8> = Vec::new();
        let mut i: usize = 0;
        while i < m
            invariant
                i <= m,
                m <= self.data@.len(),
                *self == *old(self),
                bytes@ == self.data@.subrange(0, i as int),
            decreases m - i,
        {
            bytes.push(self.data[i]);
            proof {
                assert(bytes@ =~= self.data@.subrange(0, i + 1));
            }
            i = i + 1;
        }
        let mut rest: Vec<u8> = Vec::new();
        let mut j: usize = m;
        while j < self.data.len()
            invariant
                m <= j <= self.data@.len(),
                *self == *old(self),
                rest@ == self.data@.subrange(m as int, j as int),
            decreases self.data@.len() - j,
        {
            rest.push(self.data[j]);
            proof {
                assert(rest@ =~= self.data@.subrange(m as int, j + 1));
            }
            j = j + 1;
        }
        self.data = rest;
        self.received = Ghost(self.received@ + bytes@);
        proof {
            assert(self.sent@ =~= self.received@ + self.data@);
        }
        Ok(bytes)
    }

    /// The blocking gather-write of the wrapped object: write the segments
    /// of `bufs` as one contiguous buffer, accepting as much of it as
    /// fits, front first. Like the scalar write it may complete partially
    /// — in the middle of a segment, or before the later segments — and
    /// reports would-block exactly when there is something to write and no
    /// room at all.
    pub fn try_write_vectored(&mut self, bufs: &Vec<Vec<u8>>) -> (r: Result<usize, IoErrorKind>)
        requires
            old(self).wf(),
        ensures
            final(self).wf(),
            final(self).capacity == old(self).capacity,
            final(self).received@ == old(self).received@,
            (r is Err) <==> (flat(seq_views(bufs@)).len() > 0 && old(self).data@.len() == old(
                self,
            ).capacity),
            r matches Err(e) ==> e == IoErrorKind::WouldBlock && final(self).data@ == old(
                self,
            ).data@ && final(self).sent@ == old(self).sent@,
            r matches Ok(n) ==> {
                &&& n as int == lesser(
                    flat(seq_views(bufs@)).len() as int,
                    old(self).capacity - old(self).data@.len(),
                )
                &&& final(self).data@ == old(self).data@ + flat(seq_views(bufs@)).subrange(
                    0,
                    n as int,
                )
                &&& final(self).sent@ == old(self).sent@ + flat(seq_views(bufs@)).subrange(
                    0,
                    n as int,
                )
            },
    {
        let ghost all: Seq<Seq<u8>> = seq_views(bufs@);
        let mut i: usize = 0;
        let mut n: usize = 0;
        while i < bufs.len()
            invariant
                self.wf(),
                self.capacity == old(self).capacity,
                self.received@ == old(self).received@,
                i <= bufs@.len(),
                all == seq_views(bufs@),
                n as int == flat(all.take(i as int)).len(),
                self.data@ == old(self).data@ + flat(all.take(i as int)),
                self.sent@ == old(self).sent@ + flat(all.take(i as int)),
                old(self).wf(),
            decreases bufs@.len() - i,
        {
            proof {
                lemma_flat_split(all, i as int);
                assert(all.skip(i as int)[0] == all[i as int]);
                assert(all.skip(i as int).drop_first() =~= all.skip(i as int + 1));
            }
            match self.try_write(&bufs[i]) {
                Err(e) => {
                    // This segment holds bytes and the channel is full.
                    if n == 0 {
                        proof {
                            assert(flat(all.take(i as int)) =~= Seq::<u8>::empty());
                            assert(self.data@ =~= old(self).data@);
                            assert(self.sent@ =~= old(self).sent@);
                        }
                        return Err(e);
                    }
                    // Earlier segments filled the channel to the brim.
                    proof {
                        assert(flat(all).subrange(0, n as int) =~= flat(all.take(i as int)));
                    }
                    return Ok(n);
                },
                Ok(w) => {
                    proof {
                        lemma_flat_split(all.take(i as int + 1), i as int);
                        assert(all.take(i as int + 1).take(i as int) =~= all.take(i as int));
                        assert(all.take(i as int + 1).skip(i as int) =~= seq![all[i as int]]);
                        assert(seq![all[i as int]].drop_first() =~= Seq::<Seq<u8>>::empty());
                        assert(flat(seq![all[i as int]]) == all[i as int] + flat(
                            Seq::<Seq<u8>>::empty(),
                        ));
                        assert(flat(seq![all[i as int]]) =~= all[i as int]);
                        assert(flat(all.skip(i as int)) == all[i as int] + flat(
                            all.skip(i as int + 1),
                        ));
                        assert(flat(all).len() >= flat(all.take(i as int)).len() + all[
                            i as int
                        ].len());
                    }
                    if w < bufs[i].len() {
                        // Partial completion: the channel is now full and
                        // the accepted bytes are a prefix of the flattened
                        // buffer that ends inside this segment.
                        proof {
                            assert(flat(all).subrange(0, n + w) =~= flat(all.take(i as int))
                                + all[i as int].subrange(0, w as int));
                            assert(self.data@ =~= old(self).data@ + (flat(all.take(i as int))
                                + all[i as int].subrange(0, w as int)));
                            assert(self.data@ =~= old(self).data@ + flat(all).subrange(0, n + w));
                            assert(self.sent@ =~= old(self).sent@ + (flat(all.take(i as int))
                                + all[i as int].subrange(0, w as int)));
                            assert(self.sent@ =~= old(self).sent@ + flat(all).subrange(0, n + w));
                        }
                        return Ok(n + w);
                    }
                    proof {
                        assert(bufs@[i as int]@.subrange(0, w as int) =~= all[i as int]);
                        assert(flat(all.take(i as int + 1)) =~= flat(all.take(i as int)) + all[
                            i as int
                        ]);
                        assert(self.data@.subrange(
                            old(self).data@.len() as int,
                            self.data@.len() as int,
                        ) =~= flat(all.take(i as int)) + all[i as int]);
                        assert(self.data@ =~= old(self).data@ + flat(all.take(i as int + 1)));
                        assert(self.sent@ =~= old(self).sent@ + flat(all.take(i as int + 1)));
                    }
                    n = n + w;
                    i = i + 1;
                },
            }
        }
        proof {
            assert(all.take(bufs@.len() as int) =~= all);
            assert(flat(all).subrange(0, n as int) =~= flat(all));
        }
        Ok(n)
    }

    /// The blocking scatter-read of the wrapped object: fill segments of
    /// the given sizes, in order, from the front of the channel, as one
    /// contiguous read. Earlier segments are filled before later ones, the
    /// read may complete partially — in the middle of a segment, leaving
    /// the rest empty — and it reports would-block exactly when something
    /// was asked for and nothing is in flight.
    pub fn try_read_vectored(&mut self, sizes: &Vec<usize>) -> (r: Result<
        Vec<Vec<u8>>,
        IoErrorKind,
    >)
        requires
            old(self).wf(),
        ensures
            final(self).wf(),
            final(self).capacity == old(self).capacity,
            final(self).sent@ == old(self).sent@,
            (r is Err) <==> (total_size(sizes@) > 0 && old(self).data@.len() == 0),
            r matches Err(e) ==> e == IoErrorKind::WouldBlock && *final(self) == *old(self),
            r matches Ok(segs) ==> {
                &&& segs@.len() == sizes@.len()
                &&& forall|k: int|
                    0 <= k < segs@.len() ==> (#[trigger] segs@[k])@.len() <= sizes@[k]
                &&& flat(seq_views(segs@)).len() as int == lesser(
                    total_size(sizes@),
                    old(self).data@.len() as int,
                )
                &&& flat(seq_views(segs@)) == old(self).data@.subrange(
                    0,
                    flat(seq_views(segs@)).len() as int,
                )
                &&& final(self).data@ == old(self).data@.subrange(
                    flat(seq_views(segs@)).len() as int,
                    old(self).data@.len() as int,
                )
                &&& final(self).received@ == old(self).received@ + flat(seq_views(segs@))
            },
    {
        proof {
            lemma_total_size_nonneg(sizes@);
        }
        if self.data.len() == 0 && !all_sizes_zero(sizes) {
            return Err(IoErrorKind::WouldBlock);
        }
        let ghost old_len: int = self.data@.len() as int;
        let mut out: Vec<Vec<u8>> = Vec::new();
        let mut consumed: usize = 0;
        let mut j: usize = 0;
        proof {
            assert(seq_views(out@) =~= Seq::<Seq<u8>>::empty());
            assert(sizes@.take(0) =~= Seq::<usize>::empty());
            assert(self.data@.subrange(0, 0) =~= Seq::<u8>::empty());
            assert(flat(seq_views(out@)) =~= self.data@.subrange(0, 0));
        }
        while j < sizes.len()
            invariant
                old(self).wf(),
                self.wf(),
                self.capacity == old(self).capacity,
                self.sent@ == old(self).sent@,
                j <= sizes@.len(),
                out@.len() == j,
                old_len == old(self).data@.len(),
                forall|k: int| 0 <= k < j ==> (#[trigger] out@[k])@.len() <= sizes@[k],
                consumed as int == lesser(total_size(sizes@.take(j as int)), old_len),
                flat(seq_views(out@)) == old(self).data@.subrange(0, consumed as int),
                self.data@ == old(self).data@.subrange(consumed as int, old_len),
                self.received@ == old(self).received@ + old(self).data@.subrange(
                    0,
                    consumed as int,
                ),
            decreases sizes@.len() - j,
        {
            proof {
                assert(sizes@.take(j as int + 1) =~= sizes@.take(j as int).push(sizes@[j as int]));
                lemma_total_size_push(sizes@.take(j as int), sizes@[j as int]);
                lemma_total_size_nonneg(sizes@.take(j as int));
            }
            if sizes[j] > 0 && self.data.len() == 0 {
                // The channel drained inside an earlier segment: the read
                // already completed partially and this segment stays empty.
                let ghost out_prev = out@;
                out.push(Vec::new());
                proof {
                    assert(seq_views(out@) =~= seq_views(out_prev).push(Seq::<u8>::empty()));
                    lemma_flat_push(seq_views(out_prev), Seq::<u8>::empty());
                    assert(flat(seq_views(out@)) =~= old(self).data@.subrange(0, consumed as int));
                }
            } else {
                match self.try_read(sizes[j]) {
                    Ok(bytes) => {
                        let w: usize = bytes.len();
                        proof {
                            assert(old(self).data@.subrange(consumed as int, old_len).subrange(
                                0,
                                w as int,
                            ) =~= old(self).data@.subrange(consumed as int, consumed + w));
                            assert(old(self).data@.subrange(consumed as int, old_len).subrange(
                                w as int,
                                old_len - consumed,
                            ) =~= old(self).data@.subrange(consumed + w, old_len));
                            assert(old(self).received@ + old(self).data@.subrange(
                                0,
                                consumed as int,
                            ) + old(self).data@.subrange(consumed as int, consumed + w) =~= old(
                                self,
                            ).received@ + old(self).data@.subrange(0, consumed + w));
                        }
                        let ghost taken = bytes@;
                        let ghost out_prev = out@;
                        out.push(bytes);
                        proof {
                            assert(seq_views(out@) =~= seq_views(out_prev).push(taken));
                            lemma_flat_push(seq_views(out_prev), taken);
                            assert(taken =~= old(self).data@.subrange(consumed as int, consumed
                                + w));
                            assert(flat(seq_views(out@)) =~= old(self).data@.subrange(
                                0,
                                consumed + w,
                            ));
                        }
                        consumed = consumed + w;
                    },
                    Err(_) => {
                        proof {
                            assert(false);
                        }
                    },
                }
            }
            j = j + 1;
        }
        proof {
            assert(sizes@.take(sizes@.len() as int) =~= sizes@);
        }
        Ok(out)
    }

    /// The blocking flush of the wrapped object: the channel buffers
    /// nothing of its own, so there is never anything to make visible and
    /// a flush always completes at once.
    pub fn try_flush(&mut self) -> (r: Result<(), IoErrorKind>)
        requires
            old(self).wf(),
        ensures
            final(self).wf(),
            *final(self) == *old(self),
            r is Ok,
    {
        Ok(())
    }
}

} // verus!
