//! Relay of bytes from one stream to another until end of input.
//!
//! A stream is seen through two small traits. A stream may come with a
//! mathematical model: a source is then the finite sequence of bytes it has
//! yet to hand out, a sink the sequence of bytes it has taken so far. What
//! the relay guarantees of the bytes, it guarantees of modelled streams; of a
//! stream without a model nothing is assumed, and every answer it gives is
//! checked before it is used.

use vstd::prelude::*;

verus! {

/// A read or write that the stream could not complete.
#[derive(Clone, Copy, Debug, PartialEq, Eq)]
pub struct StreamFault {}

/// Why a relay stopped.
#[derive(Clone, Copy, Debug, PartialEq, Eq)]
pub enum RelayEnd {
    /// The source signalled end of stream; every byte it gave was delivered.
    Drained,
    /// A read failed.
    SourceFailed,
    /// A write failed, or the sink took nothing of a non-empty buffer.
    SinkFailed,
    /// The source was read as often as the relay allows and had still not
    /// ended.
    Exhausted,
}

/// The most reads that one relay makes.
pub const MAX_READS: u64 = u64::MAX;

/// A readable stream of bytes.
pub trait ByteSource {
    /// Whether the stream keeps to the model that `pending` and `reliable`
    /// give. A stream that does not say so promises nothing.
    open spec fn modelled(&self) -> bool {
        false
    }

    /// The bytes that the stream has not handed out yet, in order.
    open spec fn pending(&self) -> Seq<u8> {
        Seq::empty()
    }

    /// Whether no read of this stream will ever fail.
    open spec fn reliable(&self) -> bool {
        false
    }

    /// Hands out the next bytes of the stream. A chunk may hold any part of
    /// what is pending; it is empty only at end of stream. A failed read
    /// takes nothing.
    fn next_chunk(&mut self) -> (r: Result<Vec<u8>, StreamFault>)
        ensures
            old(self).modelled() ==> final(self).modelled(),
            old(self).modelled() ==> match r {
                Ok(chunk) => old(self).pending() == chunk@ + final(self).pending() && (chunk@.len()
                    == 0 <==> old(self).pending().len() == 0),
                Err(_) => final(self).pending() == old(self).pending(),
            },
            old(self).modelled() && old(self).reliable() ==> r is Ok && final(self).reliable(),
    ;
}

/// A writable stream of bytes.
pub trait ByteSink {
    /// Whether the stream keeps to the model that `received` and `reliable`
    /// give. A stream that does not say so promises nothing.
    open spec fn modelled(&self) -> bool {
        false
    }

    /// The bytes that the stream has taken so far, in order.
    open spec fn received(&self) -> Seq<u8> {
        Seq::empty()
    }

    /// Whether every write to this stream will take at least one byte.
    open spec fn reliable(&self) -> bool {
        false
    }

    /// Offers the bytes of `data` from index `from` on. The sink takes some
    /// prefix of them, possibly not all, and says how many. A failed write
    /// takes nothing.
    fn write(&mut self, data: &Vec<u8>, from: usize) -> (r: Result<usize, StreamFault>)
        requires
            from < data@.len(),
        ensures
            old(self).modelled() ==> final(self).modelled(),
            old(self).modelled() ==> match r {
                Ok(n) => from + n <= data@.len() && final(self).received() == old(self).received()
                    + data@.subrange(from as int, from + n),
                Err(_) => final(self).received() == old(self).received(),
            },
            old(self).modelled() && old(self).reliable() ==> r is Ok && r->Ok_0 >= 1 && final(self).reliable(),
    ;
}

/// What a sink has taken since it held `before`.
pub open spec fn delivered(before: Seq<u8>, after: Seq<u8>) -> Seq<u8> {
    after.skip(before.len() as int)
}

/// How a relay that ended with `end` has moved bytes: the source held
/// `pending` and the sink `before` when it began, `left` and `after` when it
/// ended. What the sink gained is a prefix of what the source held, unchanged
/// and in order; on `Drained` it is all of it.
pub open spec fn relayed(
    pending: Seq<u8>,
    left: Seq<u8>,
    before: Seq<u8>,
    after: Seq<u8>,
    end: RelayEnd,
) -> bool {
    let gained = delivered(before, after);
    &&& after == before + gained
    &&& gained.is_prefix_of(pending)
    &&& end == RelayEnd::Drained ==> left.len() == 0 && gained == pending
    &&& end == RelayEnd::SourceFailed ==> pending == gained + left
    &&& end == RelayEnd::SinkFailed ==> gained.len() < pending.len()
    &&& end == RelayEnd::Exhausted ==> pending == gained + left
}

/// Copies `source` to `dest` until end of stream, the first failure, or
/// `max_reads` reads of the source.
///
/// Between modelled streams, bytes arrive unchanged and in order, whatever
/// the sizes of the chunks read and of the parts that each write takes. Two
/// reliable modelled streams end with `Drained`, the sink holding all that
/// the source held, where the source holds fewer than `max_reads` bytes.
pub fn relay_bounded<S: ByteSource, D: ByteSink>(
    source: &mut S,
    dest: &mut D,
    max_reads: u64,
) -> (end: RelayEnd)
    ensures
        old(source).modelled() ==> final(source).modelled(),
        old(dest).modelled() ==> final(dest).modelled(),
        old(source).modelled() && old(dest).modelled() ==> relayed(
            old(source).pending(),
            final(source).pending(),
            old(dest).received(),
            final(dest).received(),
            end,
        ),
        old(source).modelled() && old(source).reliable() ==> end != RelayEnd::SourceFailed,
        old(dest).modelled() && old(dest).reliable() ==> end != RelayEnd::SinkFailed,
        old(source).modelled() && old(source).pending().len() < max_reads ==> end
            != RelayEnd::Exhausted,
{
    let ghost all = source.pending();
    let ghost before = dest.received();
    let ghost sm = source.modelled();
    let ghost dm = dest.modelled();
    let ghost src_ok = sm && source.reliable();
    let ghost dst_ok = dm && dest.reliable();
    let ghost sent: Seq<u8> = Seq::empty();
    let mut end = RelayEnd::Exhausted;
    let mut running = true;
    let mut reads: u64 = 0;
    proof {
        assert(before + sent =~= before);
        assert(sent + all =~= all);
    }
    while running && reads < max_reads
        invariant
            reads <= max_reads,
            src_ok ==> sm,
            dst_ok ==> dm,
            sm ==> source.modelled(),
            dm ==> dest.modelled(),
            dm ==> dest.received() == before + sent,
            running && sm ==> reads + source.pending().len() <= all.len(),
            running ==> end == RelayEnd::Exhausted,
            running && sm && dm ==> all == sent + source.pending(),
            running && src_ok ==> source.reliable(),
            running && dst_ok ==> dest.reliable(),
            !running ==> end != RelayEnd::Exhausted,
            !running && sm && dm ==> sent.is_prefix_of(all),
            !running && sm && dm && end == RelayEnd::Drained ==> source.pending().len() == 0
                && sent == all,
            !running && sm && dm && end == RelayEnd::SourceFailed ==> all == sent
                + source.pending(),
            !running && sm && dm && end == RelayEnd::SinkFailed ==> sent.len() < all.len(),
            !running && src_ok ==> end != RelayEnd::SourceFailed,
            !running && dst_ok ==> end != RelayEnd::SinkFailed,
        decreases max_reads - reads + (if running { 1nat } else { 0nat }),
    {
        reads = reads + 1;
        match source.next_chunk() {
            Err(_) => {
                end = RelayEnd::SourceFailed;
                running = false;
                proof {
                    assert(sent.is_prefix_of(sent + source.pending()));
                }
            },
            Ok(chunk) => {
                if chunk.len() == 0 {
                    end = RelayEnd::Drained;
                    running = false;
                    proof {
                        if sm {
                            assert(sent + source.pending() =~= sent);
                        }
                    }
                } else {
                    let mut off: usize = 0;
                    let ghost base = sent;
                    proof {
                        assert(base + chunk@.take(0) =~= base);
                    }
                    while running && off < chunk.len()
                        invariant
                            off <= chunk@.len(),
                            chunk@.len() > 0,
                            src_ok ==> sm,
                            dst_ok ==> dm,
                            sm ==> source.modelled(),
                            sm ==> reads + source.pending().len() <= all.len(),
                            src_ok ==> source.reliable(),
                            dm ==> dest.modelled(),
                            dm ==> sent == base + chunk@.take(off as int),
                            dm ==> dest.received() == before + sent,
                            sm && dm ==> all == base + chunk@ + source.pending(),
                            running ==> end == RelayEnd::Exhausted,
                            running && dst_ok ==> dest.reliable(),
                            !running ==> end == RelayEnd::SinkFailed && off < chunk@.len()
                                && !dst_ok,
                        decreases chunk@.len() - off + (if running { 1nat } else { 0nat }),
                    {
                        match dest.write(&chunk, off) {
                            Ok(n) => {
                                if n == 0 || n > chunk.len() - off {
                                    end = RelayEnd::SinkFailed;
                                    running = false;
                                } else {
                                    proof {
                                        if dm {
                                            assert(chunk@.take(off as int) + chunk@.subrange(
                                                off as int,
                                                off + n,
                                            ) =~= chunk@.take(off + n));
                                            sent = base + chunk@.take(off + n);
                                            assert(dest.received() =~= before + sent);
                                        }
                                    }
                                    off = off + n;
                                }
                            },
                            Err(_) => {
                                end = RelayEnd::SinkFailed;
                                running = false;
                            },
                        }
                    }
                    proof {
                        if sm && dm {
                            assert(sent.is_prefix_of(all)) by {
                                assert(all =~= sent + (chunk@.skip(off as int)
                                    + source.pending()));
                            }
                            if running {
                                assert(chunk@.take(off as int) =~= chunk@);
                            }
                        }
                    }
                }
            },
        }
    }
    proof {
        if dm {
            assert(delivered(before, dest.received()) =~= sent);
        }
        if running && sm && dm {
            assert(sent.is_prefix_of(sent + source.pending()));
        }
    }
    end
}

/// Copies `source` to `dest` until end of stream or the first failure,
/// reading the source at most `MAX_READS` times.
///
/// Between modelled streams, bytes arrive unchanged and in order, whatever
/// the sizes of the chunks read and of the parts that each write takes. Two
/// reliable modelled streams end with `Drained`, the sink holding all that
/// the source held, where the source holds fewer than `MAX_READS` bytes.
pub fn run_stream_pipe<S: ByteSource, D: ByteSink>(source: &mut S, dest: &mut D) -> (end: RelayEnd)
    ensures
        old(source).modelled() ==> final(source).modelled(),
        old(dest).modelled() ==> final(dest).modelled(),
        old(source).modelled() && old(dest).modelled() ==> relayed(
            old(source).pending(),
            final(source).pending(),
            old(dest).received(),
            final(dest).received(),
            end,
        ),
        old(source).modelled() && old(source).reliable() ==> end != RelayEnd::SourceFailed,
        old(dest).modelled() && old(dest).reliable() ==> end != RelayEnd::SinkFailed,
        old(source).modelled() && old(source).pending().len() < MAX_READS ==> end
            != RelayEnd::Exhausted,
{
    relay_bounded(source, dest, MAX_READS)
}

/// Bytes pass the relay whole: one that ended with `Drained` leaves the sink
/// with what it held before, followed by every byte that the source held, in
/// order, and leaves the source empty.
pub proof fn lemma_drained_relay_is_whole(
    pending: Seq<u8>,
    left: Seq<u8>,
    before: Seq<u8>,
    after: Seq<u8>,
    end: RelayEnd,
)
    requires
        relayed(pending, left, before, after, end),
        end == RelayEnd::Drained,
    ensures
        after == before + pending,
        left.len() == 0,
{
}

} // verus!
