//! The pipe I/O engine: the decisions of a transfer, apart from the native calls.
//!
//! A transfer is a small state machine. The caller asks it for the next
//! `TransferStep`, makes the native call that the step names, and hands the
//! outcome back; once the step is `Finished`, `into_result` gives the outcome
//! of the whole transfer. A failed native transfer is always followed by an
//! abort on the same pipe, and the error that is reported is the one of the
//! transfer, never one of the abort.
use vstd::prelude::*;

use crate::error::D3xxError;
use crate::pipe::Pipe;

verus! {

/// The block size of a streaming transfer that suits the FT60x family best.
pub const BLOCK_SIZE: usize = 32768;

/// The largest number of bytes that one native transfer call can move.
pub const MAX_NATIVE_TRANSFER: usize = 0xffff_ffff;

/// What a transfer asks of the driver next.
#[derive(Debug, Clone, Copy, PartialEq, Eq, Structural)]
pub enum TransferStep {
    /// Move `len` bytes of the caller's buffer, starting at `offset`, over `pipe`.
    Transfer { pipe: Pipe, offset: usize, len: usize },
    /// Abort all pending transfers on `pipe`.
    Abort { pipe: Pipe },
    /// Nothing more: the outcome is ready.
    Finished,
}

/// Whether a pipe carries data in the direction of the transfer.
pub open spec fn direction_matches(pipe: Pipe, write: bool) -> bool {
    pipe.spec_is_read() != write
}

fn check_direction(pipe: Pipe, write: bool) -> (r: bool)
    ensures
        r == direction_matches(pipe, write),
{
    if write {
        pipe.is_write_pipe()
    } else {
        pipe.is_read_pipe()
    }
}

// ---------------------------------------------------------------------------
// One native transfer
/// The stage of a single pipe transfer.
#[derive(Debug, Clone, Copy)]
pub enum SinglePhase {
    Pending,
    Aborting(D3xxError),
    Finished(Result<usize, D3xxError>),
}

/// A read or write of a whole buffer in one native call.
#[derive(Debug, Clone, Copy)]
pub struct PipeTransfer {
    pub pipe: Pipe,
    pub len: usize,
    pub phase: SinglePhase,
}

impl PipeTransfer {
    /// The state in which a transfer of `len` bytes over `pipe` starts.
    pub open spec fn initial(pipe: Pipe, write: bool, len: usize) -> PipeTransfer {
        PipeTransfer {
            pipe,
            len,
            phase: if !direction_matches(pipe, write) || len > MAX_NATIVE_TRANSFER {
                SinglePhase::Finished(Err(D3xxError::InvalidParameter))
            } else {
                SinglePhase::Pending
            },
        }
    }

    pub open spec fn spec_step(self) -> TransferStep {
        match self.phase {
            SinglePhase::Pending => TransferStep::Transfer { pipe: self.pipe, offset: 0, len: self.len },
            SinglePhase::Aborting(_) => TransferStep::Abort { pipe: self.pipe },
            SinglePhase::Finished(_) => TransferStep::Finished,
        }
    }

    /// The state after the native transfer returned `reply`: the number of
    /// bytes moved, or the error that the transfer ended with.
    pub open spec fn after_transfer(self, reply: Result<usize, D3xxError>) -> PipeTransfer {
        match reply {
            Ok(n) => PipeTransfer { phase: SinglePhase::Finished(Ok(n)), ..self },
            Err(e) => PipeTransfer { phase: SinglePhase::Aborting(e), ..self },
        }
    }

    /// The state after the abort that followed a failed transfer.
    pub open spec fn after_abort(self) -> PipeTransfer {
        match self.phase {
            SinglePhase::Aborting(e) => PipeTransfer { phase: SinglePhase::Finished(Err(e)), ..self },
            _ => self,
        }
    }

    /// Starts a read of `len` bytes from `pipe`. A pipe that is not a read
    /// pipe, or a length that one native call cannot carry, ends the transfer
    /// at once with `InvalidParameter`, before any native call.
    pub fn read(pipe: Pipe, len: usize) -> (r: PipeTransfer)
        ensures
            r == PipeTransfer::initial(pipe, false, len),
    {
        PipeTransfer::start(pipe, false, len)
    }

    /// Starts a write of `len` bytes to `pipe`. A pipe that is not a write
    /// pipe, or a length that one native call cannot carry, ends the transfer
    /// at once with `InvalidParameter`, before any native call.
    pub fn write(pipe: Pipe, len: usize) -> (r: PipeTransfer)
        ensures
            r == PipeTransfer::initial(pipe, true, len),
    {
        PipeTransfer::start(pipe, true, len)
    }

    fn start(pipe: Pipe, write: bool, len: usize) -> (r: PipeTransfer)
        ensures
            r == PipeTransfer::initial(pipe, write, len),
    {
        let phase = if !check_direction(pipe, write) || len > MAX_NATIVE_TRANSFER {
            SinglePhase::Finished(Err(D3xxError::InvalidParameter))
        } else {
            SinglePhase::Pending
        };
        PipeTransfer { pipe, len, phase }
    }

    /// The native call to make next.
    pub fn step(&self) -> (r: TransferStep)
        ensures
            r == self.spec_step(),
    {
        match self.phase {
            SinglePhase::Pending => TransferStep::Transfer { pipe: self.pipe, offset: 0, len: self.len },
            SinglePhase::Aborting(_) => TransferStep::Abort { pipe: self.pipe },
            SinglePhase::Finished(_) => TransferStep::Finished,
        }
    }

    /// Records the outcome of the native transfer.
    pub fn on_transfer(&mut self, reply: Result<usize, D3xxError>)
        requires
            old(self).spec_step() is Transfer,
        ensures
            *final(self) == old(self).after_transfer(reply),
    {
        match reply {
            Ok(n) => {
                self.phase = SinglePhase::Finished(Ok(n));
            },
            Err(e) => {
                self.phase = SinglePhase::Aborting(e);
            },
        }
    }

    /// Records that the abort after a failed transfer has returned, whatever
    /// its outcome.
    pub fn on_abort(&mut self)
        requires
            old(self).spec_step() is Abort,
        ensures
            *final(self) == old(self).after_abort(),
    {
        if let SinglePhase::Aborting(e) = self.phase {
            self.phase = SinglePhase::Finished(Err(e));
        }
    }

    /// The outcome of the finished transfer: the number of bytes moved.
    pub fn into_result(self) -> (r: Result<usize, D3xxError>)
        requires
            self.spec_step() is Finished,
        ensures
            self.phase == SinglePhase::Finished(r),
    {
        match self.phase {
            SinglePhase::Finished(r) => r,
            // Not reached: the transfer is finished.
            SinglePhase::Pending => Err(D3xxError::OtherError),
            SinglePhase::Aborting(e) => Err(e),
        }
    }
}

/// A single transfer either succeeds with the count that the driver reported,
/// or fails with the driver's own error after exactly one abort on its pipe.
pub proof fn lemma_single_transfer_outcome(pipe: Pipe, write: bool, len: usize, reply: Result<usize, D3xxError>)
    requires
        direction_matches(pipe, write),
        len <= MAX_NATIVE_TRANSFER,
    ensures
        PipeTransfer::initial(pipe, write, len).spec_step() == (TransferStep::Transfer { pipe, offset: 0, len }),
        ({
            let t = PipeTransfer::initial(pipe, write, len).after_transfer(reply);
            match reply {
                Ok(n) => t.spec_step() is Finished && t.phase == SinglePhase::Finished(Ok(n)),
                Err(e) => t.spec_step() == (TransferStep::Abort { pipe }) && t.after_abort().spec_step() is Finished
                    && t.after_abort().phase == SinglePhase::Finished(Err(e)),
            }
        }),
{
}

// ---------------------------------------------------------------------------
// Streaming transfer in fixed-size blocks
/// Why a streaming transfer failed. `E` is the error type of the driver.
#[derive(Debug, PartialEq, Eq)]
pub enum StreamError<E> {
    /// A native transfer failed with this error.
    Driver(E),
    /// The pipe does not carry data in the direction of the transfer.
    InvalidParameter,
    /// A block was read only in part.
    ReadError,
    /// A block was written only in part.
    WriteError,
}

/// The error that a partly moved block gives.
pub open spec fn short_block_error<E>(write: bool) -> StreamError<E> {
    if write {
        StreamError::WriteError
    } else {
        StreamError::ReadError
    }
}

/// The stage of a streaming transfer.
#[derive(Debug)]
pub enum StreamPhase<E> {
    Moving,
    Aborting(StreamError<E>),
    Finished(Result<usize, StreamError<E>>),
}

/// The length of the block that starts at `offset` of a buffer of `total` bytes.
pub open spec fn block_len(total: usize, block: usize, offset: usize) -> usize {
    if total - offset < block {
        (total - offset) as usize
    } else {
        block
    }
}

/// A read or write of a buffer in blocks of a fixed size, one native transfer
/// per block, in order.
#[derive(Debug)]
pub struct ChunkedTransfer<E> {
    pipe: Pipe,
    write: bool,
    total: usize,
    block: usize,
    done: usize,
    chunks: usize,
    phase: StreamPhase<E>,
}

/// What a `ChunkedTransfer` holds: the pipe and direction, the buffer length
/// and block size, the bytes moved and blocks completed so far, and the stage.
pub struct StreamModel<E> {
    pub pipe: Pipe,
    pub write: bool,
    pub total: usize,
    pub block: usize,
    pub done: usize,
    pub chunks: usize,
    pub phase: StreamPhase<E>,
}

impl<E> StreamModel<E> {
    /// The state in which a transfer of `total` bytes in blocks of `block` starts.
    pub open spec fn initial(pipe: Pipe, write: bool, total: usize, block: usize) -> StreamModel<E> {
        StreamModel {
            pipe,
            write,
            total,
            block,
            done: 0,
            chunks: 0,
            phase: if !direction_matches(pipe, write) {
                StreamPhase::Finished(Err(StreamError::InvalidParameter))
            } else if total == 0 {
                StreamPhase::Finished(Ok(0))
            } else {
                StreamPhase::Moving
            },
        }
    }

    pub open spec fn wf(self) -> bool {
        &&& self.block > 0
        &&& self.done <= self.total
        &&& !(self.phase is Finished) ==> self.done == self.chunks * self.block
        &&& self.phase is Moving ==> self.done < self.total
        &&& self.phase matches StreamPhase::Finished(Ok(n)) ==> n == self.total && self.done == self.total
    }

    pub open spec fn spec_step(self) -> TransferStep {
        match self.phase {
            StreamPhase::Moving => TransferStep::Transfer {
                pipe: self.pipe,
                offset: self.done,
                len: block_len(self.total, self.block, self.done),
            },
            StreamPhase::Aborting(_) => TransferStep::Abort { pipe: self.pipe },
            StreamPhase::Finished(_) => TransferStep::Finished,
        }
    }

    /// The state after the native transfer of the current block returned
    /// `reply`: the number of bytes moved, or the driver's error.
    pub open spec fn after_transfer(self, reply: Result<usize, E>) -> StreamModel<E> {
        let len = block_len(self.total, self.block, self.done);
        match reply {
            Ok(n) => if n == len {
                let done = (self.done + len) as usize;
                StreamModel {
                    done,
                    chunks: (self.chunks + 1) as usize,
                    phase: if done == self.total {
                        StreamPhase::Finished(Ok(self.total))
                    } else {
                        StreamPhase::Moving
                    },
                    ..self
                }
            } else {
                StreamModel { phase: StreamPhase::Aborting(short_block_error(self.write)), ..self }
            },
            Err(e) => StreamModel { phase: StreamPhase::Aborting(StreamError::Driver(e)), ..self },
        }
    }

    /// The state after the abort that followed a failed block.
    pub open spec fn after_abort(self) -> StreamModel<E> {
        match self.phase {
            StreamPhase::Aborting(e) => StreamModel { phase: StreamPhase::Finished(Err(e)), ..self },
            _ => self,
        }
    }

    /// The state after `k` blocks in a row were moved in full.
    pub open spec fn after_full_blocks(self, k: nat) -> StreamModel<E>
        decreases k,
    {
        if k == 0 {
            self
        } else {
            let s = self.after_full_blocks((k - 1) as nat);
            s.after_transfer(Ok(block_len(s.total, s.block, s.done)))
        }
    }
}

impl<E> View for ChunkedTransfer<E> {
    type V = StreamModel<E>;

    closed spec fn view(&self) -> StreamModel<E> {
        StreamModel {
            pipe: self.pipe,
            write: self.write,
            total: self.total,
            block: self.block,
            done: self.done,
            chunks: self.chunks,
            phase: self.phase,
        }
    }
}

impl<E> ChunkedTransfer<E> {
    /// Starts a read of `total` bytes from `pipe` in blocks of `block` bytes.
    /// A pipe that is not a read pipe ends the transfer at once with
    /// `InvalidParameter`, before any native call.
    pub fn read(pipe: Pipe, total: usize, block: usize) -> (r: ChunkedTransfer<E>)
        requires
            block > 0,
        ensures
            r@ == StreamModel::<E>::initial(pipe, false, total, block),
            r@.wf(),
    {
        ChunkedTransfer::start(pipe, false, total, block)
    }

    /// Starts a write of `total` bytes to `pipe` in blocks of `block` bytes.
    /// A pipe that is not a write pipe ends the transfer at once with
    /// `InvalidParameter`, before any native call.
    pub fn write(pipe: Pipe, total: usize, block: usize) -> (r: ChunkedTransfer<E>)
        requires
            block > 0,
        ensures
            r@ == StreamModel::<E>::initial(pipe, true, total, block),
            r@.wf(),
    {
        ChunkedTransfer::start(pipe, true, total, block)
    }

    fn start(pipe: Pipe, write: bool, total: usize, block: usize) -> (r: ChunkedTransfer<E>)
        requires
            block > 0,
        ensures
            r@ == StreamModel::<E>::initial(pipe, write, total, block),
            r@.wf(),
    {
        let phase = if !check_direction(pipe, write) {
            StreamPhase::Finished(Err(StreamError::InvalidParameter))
        } else if total == 0 {
            StreamPhase::Finished(Ok(0))
        } else {
            StreamPhase::Moving
        };
        ChunkedTransfer { pipe, write, total, block, done: 0, chunks: 0, phase }
    }

    /// The native call to make next.
    pub fn step(&self) -> (r: TransferStep)
        requires
            self@.wf(),
        ensures
            r == self@.spec_step(),
    {
        match self.phase {
            StreamPhase::Moving => {
                let rest = self.total - self.done;
                let len = if rest < self.block {
                    rest
                } else {
                    self.block
                };
                TransferStep::Transfer { pipe: self.pipe, offset: self.done, len }
            },
            StreamPhase::Aborting(_) => TransferStep::Abort { pipe: self.pipe },
            StreamPhase::Finished(_) => TransferStep::Finished,
        }
    }

    /// Records the outcome of the native transfer of the current block.
    pub fn on_transfer(&mut self, reply: Result<usize, E>)
        requires
            old(self)@.wf(),
            old(self)@.spec_step() is Transfer,
        ensures
            final(self)@ == old(self)@.after_transfer(reply),
            final(self)@.wf(),
    {
        let rest = self.total - self.done;
        let len = if rest < self.block {
            rest
        } else {
            self.block
        };
        match reply {
            Ok(n) => {
                if n == len {
                    proof {
                        let (c, b) = (self.chunks as int, self.block as int);
                        assert((c + 1) * b == c * b + b) by (nonlinear_arith);
                        assert(c <= c * b) by (nonlinear_arith)
                            requires
                                b >= 1,
                                c >= 0,
                        ;
                    }
                    self.done = self.done + len;
                    self.chunks = self.chunks + 1;
                    if self.done == self.total {
                        self.phase = StreamPhase::Finished(Ok(self.total));
                    }
                } else if self.write {
                    self.phase = StreamPhase::Aborting(StreamError::WriteError);
                } else {
                    self.phase = StreamPhase::Aborting(StreamError::ReadError);
                }
            },
            Err(e) => {
                self.phase = StreamPhase::Aborting(StreamError::Driver(e));
            },
        }
    }

    /// Records that the abort after a failed block has returned, whatever its
    /// outcome.
    pub fn on_abort(&mut self)
        requires
            old(self)@.wf(),
            old(self)@.spec_step() is Abort,
        ensures
            final(self)@ == old(self)@.after_abort(),
            final(self)@.wf(),
    {
        let mut phase = StreamPhase::Moving;
        core::mem::swap(&mut self.phase, &mut phase);
        self.phase = match phase {
            StreamPhase::Aborting(e) => StreamPhase::Finished(Err(e)),
            other => other,
        };
    }

    /// The number of bytes moved in full blocks so far.
    pub fn bytes_done(&self) -> (r: usize)
        ensures
            r == self@.done,
    {
        self.done
    }

    /// The outcome of the finished transfer: the length of the buffer when
    /// every block was moved in full.
    pub fn into_result(self) -> (r: Result<usize, StreamError<E>>)
        requires
            self@.spec_step() is Finished,
        ensures
            self@.phase == StreamPhase::Finished(r),
    {
        match self.phase {
            StreamPhase::Finished(r) => r,
            // Not reached: the transfer is finished.
            StreamPhase::Moving => Err(StreamError::InvalidParameter),
            StreamPhase::Aborting(e) => Err(e),
        }
    }
}

/// The states that a run of full blocks passes through: before the last block
/// the transfer is moving with `k` blocks behind it; after the last it is
/// finished with the whole buffer moved.
proof fn lemma_full_blocks_prefix<E>(pipe: Pipe, write: bool, total: usize, block: usize, n: nat, k: nat)
    requires
        block > 0,
        direction_matches(pipe, write),
        (n - 1) * block < total <= n * block,
        k <= n,
    ensures
        ({
            let s0 = StreamModel::<E>::initial(pipe, write, total, block);
            let s = s0.after_full_blocks(k);
            &&& k < n ==> s == StreamModel {
                done: (k * block) as usize,
                chunks: k as usize,
                phase: StreamPhase::Moving,
                ..s0
            }
            &&& k == n ==> s == StreamModel {
                done: total,
                chunks: n as usize,
                phase: StreamPhase::Finished(Ok(total)),
                ..s0
            }
        }),
    decreases k,
{
    let (b, t, ni, ki) = (block as int, total as int, n as int, k as int);
    let s0 = StreamModel::<E>::initial(pipe, write, total, block);
    if n > 0 {
        assert(ni - 1 <= (ni - 1) * b) by (nonlinear_arith)
            requires
                ni >= 1,
                b >= 1,
        ;
    }
    assert(ni <= t);
    if k == 0 {
        if n > 0 {
            assert(0 < t) by (nonlinear_arith)
                requires
                    (ni - 1) * b < t,
                    ni >= 1,
                    b > 0,
            ;
        } else {
            assert(t <= 0) by (nonlinear_arith)
                requires
                    t <= ni * b,
                    ni == 0,
            ;
        }
    } else {
        lemma_full_blocks_prefix::<E>(pipe, write, total, block, n, (k - 1) as nat);
        let prev = s0.after_full_blocks((k - 1) as nat);
        let d = (ki - 1) * b;
        assert(0 <= d <= (ni - 1) * b) by (nonlinear_arith)
            requires
                d == (ki - 1) * b,
                1 <= ki <= ni,
                b > 0,
        ;
        assert(prev.done == d && prev.phase is Moving && prev.chunks == ki - 1);
        assert(d + b == ki * b) by (nonlinear_arith)
            requires
                d == (ki - 1) * b,
        ;
        if k < n {
            assert(ki * b <= (ni - 1) * b) by (nonlinear_arith)
                requires
                    ki <= ni - 1,
                    b > 0,
            ;
            assert(block_len(total, block, prev.done) == block);
        } else {
            assert(d + b == ni * b) by (nonlinear_arith)
                requires
                    d == (ni - 1) * b,
            ;
            assert(block_len(total, block, prev.done) == t - d);
        }
        assert(s0.after_full_blocks(k) == prev.after_transfer(Ok(block_len(prev.total, prev.block, prev.done))));
    }
}

/// When every block moves in full, a transfer of `total` bytes in blocks of
/// `block` bytes makes exactly `n` native transfers, `n` being the number of
/// blocks that cover the buffer: the `k`-th starts at `k * block` and has the
/// length of a block, but for the last, which has what is left. The transfer
/// then ends with `Ok(total)`.
pub proof fn lemma_full_blocks<E>(pipe: Pipe, write: bool, total: usize, block: usize, n: nat)
    requires
        block > 0,
        direction_matches(pipe, write),
        (n - 1) * block < total <= n * block,
    ensures
        forall|k: nat|
            k < n ==> #[trigger] StreamModel::<E>::initial(pipe, write, total, block).after_full_blocks(
                k,
            ).spec_step() == (TransferStep::Transfer {
                pipe,
                offset: (k * block) as usize,
                len: if k + 1 < n {
                    block
                } else {
                    (total - k * block) as usize
                },
            }),
        StreamModel::<E>::initial(pipe, write, total, block).after_full_blocks(n).spec_step() is Finished,
        StreamModel::<E>::initial(pipe, write, total, block).after_full_blocks(n).phase
            == StreamPhase::<E>::Finished(Ok(total)),
        StreamModel::<E>::initial(pipe, write, total, block).after_full_blocks(n).chunks == n,
{
    let (b, t, ni) = (block as int, total as int, n as int);
    assert forall|k: nat| k < n implies #[trigger] StreamModel::<E>::initial(
        pipe,
        write,
        total,
        block,
    ).after_full_blocks(k).spec_step() == (TransferStep::Transfer {
        pipe,
        offset: (k * block) as usize,
        len: if k + 1 < n {
            block
        } else {
            (total - k * block) as usize
        },
    }) by {
        lemma_full_blocks_prefix::<E>(pipe, write, total, block, n, k);
        let ki = k as int;
        assert(0 <= ki * b) by (nonlinear_arith)
            requires
                ki >= 0,
                b > 0,
        ;
        if k + 1 < n {
            assert((ki + 1) * b <= (ni - 1) * b) by (nonlinear_arith)
                requires
                    ki + 1 <= ni - 1,
                    b > 0,
            ;
            assert((ki + 1) * b == ki * b + b) by (nonlinear_arith);
        } else {
            assert(ki * b + b == ni * b) by (nonlinear_arith)
                requires
                    ki + 1 == ni,
            ;
        }
    }
    lemma_full_blocks_prefix::<E>(pipe, write, total, block, n, n);
    if n > 0 {
        assert(ni - 1 <= (ni - 1) * b) by (nonlinear_arith)
            requires
                ni >= 1,
                b >= 1,
        ;
    }
}

/// A block that does not move exactly the bytes asked for, or whose native
/// transfer fails, fails the whole transfer: the next step is one abort on
/// the same pipe, after which the transfer is finished with no further block.
/// The error is `ReadError` or `WriteError` for a short block, and the
/// driver's own error for a failed call, whatever the abort returned.
pub proof fn lemma_failed_block<E>(s: StreamModel<E>, reply: Result<usize, E>)
    requires
        s.wf(),
        s.spec_step() is Transfer,
        !(reply == Ok::<usize, E>(block_len(s.total, s.block, s.done))),
    ensures
        s.after_transfer(reply).spec_step() == (TransferStep::Abort { pipe: s.pipe }),
        s.after_transfer(reply).wf(),
        s.after_transfer(reply).after_abort().spec_step() is Finished,
        s.after_transfer(reply).after_abort().wf(),
        s.after_transfer(reply).after_abort().phase == StreamPhase::Finished(
            Err(
                match reply {
                    Ok(_) => short_block_error::<E>(s.write),
                    Err(e) => StreamError::Driver(e),
                },
            ),
        ),
{
}

/// A transfer over a pipe of the wrong direction asks for no native call at
/// all: both a single transfer and a streaming one are finished from the
/// start, with `InvalidParameter`.
pub proof fn lemma_wrong_direction<E>(pipe: Pipe, write: bool, len: usize, block: usize)
    requires
        !direction_matches(pipe, write),
    ensures
        PipeTransfer::initial(pipe, write, len).spec_step() is Finished,
        PipeTransfer::initial(pipe, write, len).phase == SinglePhase::Finished(
            Err(D3xxError::InvalidParameter),
        ),
        StreamModel::<E>::initial(pipe, write, len, block).spec_step() is Finished,
        StreamModel::<E>::initial(pipe, write, len, block).phase == StreamPhase::<E>::Finished(
            Err(StreamError::InvalidParameter),
        ),
{
}

} // verus!
