use ft60x_rs::error::D3xxError;
use ft60x_rs::pipe::Pipe;
use ft60x_rs::transfer::{
    ChunkedTransfer, PipeTransfer, StreamError, TransferStep, BLOCK_SIZE, MAX_NATIVE_TRANSFER,
};

/// What a simulated driver was asked to do.
#[derive(Debug, PartialEq)]
enum Call {
    Transfer(Pipe, usize, usize),
    Abort(Pipe),
}

/// Runs a streaming transfer against a simulated driver that answers the
/// `k`-th block transfer with `reply(k, len)`.
fn run_stream(
    mut t: ChunkedTransfer<D3xxError>,
    reply: impl Fn(usize, usize) -> Result<usize, D3xxError>,
) -> (Vec<Call>, Result<usize, StreamError<D3xxError>>) {
    let mut calls = Vec::new();
    let mut k = 0;
    loop {
        match t.step() {
            TransferStep::Transfer { pipe, offset, len } => {
                calls.push(Call::Transfer(pipe, offset, len));
                t.on_transfer(reply(k, len));
                k += 1;
            }
            TransferStep::Abort { pipe } => {
                calls.push(Call::Abort(pipe));
                t.on_abort();
            }
            TransferStep::Finished => return (calls, t.into_result()),
        }
    }
}

/// Runs a single transfer against a simulated driver.
fn run_single(
    mut t: PipeTransfer,
    reply: Result<usize, D3xxError>,
) -> (Vec<Call>, Result<usize, D3xxError>) {
    let mut calls = Vec::new();
    loop {
        match t.step() {
            TransferStep::Transfer { pipe, offset, len } => {
                calls.push(Call::Transfer(pipe, offset, len));
                t.on_transfer(reply);
            }
            TransferStep::Abort { pipe } => {
                calls.push(Call::Abort(pipe));
                t.on_abort();
            }
            TransferStep::Finished => return (calls, t.into_result()),
        }
    }
}

#[test]
fn write_on_read_pipe_makes_no_native_call() {
    let (calls, r) = run_single(PipeTransfer::write(Pipe::In0, 4), Ok(4));
    assert!(calls.is_empty());
    assert_eq!(r, Err(D3xxError::InvalidParameter));
}

#[test]
fn read_on_write_pipe_makes_no_native_call() {
    let (calls, r) = run_single(PipeTransfer::read(Pipe::Out2, 8), Ok(8));
    assert!(calls.is_empty());
    assert_eq!(r, Err(D3xxError::InvalidParameter));
}

#[test]
fn every_wrong_direction_is_rejected() {
    for p in [Pipe::In0, Pipe::In1, Pipe::In2, Pipe::In3] {
        assert_eq!(PipeTransfer::write(p, 1).step(), TransferStep::Finished);
        assert_eq!(PipeTransfer::read(p, 1).step(), TransferStep::Transfer { pipe: p, offset: 0, len: 1 });
    }
    for p in [Pipe::Out0, Pipe::Out1, Pipe::Out2, Pipe::Out3] {
        assert_eq!(PipeTransfer::read(p, 1).step(), TransferStep::Finished);
        assert_eq!(PipeTransfer::write(p, 1).step(), TransferStep::Transfer { pipe: p, offset: 0, len: 1 });
    }
}

#[test]
fn single_write_reports_bytes_moved() {
    let (calls, r) = run_single(PipeTransfer::write(Pipe::Out0, 4), Ok(4));
    assert_eq!(calls, vec![Call::Transfer(Pipe::Out0, 0, 4)]);
    assert_eq!(r, Ok(4));
    let (_, r) = run_single(PipeTransfer::read(Pipe::In1, 8), Ok(3));
    assert_eq!(r, Ok(3));
}

#[test]
fn single_failure_aborts_and_keeps_original_error() {
    let (calls, r) = run_single(PipeTransfer::read(Pipe::In0, 8), Err(D3xxError::Timeout));
    assert_eq!(calls, vec![Call::Transfer(Pipe::In0, 0, 8), Call::Abort(Pipe::In0)]);
    assert_eq!(r, Err(D3xxError::Timeout));
}

#[test]
fn single_transfer_too_long_for_one_call() {
    if MAX_NATIVE_TRANSFER < usize::MAX {
        let (calls, r) = run_single(PipeTransfer::write(Pipe::Out0, MAX_NATIVE_TRANSFER + 1), Ok(0));
        assert!(calls.is_empty());
        assert_eq!(r, Err(D3xxError::InvalidParameter));
    }
}

#[test]
fn chunked_write_of_100000_bytes_takes_four_blocks() {
    assert_eq!(BLOCK_SIZE, 32768);
    let t = ChunkedTransfer::write(Pipe::Out0, 100_000, BLOCK_SIZE);
    let (calls, r) = run_stream(t, |_, len| Ok(len));
    assert_eq!(
        calls,
        vec![
            Call::Transfer(Pipe::Out0, 0, 32768),
            Call::Transfer(Pipe::Out0, 32768, 32768),
            Call::Transfer(Pipe::Out0, 65536, 32768),
            Call::Transfer(Pipe::Out0, 98304, 1696),
        ]
    );
    assert_eq!(r, Ok(100_000));
}

#[test]
fn chunked_read_of_exact_blocks() {
    let t = ChunkedTransfer::read(Pipe::In0, 3 * BLOCK_SIZE, BLOCK_SIZE);
    let (calls, r) = run_stream(t, |_, len| Ok(len));
    assert_eq!(calls.len(), 3);
    assert_eq!(calls[2], Call::Transfer(Pipe::In0, 2 * BLOCK_SIZE, BLOCK_SIZE));
    assert_eq!(r, Ok(3 * BLOCK_SIZE));
}

#[test]
fn chunked_empty_buffer_makes_no_call() {
    let t: ChunkedTransfer<D3xxError> = ChunkedTransfer::write(Pipe::Out1, 0, BLOCK_SIZE);
    let (calls, r) = run_stream(t, |_, len| Ok(len));
    assert!(calls.is_empty());
    assert_eq!(r, Ok(0));
}

#[test]
fn short_write_block_aborts_once_and_stops() {
    let t = ChunkedTransfer::write(Pipe::Out0, 100_000, BLOCK_SIZE);
    let (calls, r) = run_stream(t, |k, len| if k == 1 { Ok(len - 1) } else { Ok(len) });
    assert_eq!(
        calls,
        vec![
            Call::Transfer(Pipe::Out0, 0, 32768),
            Call::Transfer(Pipe::Out0, 32768, 32768),
            Call::Abort(Pipe::Out0),
        ]
    );
    assert_eq!(r, Err(StreamError::WriteError));
}

#[test]
fn short_read_block_gives_read_error() {
    let t = ChunkedTransfer::read(Pipe::In2, 40_000, BLOCK_SIZE);
    let (calls, r) = run_stream(t, |_, _| Ok(0));
    assert_eq!(calls, vec![Call::Transfer(Pipe::In2, 0, 32768), Call::Abort(Pipe::In2)]);
    assert_eq!(r, Err(StreamError::ReadError));
}

#[test]
fn failed_block_keeps_driver_error() {
    let t = ChunkedTransfer::read(Pipe::In0, 100_000, BLOCK_SIZE);
    let (calls, r) =
        run_stream(t, |k, len| if k == 2 { Err(D3xxError::IoError) } else { Ok(len) });
    assert_eq!(calls.len(), 4);
    assert_eq!(calls[3], Call::Abort(Pipe::In0));
    assert_eq!(r, Err(StreamError::Driver(D3xxError::IoError)));
}

#[test]
fn chunked_wrong_direction_makes_no_call() {
    let t = ChunkedTransfer::write(Pipe::In0, 100, BLOCK_SIZE);
    let (calls, r) = run_stream(t, |_, len| Ok(len));
    assert!(calls.is_empty());
    assert_eq!(r, Err(StreamError::InvalidParameter));
    let t = ChunkedTransfer::read(Pipe::Out0, 100, BLOCK_SIZE);
    let (calls, r) = run_stream(t, |_, len| Ok(len));
    assert!(calls.is_empty());
    assert_eq!(r, Err(StreamError::InvalidParameter));
}

#[test]
fn chunked_progress_counts_full_blocks() {
    let mut t: ChunkedTransfer<D3xxError> = ChunkedTransfer::write(Pipe::Out0, 50_000, BLOCK_SIZE);
    assert_eq!(t.bytes_done(), 0);
    t.on_transfer(Ok(BLOCK_SIZE));
    assert_eq!(t.bytes_done(), BLOCK_SIZE);
    assert_eq!(t.step(), TransferStep::Transfer { pipe: Pipe::Out0, offset: BLOCK_SIZE, len: 50_000 - BLOCK_SIZE });
}
