use std::io::ErrorKind;
use std::pin::Pin;
use std::task::{Context, Poll};

use serial_relay::{
    flatten, new, read_buffer, reader_step, relay_step, to_std_io, writer_step, DeviceError,
    Direction, Error, Observation, ReportKind, SignalPoll, Step, StreamState, READ_CHUNK,
};
use tokio::io::{AsyncRead, AsyncWrite, ReadBuf};

fn device_error(kind: ErrorKind, text: &str) -> DeviceError {
    DeviceError { kind, message: text.to_string() }
}

fn recv_error() -> tokio::sync::oneshot::error::RecvError {
    let (tx, rx) = tokio::sync::oneshot::channel::<Error>();
    drop(tx);
    rx.blocking_recv().unwrap_err()
}

fn assert_fail_kind(step: &Step, kind: ErrorKind, text: &str) {
    match step {
        Step::Fail(rep) => {
            assert!(matches!(rep.kind, ReportKind::Device(k) if k == kind));
            assert_eq!(rep.message, text);
        }
        Step::Delegate => panic!("expected an error, got a delegation"),
    }
}

#[test]
fn builder_defaults() {
    let b = new("/dev/ttyUSB0", 9600);
    assert_eq!(b.path(), "/dev/ttyUSB0");
    assert_eq!(b.baud_rate(), 9600);
    assert_eq!(b.buf_size(), 1024);
}

#[test]
fn builder_max_buf_size_keeps_the_rest() {
    let b = new("/dev/ttyS1", 115200).max_buf_size(4);
    assert_eq!(b.buf_size(), 4);
    assert_eq!(b.path(), "/dev/ttyS1");
    assert_eq!(b.baud_rate(), 115200);
}

#[test]
fn read_timeout_is_a_hundred_years() {
    let b = new("/dev/ttyS0", 9600);
    assert_eq!(b.read_timeout_secs(), 3_153_600_000);
}

#[test]
fn device_error_passes_through() {
    let rep = to_std_io(Error::Io(device_error(ErrorKind::PermissionDenied, "denied")));
    assert!(matches!(rep.kind, ReportKind::Device(ErrorKind::PermissionDenied)));
    assert_eq!(rep.message, "denied");
}

#[test]
fn sender_closed_is_generic() {
    let rep = to_std_io(Error::SenderClosed);
    assert!(matches!(rep.kind, ReportKind::Other));
    assert_eq!(rep.message, "sending channel closed");
}

#[test]
fn lost_channel_is_generic() {
    let rep = to_std_io(Error::OneshotRecv(recv_error()));
    assert!(matches!(rep.kind, ReportKind::Other));
    assert_eq!(rep.message, "sending thread paniced channel closed");
}

#[test]
fn flatten_keeps_delivered_failure() {
    assert!(matches!(flatten(Ok(Error::SenderClosed)), Error::SenderClosed));
    assert!(matches!(flatten(Err(recv_error())), Error::OneshotRecv(_)));
}

#[test]
fn pending_direction_delegates() {
    let mut d = Direction::new();
    assert!(d.needs_signal());
    assert!(matches!(d.poll(SignalPoll::NotReady), Step::Delegate));
    assert!(matches!(d.observation, Observation::Pending));
}

#[test]
fn read_error_is_durable() {
    let mut d = Direction::new();
    let first = d.poll(SignalPoll::Ended(Error::Io(device_error(ErrorKind::BrokenPipe, "gone"))));
    assert_fail_kind(&first, ErrorKind::BrokenPipe, "gone");
    assert!(!d.needs_signal());
    for _ in 0..3 {
        let again = d.poll(SignalPoll::NotReady);
        assert_fail_kind(&again, ErrorKind::BrokenPipe, "gone");
    }
    let later = d.poll(SignalPoll::Ended(Error::SenderClosed));
    assert_fail_kind(&later, ErrorKind::BrokenPipe, "gone");
}

#[test]
fn read_failure_leaves_writes_alone() {
    let mut s = StreamState::new();
    let r = s.poll_read(SignalPoll::Ended(Error::Io(device_error(ErrorKind::TimedOut, "t"))));
    assert_fail_kind(&r, ErrorKind::TimedOut, "t");
    assert!(matches!(s.poll_write(SignalPoll::NotReady), Step::Delegate));
    assert!(matches!(s.poll_write(SignalPoll::NotReady), Step::Delegate));
    assert!(matches!(s.write.observation, Observation::Pending));
}

#[test]
fn write_failure_leaves_reads_alone() {
    let mut s = StreamState::new();
    let w = s.poll_write(SignalPoll::Ended(Error::SenderClosed));
    match w {
        Step::Fail(rep) => assert_eq!(rep.message, "sending channel closed"),
        Step::Delegate => panic!("expected an error"),
    }
    assert!(matches!(s.poll_read(SignalPoll::NotReady), Step::Delegate));
    assert!(matches!(s.read.observation, Observation::Pending));
}

#[test]
fn reader_forwards_exactly_the_bytes_read() {
    let mut buf = read_buffer();
    assert_eq!(buf.len(), READ_CHUNK);
    assert!(buf.iter().all(|b| *b == 0));
    buf[0] = 7;
    buf[1] = 8;
    buf[2] = 9;
    let out = reader_step(&buf, Ok(3)).unwrap();
    assert_eq!(out, vec![7, 8, 9]);
    assert!(reader_step(&buf, Ok(0)).unwrap().is_empty());
}

#[test]
fn reader_ends_on_device_error() {
    let buf = read_buffer();
    let r = reader_step(&buf, Err(device_error(ErrorKind::Interrupted, "int")));
    assert!(matches!(r, Err(Error::Io(DeviceError { kind: ErrorKind::Interrupted, .. }))));
}

#[test]
fn writer_sends_chunk_to_device() {
    let out = writer_step(Some(Ok(vec![0x01, 0x02, 0x03]))).unwrap();
    assert_eq!(out, vec![0x01, 0x02, 0x03]);
}

#[test]
fn writer_ends_when_pipe_closes() {
    assert!(matches!(writer_step(None), Err(Error::SenderClosed)));
    let e = writer_step(Some(Err(device_error(ErrorKind::UnexpectedEof, "eof"))));
    assert!(matches!(e, Err(Error::Io(DeviceError { kind: ErrorKind::UnexpectedEof, .. }))));
}

#[test]
fn relay_step_ends_on_error_only() {
    assert!(relay_step(Ok(())).is_none());
    let e = relay_step(Err(device_error(ErrorKind::WouldBlock, "wb")));
    assert!(matches!(e, Some(Error::Io(DeviceError { kind: ErrorKind::WouldBlock, .. }))));
}

#[test]
fn writes_reach_the_device_side_in_order() {
    let waker = futures::task::noop_waker();
    let mut cx = Context::from_waker(&waker);
    let (mut facade_end, mut relay_end) = tokio::io::duplex(1024);
    let mut state = StreamState::new();
    for chunk in [&[0x01u8][..], &[0x02, 0x03][..]] {
        assert!(matches!(state.poll_write(SignalPoll::NotReady), Step::Delegate));
        let n = Pin::new(&mut facade_end).poll_write(&mut cx, chunk);
        assert!(matches!(n, Poll::Ready(Ok(k)) if k == chunk.len()));
    }
    let mut storage = [0u8; 16];
    let mut rb = ReadBuf::new(&mut storage);
    let r = Pin::new(&mut relay_end).poll_read(&mut cx, &mut rb);
    assert!(matches!(r, Poll::Ready(Ok(()))));
    let sent = writer_step(Some(Ok(rb.filled().to_vec()))).unwrap();
    assert_eq!(sent, vec![0x01, 0x02, 0x03]);
}

#[test]
fn full_pipe_reports_pending() {
    let waker = futures::task::noop_waker();
    let mut cx = Context::from_waker(&waker);
    let b = new("/dev/ttyS0", 9600).max_buf_size(4);
    let (mut facade_end, mut relay_end) = tokio::io::duplex(b.buf_size());
    let mut state = StreamState::new();
    let data = [0u8, 1, 2, 3, 4, 5, 6, 7, 8, 9];
    assert!(matches!(state.poll_write(SignalPoll::NotReady), Step::Delegate));
    let first = Pin::new(&mut facade_end).poll_write(&mut cx, &data);
    assert!(matches!(first, Poll::Ready(Ok(4))));
    assert!(matches!(state.poll_write(SignalPoll::NotReady), Step::Delegate));
    let second = Pin::new(&mut facade_end).poll_write(&mut cx, &data[4..]);
    assert!(second.is_pending());
    let mut storage = [0u8; 4];
    let mut rb = ReadBuf::new(&mut storage);
    let r = Pin::new(&mut relay_end).poll_read(&mut cx, &mut rb);
    assert!(matches!(r, Poll::Ready(Ok(()))));
    assert_eq!(rb.filled(), &[0, 1, 2, 3]);
    let third = Pin::new(&mut facade_end).poll_write(&mut cx, &data[4..]);
    assert!(matches!(third, Poll::Ready(Ok(4))));
}

#[test]
fn writer_run_drains_then_ends_on_close() {
    let pulls = vec![Some(Ok(vec![0x01])), Some(Ok(vec![0x02, 0x03])), None];
    let mut device = Vec::new();
    let mut end = None;
    for pull in pulls {
        match writer_step(pull) {
            Ok(chunk) => device.extend_from_slice(&chunk),
            Err(e) => {
                end = Some(e);
                break;
            }
        }
    }
    assert_eq!(device, vec![0x01, 0x02, 0x03]);
    assert!(matches!(end, Some(Error::SenderClosed)));
}
