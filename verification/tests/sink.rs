//! The testing sink behind the `Sink` interface of the `futures` crate.

use std::convert::Infallible;
use std::pin::Pin;
use std::sync::{Arc, Mutex};
use std::task::{Context, Poll, Waker};

use bytes::Buf;
use futures::{FutureExt, Sink, SinkExt};

use highway_validator::testing::{Readiness, TestingSink as SinkState};

/// Collects everything inside a `Buf` into a `Vec`.
fn collect_buf<B: Buf>(mut buf: B) -> Vec<u8> {
    let mut vec = vec![0u8; buf.remaining()];
    buf.copy_to_slice(&mut vec);
    vec
}

fn to_poll(readiness: Readiness) -> Poll<Result<(), Infallible>> {
    match readiness {
        Readiness::Pending => Poll::Pending,
        Readiness::Ready => Poll::Ready(Ok(())),
    }
}

/// The library's sink behind a lock, together with the waker of the last task that found
/// it obstructed.
struct TestingSink {
    state: Mutex<SinkState>,
    waker: Mutex<Option<Waker>>,
}

impl TestingSink {
    fn new() -> Self {
        TestingSink { state: Mutex::new(SinkState::new()), waker: Mutex::new(None) }
    }

    fn wake(&self, wake: bool) {
        if wake {
            if let Some(ref waker) = *self.waker.lock().expect("could not lock waker") {
                waker.wake_by_ref()
            }
        }
    }

    fn set_plugged(&self, plugged: bool) {
        let wake = self.state.lock().expect("could not lock plug").set_plugged(plugged);
        self.wake(wake);
    }

    fn set_clogged(&self, clogged: bool) {
        let wake = self.state.lock().expect("could not lock plug").set_clogged(clogged);
        self.wake(wake);
    }

    fn get_contents(&self) -> Vec<u8> {
        self.state.lock().expect("could not lock test sink for copying").get_contents()
    }

    fn remember(&self, cx: &mut Context<'_>) {
        *self.waker.lock().expect("could not lock waker") = Some(cx.waker().clone());
    }

    fn sink_poll_ready(&self, cx: &mut Context<'_>) -> Poll<Result<(), Infallible>> {
        self.remember(cx);
        to_poll(self.state.lock().expect("could not lock plug").sink_poll_ready())
    }

    fn sink_start_send<F: Buf>(&self, item: F) -> Result<(), Infallible> {
        let bytes = collect_buf(item);
        self.state.lock().expect("could not lock buffer").sink_start_send(&bytes);
        Ok(())
    }

    fn sink_poll_flush(&self, cx: &mut Context<'_>) -> Poll<Result<(), Infallible>> {
        self.remember(cx);
        to_poll(self.state.lock().expect("could not lock plug").sink_poll_flush())
    }

    fn sink_poll_close(&self, cx: &mut Context<'_>) -> Poll<Result<(), Infallible>> {
        self.remember(cx);
        to_poll(self.state.lock().expect("could not lock plug").sink_poll_close())
    }
}

impl<F: Buf> Sink<F> for TestingSink {
    type Error = Infallible;

    fn poll_ready(self: Pin<&mut Self>, cx: &mut Context<'_>) -> Poll<Result<(), Self::Error>> {
        self.sink_poll_ready(cx)
    }

    fn start_send(self: Pin<&mut Self>, item: F) -> Result<(), Self::Error> {
        self.sink_start_send(item)
    }

    fn poll_flush(self: Pin<&mut Self>, cx: &mut Context<'_>) -> Poll<Result<(), Self::Error>> {
        self.sink_poll_flush(cx)
    }

    fn poll_close(self: Pin<&mut Self>, cx: &mut Context<'_>) -> Poll<Result<(), Self::Error>> {
        self.sink_poll_close(cx)
    }
}

impl<F: Buf> Sink<F> for &TestingSink {
    type Error = Infallible;

    fn poll_ready(self: Pin<&mut Self>, cx: &mut Context<'_>) -> Poll<Result<(), Self::Error>> {
        self.sink_poll_ready(cx)
    }

    fn start_send(self: Pin<&mut Self>, item: F) -> Result<(), Self::Error> {
        self.sink_start_send(item)
    }

    fn poll_flush(self: Pin<&mut Self>, cx: &mut Context<'_>) -> Poll<Result<(), Self::Error>> {
        self.sink_poll_flush(cx)
    }

    fn poll_close(self: Pin<&mut Self>, cx: &mut Context<'_>) -> Poll<Result<(), Self::Error>> {
        self.sink_poll_close(cx)
    }
}

#[test]
fn simple_lifecycle() {
    let mut sink = TestingSink::new();
    assert!(sink.send(&b"one"[..]).now_or_never().is_some());
    assert!(sink.send(&b"two"[..]).now_or_never().is_some());
    assert!(sink.send(&b"three"[..]).now_or_never().is_some());

    assert_eq!(sink.get_contents(), b"onetwothree");
}

#[test]
fn plug_blocks_sink() {
    let sink = TestingSink::new();
    let mut sink_handle = &sink;

    sink.set_plugged(true);

    // The sink is plugged, so sending should fail. We also drop the future, causing the value
    // to be discarded.
    assert!(sink_handle.send(&b"dummy"[..]).now_or_never().is_none());
    assert!(sink.get_contents().is_empty());

    // Now stuff more data into the sink.
    let second_send = sink_handle.send(&b"second"[..]);
    sink.set_plugged(false);
    assert!(second_send.now_or_never().is_some());
    assert!(sink_handle.send(&b"third"[..]).now_or_never().is_some());
    assert_eq!(sink.get_contents(), b"secondthird");
}

#[test]
fn clog_blocks_sink_completion() {
    let sink = TestingSink::new();
    let mut sink_handle = &sink;

    sink.set_clogged(true);

    // The sink is clogged, so sending should fail to complete, but it is written.
    assert!(sink_handle.send(&b"first"[..]).now_or_never().is_none());
    assert_eq!(sink.get_contents(), b"first");

    // Now stuff more data into the sink.
    let second_send = sink_handle.send(&b"second"[..]);
    sink.set_clogged(false);
    assert!(second_send.now_or_never().is_some());
    assert!(sink_handle.send(&b"third"[..]).now_or_never().is_some());
    assert_eq!(sink.get_contents(), b"firstsecondthird");
}

#[test]
fn unplugging_wakes_the_waiting_task() {
    let sink = Arc::new(TestingSink::new());
    sink.set_plugged(true);
    let woken = Arc::new(futures::task::noop_waker());
    let mut cx = Context::from_waker(&woken);
    let mut handle = &*sink;
    assert!(Sink::<&[u8]>::poll_ready(Pin::new(&mut handle), &mut cx).is_pending());
    sink.set_plugged(false);
    assert!(Sink::<&[u8]>::poll_ready(Pin::new(&mut handle), &mut cx).is_ready());
}

#[test]
fn state_reports_obstructions() {
    let mut state = SinkState::new();
    assert!(!state.is_plugged());
    assert!(!state.is_clogged());
    assert_eq!(state.sink_poll_ready(), Readiness::Ready);
    assert_eq!(state.sink_poll_flush(), Readiness::Ready);
    assert!(!state.set_plugged(true));
    assert!(state.is_plugged());
    assert_eq!(state.sink_poll_ready(), Readiness::Pending);
    assert_eq!(state.sink_poll_flush(), Readiness::Ready);
    assert!(state.set_plugged(false));
    assert!(!state.set_clogged(true));
    assert!(state.is_clogged());
    assert_eq!(state.sink_poll_ready(), Readiness::Ready);
    assert_eq!(state.sink_poll_flush(), Readiness::Pending);
    assert_eq!(state.sink_poll_close(), Readiness::Pending);
    assert!(state.set_clogged(false));
    assert_eq!(state.sink_poll_close(), Readiness::Ready);
    state.sink_start_send(b"ab");
    state.sink_start_send(b"");
    state.sink_start_send(b"c");
    assert_eq!(state.get_contents(), b"abc".to_vec());
}
