//! The transport under a response: a one-shot channel for the head and an
//! unbounded channel for body frames with a one-shot end signal.
//!
//! Sends are synchronous and non-blocking, so they may be made from inside
//! an engine callback; only the receiving half is asynchronous. The calls
//! into tokio are the trusted boundary of this crate: what the protocol
//! guarantees about message order and content is proved one level up, on the
//! record each context keeps of what it handed to its channels.

use vstd::prelude::*;

use crate::http::ResponseHead;

verus! {

#[verifier::external_type_specification]
#[verifier::external_body]
#[verifier::reject_recursive_types(T)]
pub struct ExUnboundedSender<T>(tokio::sync::mpsc::UnboundedSender<T>);

#[verifier::external_type_specification]
#[verifier::external_body]
#[verifier::reject_recursive_types(T)]
pub struct ExUnboundedReceiver<T>(tokio::sync::mpsc::UnboundedReceiver<T>);

#[verifier::external_type_specification]
#[verifier::external_body]
#[verifier::reject_recursive_types(T)]
pub struct ExOneshotSender<T>(tokio::sync::oneshot::Sender<T>);

#[verifier::external_type_specification]
#[verifier::external_body]
#[verifier::reject_recursive_types(T)]
pub struct ExOneshotReceiver<T>(tokio::sync::oneshot::Receiver<T>);

#[verifier::external_type_specification]
#[verifier::external_body]
pub struct ExOneshotRecvError(tokio::sync::oneshot::error::RecvError);

/// Relies on tokio's `mpsc::unbounded_channel`: returns a connected
/// sender/receiver pair for body frames.
#[verifier::external_body]
fn new_frame_channel() -> (
    tokio::sync::mpsc::UnboundedSender<Vec<u8>>,
    tokio::sync::mpsc::UnboundedReceiver<Vec<u8>>,
) {
    tokio::sync::mpsc::unbounded_channel()
}

/// Relies on tokio's `oneshot::channel`: returns a connected pair carrying
/// the response head once.
#[verifier::external_body]
fn new_head_channel() -> (
    tokio::sync::oneshot::Sender<ResponseHead>,
    tokio::sync::oneshot::Receiver<ResponseHead>,
) {
    tokio::sync::oneshot::channel()
}

/// Relies on tokio's `oneshot::channel`: returns a connected pair carrying
/// the end-of-body signal once.
#[verifier::external_body]
fn new_finish_channel() -> (tokio::sync::oneshot::Sender<()>, tokio::sync::oneshot::Receiver<()>) {
    tokio::sync::oneshot::channel()
}

/// Relies on tokio's `UnboundedSender::send`: queues the frame and returns
/// whether the receiving half was still there to take it.
#[verifier::external_body]
fn send_frame_raw(tx: &tokio::sync::mpsc::UnboundedSender<Vec<u8>>, data: Vec<u8>) -> (r: bool) {
    tx.send(data).is_ok()
}

/// Relies on tokio's `UnboundedSender::is_closed`: true once the receiving
/// half was dropped or closed.
#[verifier::external_body]
fn frame_receiver_closed(tx: &tokio::sync::mpsc::UnboundedSender<Vec<u8>>) -> (r: bool) {
    tx.is_closed()
}

/// Relies on tokio's `oneshot::Sender::send`: delivers the head unless the
/// receiving half is gone.
#[verifier::external_body]
fn send_head_raw(tx: tokio::sync::oneshot::Sender<ResponseHead>, head: ResponseHead) -> (r:
    bool) {
    tx.send(head).is_ok()
}

/// Relies on tokio's `oneshot::Sender::send`: delivers the end-of-body
/// signal unless the receiving half is gone.
#[verifier::external_body]
fn send_finish_raw(tx: tokio::sync::oneshot::Sender<()>) -> (r: bool) {
    tx.send(()).is_ok()
}

/// Relies on tokio's `UnboundedReceiver::try_recv`: takes the next queued
/// frame without waiting, `None` when the queue is empty or closed.
#[verifier::external_body]
fn try_recv_frame(rx: &mut tokio::sync::mpsc::UnboundedReceiver<Vec<u8>>) -> (r: Option<
    Vec<u8>,
>) {
    rx.try_recv().ok()
}

/// Relies on tokio's `oneshot::Receiver::try_recv`: takes the head if it was
/// already sent, without waiting.
#[verifier::external_body]
fn try_recv_head(rx: &mut tokio::sync::oneshot::Receiver<ResponseHead>) -> (r: Option<
    ResponseHead,
>) {
    rx.try_recv().ok()
}

/// Relies on tokio's `oneshot::Receiver::try_recv`: true once the
/// end-of-body signal was sent.
#[verifier::external_body]
fn try_recv_finish(rx: &mut tokio::sync::oneshot::Receiver<()>) -> (r: bool) {
    rx.try_recv().is_ok()
}

/// Receiving half of a body stream: frames in order, then an end signal.
pub struct UnboundChannel {
    rx_frame: tokio::sync::mpsc::UnboundedReceiver<Vec<u8>>,
    rx_finish: tokio::sync::oneshot::Receiver<()>,
}

impl UnboundChannel {
    /// A connected sending/receiving pair for one response body.
    pub fn new() -> (r: (FrameSender, UnboundChannel)) {
        let (tx_frame, rx_frame) = new_frame_channel();
        let (tx_finish, rx_finish) = new_finish_channel();
        (FrameSender { tx_frame, tx_finish }, UnboundChannel { rx_frame, rx_finish })
    }

    /// Takes the next frame already queued, if any.
    pub fn try_next_frame(&mut self) -> (r: Option<Vec<u8>>) {
        try_recv_frame(&mut self.rx_frame)
    }

    /// True once the sending side signalled the end of the body.
    pub fn try_finished(&mut self) -> (r: bool) {
        try_recv_finish(&mut self.rx_finish)
    }

    /// Surrenders the raw receivers, for an owner that awaits them.
    pub fn into_parts(self) -> (r: (
        tokio::sync::mpsc::UnboundedReceiver<Vec<u8>>,
        tokio::sync::oneshot::Receiver<()>,
    )) {
        (self.rx_frame, self.rx_finish)
    }
}

/// Sending half of a body stream.
pub struct FrameSender {
    tx_frame: tokio::sync::mpsc::UnboundedSender<Vec<u8>>,
    tx_finish: tokio::sync::oneshot::Sender<()>,
}

impl FrameSender {
    /// Queues one body frame; false when the receiver is gone.
    pub fn send(&mut self, data: Vec<u8>) -> (r: bool) {
        send_frame_raw(&self.tx_frame, data)
    }

    /// True once the receiving half was dropped.
    pub fn is_closed(&self) -> (r: bool) {
        frame_receiver_closed(&self.tx_frame)
    }

    /// Ends the body stream; false when the receiver is gone.
    pub fn abort(self) -> (r: bool) {
        send_finish_raw(self.tx_finish)
    }
}

/// Sends the head through its one-shot channel; false when the receiver is
/// gone.
pub(crate) fn send_head(tx: tokio::sync::oneshot::Sender<ResponseHead>, head: ResponseHead) -> (r:
    bool) {
    send_head_raw(tx, head)
}

/// Receiving half of the head channel: the response head arrives on it at
/// most once.
pub struct HeadReceiver {
    rx: tokio::sync::oneshot::Receiver<ResponseHead>,
}

impl HeadReceiver {
    /// Takes the head if it was already sent, without waiting.
    pub fn try_recv(&mut self) -> (r: Option<ResponseHead>) {
        try_recv_head(&mut self.rx)
    }

    /// Surrenders the raw receiver, for an owner that awaits it.
    pub fn into_inner(self) -> (r: tokio::sync::oneshot::Receiver<ResponseHead>) {
        self.rx
    }
}

/// A connected head sender/receiver pair for one response.
pub(crate) fn new_head_pair() -> (r: (
    tokio::sync::oneshot::Sender<ResponseHead>,
    HeadReceiver,
)) {
    let (tx, rx) = new_head_channel();
    (tx, HeadReceiver { rx })
}

} // verus!
