//! The per-request execution context and the callback contract the engine
//! drives it through.
//!
//! A [`Context`] owns everything one request needs: the resolved route, the
//! inbound request, the outbound status/header accumulator, a body buffer,
//! and the sending halves of its response channels. The engine mutates it
//! only through the callbacks below; the async consumer holds the receiving
//! halves.
//!
//! Each context keeps a [`DeliveryLog`], the ghost record of what it handed
//! to its channels. The protocol laws at the end of this file are proved
//! over that record: the head goes out at most once and before any body
//! frame, finalizing is idempotent, and a body-side disconnect rejects
//! writes and raises the abort notification exactly once.

use vstd::prelude::*;

use crate::bytes_util::concat_seqs;
use crate::bytes_util::lemma_concat_push;
use crate::http::HeadView;
use crate::http::HttpRequest;
use crate::http::RequestView;
use crate::http::ResponseHead;
use crate::http::ResponseType;
use crate::http::SocketAddress;
use crate::http::Stream;
use crate::http::StreamView;
use crate::http::effective_status;
use crate::http::spec_effective_status;
use crate::resolver::FsSnapshot;
use crate::resolver::spec_resolve;
use crate::unbound_channel::FrameSender;
use crate::unbound_channel::HeadReceiver;
use crate::unbound_channel::UnboundChannel;

verus! {

/// What a context has handed to its response channels: the head (at most
/// once), the body frames in order, and whether the end signal went out.
pub ghost struct DeliveryLog {
    pub head: Option<HeadView>,
    pub frames: Seq<Seq<u8>>,
    pub ended: bool,
}

/// The log of a context that has sent nothing yet.
pub open spec fn empty_log() -> DeliveryLog {
    DeliveryLog { head: Option::None, frames: Seq::empty(), ended: false }
}

/// The sending halves of one response: the one-shot head channel and the
/// body stream, each surrendered once used up.
pub struct ContextSender {
    head: Option<tokio::sync::oneshot::Sender<ResponseHead>>,
    body: Option<FrameSender>,
    log: Ghost<DeliveryLog>,
}

/// Mathematical image of a [`ContextSender`].
pub ghost struct SenderView {
    pub head_present: bool,
    pub body_present: bool,
    pub log: DeliveryLog,
}

impl View for ContextSender {
    type V = SenderView;

    closed spec fn view(&self) -> SenderView {
        SenderView {
            head_present: self.head is Some,
            body_present: self.body is Some,
            log: self.log@,
        }
    }
}

impl ContextSender {
    /// Creates the channels for one response: the receiving halves for the
    /// async consumer and a fresh sender pair for the context.
    pub fn receiver() -> (r: (HeadReceiver, UnboundChannel, ContextSender))
        ensures
            r.2@ == (SenderView { head_present: true, body_present: true, log: empty_log() }),
    {
        let (head_tx, head_rx) = crate::unbound_channel::new_head_pair();
        let (body_tx, body_rx) = UnboundChannel::new();
        let sender = ContextSender {
            head: Some(head_tx),
            body: Some(body_tx),
            log: Ghost(empty_log()),
        };
        (head_rx, body_rx, sender)
    }

    /// Sends the head if it was not sent yet; the log records it only on
    /// delivery. When the head is already gone this reports success and does
    /// nothing, so the head leaves at most once.
    fn send_head(&mut self, head: ResponseHead) -> (r: bool)
        ensures
            final(self)@.body_present == old(self)@.body_present,
            !final(self)@.head_present,
            final(self)@.log.frames == old(self)@.log.frames,
            final(self)@.log.ended == old(self)@.log.ended,
            !old(self)@.head_present ==> r && final(self)@.log == old(self)@.log,
            old(self)@.head_present && r ==> final(self)@.log == (DeliveryLog {
                head: Option::Some(head@),
                ..old(self)@.log
            }),
            old(self)@.head_present && !r ==> final(self)@.log == old(self)@.log,
    {
        match self.head.take() {
            Some(tx) => {
                let ghost h = head@;
                let ok = crate::unbound_channel::send_head(tx, head);
                if ok {
                    self.log = Ghost(DeliveryLog { head: Option::Some(h), ..self.log@ });
                }
                ok
            },
            None => true,
        }
    }

    /// Sends one body frame; the log records it only on delivery.
    fn send_frame(&mut self, data: Vec<u8>) -> (r: bool)
        requires
            old(self)@.body_present,
        ensures
            final(self)@.head_present == old(self)@.head_present,
            final(self)@.body_present,
            final(self)@.log.head == old(self)@.log.head,
            final(self)@.log.ended == old(self)@.log.ended,
            r ==> final(self)@.log.frames == old(self)@.log.frames.push(data@),
            !r ==> final(self)@.log == old(self)@.log,
    {
        let ghost d = data@;
        match &mut self.body {
            Some(tx) => {
                let ok = tx.send(data);
                if ok {
                    self.log = Ghost(DeliveryLog { frames: self.log@.frames.push(d), ..self.log@ });
                }
                ok
            },
            None => vstd::pervasive::unreached(),
        }
    }

    /// Whether the body receiver was dropped.
    fn body_closed(&self) -> (r: bool)
        requires
            self@.body_present,
    {
        match &self.body {
            Some(tx) => tx.is_closed(),
            None => vstd::pervasive::unreached(),
        }
    }

    /// Ends the body stream, surrendering its sender; the log records the
    /// end only when the signal was delivered.
    fn end_body(&mut self) -> (r: bool)
        requires
            old(self)@.body_present,
        ensures
            final(self)@.head_present == old(self)@.head_present,
            !final(self)@.body_present,
            final(self)@.log.head == old(self)@.log.head,
            final(self)@.log.frames == old(self)@.log.frames,
            r ==> final(self)@.log.ended,
            !r ==> final(self)@.log.ended == old(self)@.log.ended,
    {
        match self.body.take() {
            Some(tx) => {
                let ok = tx.abort();
                if ok {
                    self.log = Ghost(DeliveryLog { ended: true, ..self.log@ });
                }
                ok
            },
            None => vstd::pervasive::unreached(),
        }
    }

    /// Drops both sending halves unused, closing the channels downstream.
    fn drop_channels(&mut self)
        ensures
            !final(self)@.head_present,
            !final(self)@.body_present,
            final(self)@.log == old(self)@.log,
    {
        let _head = self.head.take();
        let _body = self.body.take();
    }
}

/// All per-request data, identity-scoped to exactly one HTTP request.
pub struct Context {
    root: Vec<u8>,
    script_name: Vec<u8>,
    path_info: Option<Vec<u8>>,
    stream: Stream,
    request: HttpRequest,
    body_pos: usize,
    headers_out: Vec<(Vec<u8>, Vec<u8>)>,
    engine_status: i32,
    buffer: Vec<u8>,
    flushed: bool,
    finished: bool,
    aborted: bool,
    id: u64,
    sender: ContextSender,
    written: Ghost<Seq<u8>>,
}

/// Mathematical image of a [`Context`].
pub ghost struct ContextView {
    pub root: Seq<u8>,
    pub script_name: Seq<u8>,
    pub path_info: Option<Seq<u8>>,
    pub stream: StreamView,
    pub request: RequestView,
    pub body_pos: int,
    pub headers_out: Seq<(Seq<u8>, Seq<u8>)>,
    pub engine_status: i32,
    pub buffer: Seq<u8>,
    pub flushed: bool,
    pub finished: bool,
    pub aborted: bool,
    pub id: u64,
    pub head_present: bool,
    pub body_present: bool,
    pub log: DeliveryLog,
    pub written: Seq<u8>,
}

impl View for Context {
    type V = ContextView;

    closed spec fn view(&self) -> ContextView {
        ContextView {
            root: self.root@,
            script_name: self.script_name@,
            path_info: match self.path_info {
                Option::Some(p) => Option::Some(p@),
                Option::None => Option::None,
            },
            stream: self.stream@,
            request: self.request@,
            body_pos: self.body_pos as int,
            headers_out: crate::http::headers_view(self.headers_out@),
            engine_status: self.engine_status,
            buffer: self.buffer@,
            flushed: self.flushed,
            finished: self.finished,
            aborted: self.aborted,
            id: self.id,
            head_present: self.sender@.head_present,
            body_present: self.sender@.body_present,
            log: self.sender@.log,
            written: self.written@,
        }
    }
}

impl ContextView {
    /// Well-formedness of a context: what construction establishes and every
    /// callback preserves.
    pub open spec fn wf(self) -> bool {
        &&& self.body_pos <= self.request.body.len()
        &&& (!self.finished && !self.flushed ==> self.head_present)
        &&& (self.flushed ==> !self.head_present)
        &&& (!self.finished ==> self.body_present)
        &&& (self.finished ==> !self.head_present && !self.body_present && self.buffer.len()
            == 0)
        &&& (self.log.frames.len() > 0 ==> self.log.head is Some)
        &&& (!self.flushed && !self.finished ==> self.log.head is None && self.log.frames.len()
            == 0)
        &&& (self.flushed && !self.aborted ==> (match self.log.head {
            Option::Some(h) => h.kind == ResponseType::Chunked,
            Option::None => false,
        }))
        &&& (self.log.ended ==> self.finished)
        &&& (!self.aborted ==> concat_seqs(self.log.frames) + self.buffer == self.written)
    }
}

impl Context {
    /// Builds the context for one request: resolves the URI against the
    /// snapshot and starts with a clean accumulator, the default `200`
    /// status, and nothing sent.
    pub fn new(
        root: Vec<u8>,
        fs: &FsSnapshot,
        stream: Stream,
        request: HttpRequest,
        sender: ContextSender,
        id: u64,
    ) -> (r: Context)
        requires
            sender@ == (SenderView { head_present: true, body_present: true, log: empty_log() }),
        ensures
            r@.wf(),
            r@.root == root@,
            r@.script_name == spec_resolve(fs@, request@.uri_path).script_name,
            r@.path_info == spec_resolve(fs@, request@.uri_path).path_info,
            r@.stream == stream@,
            r@.request == request@,
            r@.body_pos == 0,
            r@.headers_out.len() == 0,
            r@.engine_status == 200,
            r@.buffer.len() == 0,
            !r@.flushed,
            !r@.finished,
            !r@.aborted,
            r@.id == id,
            r@.log == empty_log(),
            r@.written.len() == 0,
    {
        let route = crate::resolver::resolve(fs, request.uri_path.as_slice());
        let r = Context {
            root,
            script_name: route.script_name,
            path_info: route.path_info,
            stream,
            request,
            body_pos: 0,
            headers_out: Vec::new(),
            engine_status: 200,
            buffer: Vec::new(),
            flushed: false,
            finished: false,
            aborted: false,
            id,
            sender,
            written: Ghost(Seq::empty()),
        };
        proof {
            assert(r@.headers_out =~= Seq::<(Seq<u8>, Seq<u8>)>::empty());
            assert(concat_seqs(r@.log.frames) + r@.buffer =~= r@.written);
        }
        r
    }

    /// The document root this request is served from.
    pub fn root(&self) -> (r: &Vec<u8>)
        ensures
            r@ == self@.root,
    {
        &self.root
    }

    /// The resolved script path, root-relative with a leading slash.
    pub fn script_name(&self) -> (r: &Vec<u8>)
        ensures
            r@ == self@.script_name,
    {
        &self.script_name
    }

    /// The residual path left after the script was identified.
    pub fn path_info(&self) -> (r: &Option<Vec<u8>>)
        ensures
            (match r {
                Option::Some(p) => self@.path_info == Option::Some(p@),
                Option::None => self@.path_info is None,
            }),
    {
        &self.path_info
    }

    /// The address the connection was accepted on.
    pub fn local_addr(&self) -> (r: &SocketAddress)
        ensures
            r@ == self@.stream.local_addr,
    {
        self.stream.local_addr()
    }

    /// The client's address.
    pub fn peer_addr(&self) -> (r: &SocketAddress)
        ensures
            r@ == self@.stream.peer_addr,
    {
        self.stream.peer_addr()
    }

    /// The inbound request.
    pub fn request(&self) -> (r: &HttpRequest)
        ensures
            r@ == self@.request,
    {
        &self.request
    }

    /// The identity this context was installed under.
    pub fn id(&self) -> (r: u64)
        ensures
            r == self@.id,
    {
        self.id
    }

    /// Whether the request was already finalized.
    pub fn is_request_finished(&self) -> (r: bool)
        ensures
            r == self@.finished,
    {
        self.finished
    }

    /// Whether the downstream consumer is known to be gone.
    pub fn is_aborted(&self) -> (r: bool)
        ensures
            r == self@.aborted,
    {
        self.aborted
    }
}

/// A context after a write of `data` was accepted: the bytes join the
/// buffer and the record of everything accepted so far.
pub open spec fn spec_write_accept(c: ContextView, data: Seq<u8>) -> ContextView {
    ContextView { buffer: c.buffer + data, written: c.written + data, ..c }
}

/// A context after a write was rejected because the downstream receiver is
/// gone: nothing is delivered and the context turns aborted.
pub open spec fn spec_write_reject(c: ContextView) -> ContextView {
    ContextView { aborted: true, ..c }
}

/// A context after a fully delivered flush: marked streaming, the head out
/// (on the first flush, carrying the headers gathered so far and the
/// effective status), and the buffered bytes pushed as one frame.
pub open spec fn spec_flush(c: ContextView) -> ContextView {
    ContextView {
        flushed: true,
        buffer: Seq::empty(),
        headers_out: if c.flushed {
            c.headers_out
        } else {
            Seq::empty()
        },
        head_present: false,
        log: DeliveryLog {
            head: if c.flushed {
                c.log.head
            } else {
                Option::Some(
                    HeadView {
                        status: spec_effective_status(c.engine_status),
                        headers: c.headers_out,
                        kind: ResponseType::Chunked,
                    },
                )
            },
            frames: if c.buffer.len() == 0 {
                c.log.frames
            } else {
                c.log.frames.push(c.buffer)
            },
            ended: c.log.ended,
        },
        ..c
    }
}

/// A context after a fully delivered finalize: finished, its channels
/// surrendered, the head out if no flush preceded (a `Full` response whose
/// body is the whole buffer), any remaining bytes pushed as a final frame,
/// and the stream ended.
pub open spec fn spec_finalize(c: ContextView) -> ContextView {
    ContextView {
        finished: true,
        buffer: Seq::empty(),
        headers_out: if c.flushed {
            c.headers_out
        } else {
            Seq::empty()
        },
        head_present: false,
        body_present: false,
        log: DeliveryLog {
            head: if c.flushed {
                c.log.head
            } else {
                Option::Some(
                    HeadView {
                        status: spec_effective_status(c.engine_status),
                        headers: c.headers_out,
                        kind: ResponseType::Full,
                    },
                )
            },
            frames: if c.buffer.len() == 0 {
                c.log.frames
            } else {
                c.log.frames.push(c.buffer)
            },
            ended: true,
        },
        ..c
    }
}

impl Context {
    /// Read-body callback: hands out up to `max_len` bytes of the still
    /// unread tail of the inbound body, removing them, and returns empty
    /// once the body is exhausted, whatever the declared content length.
    pub fn read_body(&mut self, max_len: usize) -> (r: Vec<u8>)
        requires
            old(self)@.wf(),
        ensures
            final(self)@.wf(),
            r@.len() == vstd::math::min(
                max_len as int,
                old(self)@.request.body.len() - old(self)@.body_pos,
            ),
            r@ == old(self)@.request.body.subrange(
                old(self)@.body_pos,
                old(self)@.body_pos + r@.len(),
            ),
            final(self)@ == (ContextView {
                body_pos: old(self)@.body_pos + r@.len(),
                ..old(self)@
            }),
    {
        let remaining = self.request.body.len() - self.body_pos;
        let take = if max_len < remaining {
            max_len
        } else {
            remaining
        };
        let out = crate::bytes_util::to_vec(
            vstd::slice::slice_subrange(
                self.request.body.as_slice(),
                self.body_pos,
                self.body_pos + take,
            ),
        );
        self.body_pos = self.body_pos + take;
        out
    }

    /// Emit-header callback: appends one header to the outbound accumulator.
    pub fn append_response_header(&mut self, name: Vec<u8>, value: Vec<u8>)
        requires
            old(self)@.wf(),
        ensures
            final(self)@.wf(),
            final(self)@ == (ContextView {
                headers_out: old(self)@.headers_out.push((name@, value@)),
                ..old(self)@
            }),
    {
        let ghost entry = (name@, value@);
        self.headers_out.push((name, value));
        proof {
            assert(self@.headers_out =~= old(self)@.headers_out.push(entry));
        }
    }

    /// Records the response code the engine set; what is sent is its
    /// effective form, decided when the head leaves.
    pub fn set_status(&mut self, code: i32)
        requires
            old(self)@.wf(),
        ensures
            final(self)@.wf(),
            final(self)@ == (ContextView { engine_status: code, ..old(self)@ }),
    {
        self.engine_status = code;
    }

    /// Write-output callback: appends `data` to the body buffer. Returns the
    /// number of bytes accepted and whether this very call detected the
    /// downstream disconnect — the abort notification, raised exactly once.
    /// After finalize, or once aborted, nothing is accepted.
    pub fn ub_write(&mut self, data: &[u8]) -> (r: (usize, bool))
        requires
            old(self)@.wf(),
        ensures
            final(self)@.wf(),
            old(self)@.finished || old(self)@.aborted ==> r.0 == 0 && !r.1
                && final(self)@ == old(self)@,
            !old(self)@.finished && !old(self)@.aborted ==> (r.0 == data@.len() && !r.1
                && final(self)@ == spec_write_accept(old(self)@, data@)) || (r.0 == 0 && r.1
                && final(self)@ == spec_write_reject(old(self)@)),
    {
        if self.finished || self.aborted {
            return (0, false);
        }
        if self.sender.body_closed() {
            self.aborted = true;
            return (0, true);
        }
        crate::bytes_util::push_all(&mut self.buffer, data);
        proof {
            self.written = Ghost(self.written@ + data@);
            assert(concat_seqs(self@.log.frames) + self@.buffer =~= self@.written);
        }
        (data.len(), false)
    }

    /// Flush callback: the first flush marks the response `Chunked` and
    /// sends the head exactly once; every flush pushes the bytes buffered
    /// since the last one downstream as a frame. Returns whether everything
    /// was accepted; after finalize, or once aborted, it does nothing.
    pub fn flush(&mut self) -> (r: bool)
        requires
            old(self)@.wf(),
        ensures
            final(self)@.wf(),
            old(self)@.finished || old(self)@.aborted ==> !r && final(self)@ == old(self)@,
            !old(self)@.finished && !old(self)@.aborted ==> (r && final(self)@ == spec_flush(
                old(self)@,
            )) || (!r && final(self)@.aborted && final(self)@.finished == old(self)@.finished),
    {
        if self.finished || self.aborted {
            return false;
        }
        let first = !self.flushed;
        self.flushed = true;
        if first {
            let mut hdrs: Vec<(Vec<u8>, Vec<u8>)> = Vec::new();
            core::mem::swap(&mut self.headers_out, &mut hdrs);
            let head = ResponseHead {
                status: effective_status(self.engine_status),
                headers: hdrs,
                kind: ResponseType::Chunked,
            };
            let ok = self.sender.send_head(head);
            if !ok {
                self.aborted = true;
                return false;
            }
        }
        if self.buffer.len() > 0 {
            let ghost frames_before = self@.log.frames;
            let ghost chunk = self.buffer@;
            let mut buf: Vec<u8> = Vec::new();
            core::mem::swap(&mut self.buffer, &mut buf);
            let ok = self.sender.send_frame(buf);
            if !ok {
                self.aborted = true;
                return false;
            }
            proof {
                lemma_concat_push(frames_before, chunk);
                assert(concat_seqs(self@.log.frames) + self@.buffer =~= self@.written);
            }
        }
        proof {
            if first {
                assert(self@.headers_out =~= Seq::<(Seq<u8>, Seq<u8>)>::empty());
            }
            assert(self@.buffer =~= Seq::<u8>::empty());
            assert(self@ == spec_flush(old(self)@));
        }
        true
    }

    /// Finalize callback: idempotent — returns failure once finished. With
    /// no flush before it, the head leaves now as a `Full` response followed
    /// by the whole buffered body; after a flush, the remaining bytes leave
    /// as a final frame. Either way the stream is ended and the channel
    /// resources are released, whatever the downstream did.
    pub fn finish_request(&mut self) -> (r: bool)
        requires
            old(self)@.wf(),
        ensures
            final(self)@.wf(),
            r ==> !old(self)@.finished,
            old(self)@.finished ==> !r && final(self)@ == old(self)@,
            !old(self)@.finished ==> final(self)@.finished && !final(self)@.head_present
                && !final(self)@.body_present && final(self)@.buffer.len() == 0,
            !old(self)@.finished && old(self)@.aborted ==> !r
                && final(self)@.log == old(self)@.log,
            !old(self)@.finished && !old(self)@.aborted ==> (r && final(self)@ == spec_finalize(
                old(self)@,
            )) || (!r && final(self)@.aborted),
    {
        if self.finished {
            return false;
        }
        self.finished = true;
        if self.aborted {
            self.sender.drop_channels();
            self.buffer.clear();
            return false;
        }
        let first = !self.flushed;
        if first {
            let mut hdrs: Vec<(Vec<u8>, Vec<u8>)> = Vec::new();
            core::mem::swap(&mut self.headers_out, &mut hdrs);
            let head = ResponseHead {
                status: effective_status(self.engine_status),
                headers: hdrs,
                kind: ResponseType::Full,
            };
            let ok = self.sender.send_head(head);
            if !ok {
                self.aborted = true;
                self.sender.drop_channels();
                self.buffer.clear();
                return false;
            }
        }
        if self.buffer.len() > 0 {
            let ghost frames_before = self@.log.frames;
            let ghost chunk = self.buffer@;
            let mut buf: Vec<u8> = Vec::new();
            core::mem::swap(&mut self.buffer, &mut buf);
            let ok = self.sender.send_frame(buf);
            if !ok {
                self.aborted = true;
                self.sender.drop_channels();
                return false;
            }
            proof {
                lemma_concat_push(frames_before, chunk);
                assert(concat_seqs(self@.log.frames) + self@.buffer =~= self@.written);
            }
        }
        let ok = self.sender.end_body();
        if !ok {
            self.aborted = true;
            self.sender.drop_channels();
            return false;
        }
        self.sender.drop_channels();
        proof {
            if first {
                assert(self@.headers_out =~= Seq::<(Seq<u8>, Seq<u8>)>::empty());
            }
            assert(self@.buffer =~= Seq::<u8>::empty());
            assert(self@ == spec_finalize(old(self)@));
        }
        true
    }
}

/// Head-before-body ordering: in every reachable context state a body frame
/// stands in the delivery record only if the head was already delivered.
/// The consumer takes the head channel first, so it observes the head
/// strictly before any body frame, for every interleaving of writes before
/// and after the first flush.
pub proof fn lemma_head_before_body(c: ContextView)
    requires
        c.wf(),
    ensures
        c.log.frames.len() > 0 ==> c.log.head is Some,
{
}

/// Finalize idempotence: finalizing a live context finishes it and ends the
/// stream, and what was already delivered stays exactly as it was, extended
/// by at most the one final frame. By the contract of
/// [`Context::finish_request`], any call on a finished context returns
/// failure and leaves the delivery record untouched, so output is never
/// delivered twice.
pub proof fn lemma_finalize_idempotent(c: ContextView)
    requires
        c.wf(),
        !c.finished,
    ensures
        spec_finalize(c).finished,
        spec_finalize(c).log.ended,
        spec_finalize(c).log.frames == c.log.frames || spec_finalize(c).log.frames
            == c.log.frames.push(c.buffer),
        c.flushed ==> spec_finalize(c).log.head == c.log.head,
{
}

/// Full vs Chunked classification: a context that never flushed delivers on
/// finalize exactly one `Full` head and at most one frame holding the whole
/// accepted body; one that flushed delivers the `Chunked` head at the first
/// flush, at least one frame when anything was written, and the explicit end
/// signal. Either way the frames together carry exactly the accepted bytes.
pub proof fn lemma_full_vs_chunked(c: ContextView)
    requires
        c.wf(),
        !c.finished,
        !c.aborted,
    ensures
        !c.flushed ==> ({
            let f = spec_finalize(c);
            &&& (match f.log.head {
                Option::Some(h) => h.kind == ResponseType::Full && h.status
                    == spec_effective_status(c.engine_status) && h.headers == c.headers_out,
                Option::None => false,
            })
            &&& concat_seqs(f.log.frames) == c.written
            &&& f.log.frames.len() <= 1
            &&& f.log.ended
        }),
        c.flushed ==> ({
            let f = spec_finalize(c);
            &&& f.log.head == c.log.head
            &&& (match c.log.head {
                Option::Some(h) => h.kind == ResponseType::Chunked,
                Option::None => false,
            })
            &&& concat_seqs(f.log.frames) == c.written
            &&& (c.written.len() > 0 ==> f.log.frames.len() >= 1)
            &&& f.log.ended
        }),
{
    let f = spec_finalize(c);
    assert(concat_seqs(Seq::<Seq<u8>>::empty()) =~= Seq::<u8>::empty());
    if c.buffer.len() == 0 {
        assert(concat_seqs(c.log.frames) + c.buffer =~= concat_seqs(c.log.frames));
    } else {
        lemma_concat_push(c.log.frames, c.buffer);
    }
    if !c.flushed {
        assert(c.log.frames.len() == 0);
        assert(concat_seqs(f.log.frames) == c.written);
    } else {
        if c.written.len() > 0 && c.buffer.len() == 0 {
            if c.log.frames.len() == 0 {
                assert(c.written =~= Seq::<u8>::empty());
            }
        }
    }
}

/// Abort propagation: a write that finds the body receiver gone is rejected
/// with zero bytes accepted and raises the abort notification; nothing joins
/// the delivery record, and the context turns aborted. By the contract of
/// [`Context::ub_write`], every later write on the aborted context reports
/// zero bytes again without raising the notification a second time.
pub proof fn lemma_abort_notified_once(c: ContextView)
    requires
        c.wf(),
        !c.finished,
        !c.aborted,
    ensures
        spec_write_reject(c).aborted,
        spec_write_reject(c).log == c.log,
        spec_write_reject(c).written == c.written,
        spec_write_reject(c).wf(),
{
}

} // verus!
