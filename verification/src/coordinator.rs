//! The execution slot and the protocol that hands a context to the engine.
//!
//! The engine keeps a single "current request" location per execution
//! thread. Here that location is an owned, thread-confined slot: a context
//! is installed before the engine's per-request lifecycle starts, every
//! callback reaches the context only through the slot, and release verifies
//! that the slot still holds the very context that was installed — anything
//! else is a contained consistency error for that request, never a crash.
//! Release and eviction force a finalize on a context that never finished,
//! so cleanup runs even after abnormal engine termination.

use vstd::prelude::*;

use crate::context::Context;
use crate::context::ContextView;
use crate::context::spec_finalize;
use crate::context::spec_flush;
use crate::context::spec_write_accept;
use crate::context::spec_write_reject;
use crate::error::PhpError;

verus! {

/// The engine's single per-thread "current request" location, as an owned
/// slot: at most one context is installed at any instant.
pub struct ExecutionSlot {
    current: Option<Context>,
}

impl View for ExecutionSlot {
    type V = Option<ContextView>;

    closed spec fn view(&self) -> Option<ContextView> {
        match self.current {
            Option::Some(ref c) => Option::Some(c@),
            Option::None => Option::None,
        }
    }
}

impl ExecutionSlot {
    /// An empty slot, one per execution thread.
    pub fn new() -> (r: ExecutionSlot)
        ensures
            r@ is None,
    {
        ExecutionSlot { current: None }
    }

    /// Whether a context is installed.
    pub fn is_installed(&self) -> (r: bool)
        ensures
            r == (self@ is Some),
    {
        match &self.current {
            Some(_) => true,
            None => false,
        }
    }

    /// The installed context, read-only, for callbacks that only derive
    /// data from it.
    pub fn installed_context(&self) -> (r: Option<&Context>)
        ensures
            (match r {
                Some(c) => self@ == Some(c@),
                None => self@ is None,
            }),
    {
        match &self.current {
            Some(c) => Some(c),
            None => None,
        }
    }

    /// Installs a context for one execution, returning its identity. A slot
    /// already holding a context refuses and hands the new one back: two
    /// requests never share the slot.
    pub fn install(&mut self, ctx: Context) -> (r: Result<u64, Context>)
        ensures
            (match r {
                Ok(id) => old(self)@ is None && final(self)@ == Some(ctx@) && id == ctx@.id,
                Err(back) => old(self)@ is Some && final(self)@ == old(self)@ && back@ == ctx@,
            }),
    {
        match &self.current {
            Some(_) => Err(ctx),
            None => {
                let id = ctx.id();
                self.current = Some(ctx);
                Ok(id)
            },
        }
    }

    /// Write-output callback on the installed context; with an empty slot
    /// nothing is accepted.
    pub fn ub_write(&mut self, data: &[u8]) -> (r: (usize, bool))
        requires
            (match old(self)@ {
                Some(c) => c.wf(),
                None => true,
            }),
        ensures
            (match old(self)@ {
                Some(c) => final(self)@ matches Some(c2) && c2.wf() && {
                    &&& (c.finished || c.aborted ==> r.0 == 0 && !r.1 && c2 == c)
                    &&& (!c.finished && !c.aborted ==> (r.0 == data@.len() && !r.1 && c2
                        == spec_write_accept(c, data@)) || (r.0 == 0 && r.1 && c2
                        == spec_write_reject(c)))
                },
                None => r.0 == 0 && !r.1 && final(self)@ is None,
            }),
    {
        match &mut self.current {
            Some(c) => c.ub_write(data),
            None => (0, false),
        }
    }

    /// Flush callback on the installed context; a no-op on an empty slot.
    pub fn flush(&mut self) -> (r: bool)
        requires
            (match old(self)@ {
                Some(c) => c.wf(),
                None => true,
            }),
        ensures
            (match old(self)@ {
                Some(c) => final(self)@ matches Some(c2) && c2.wf() && {
                    &&& (c.finished || c.aborted ==> !r && c2 == c)
                    &&& (!c.finished && !c.aborted ==> (r && c2 == spec_flush(c)) || (!r
                        && c2.aborted && c2.finished == c.finished))
                },
                None => !r && final(self)@ is None,
            }),
    {
        match &mut self.current {
            Some(c) => c.flush(),
            None => false,
        }
    }

    /// Finalize callback on the installed context; failure on an empty slot.
    pub fn finish_request(&mut self) -> (r: bool)
        requires
            (match old(self)@ {
                Some(c) => c.wf(),
                None => true,
            }),
        ensures
            (match old(self)@ {
                Some(c) => final(self)@ matches Some(c2) && c2.wf() && {
                    &&& (r ==> !c.finished)
                    &&& (c.finished ==> !r && c2 == c)
                    &&& (!c.finished ==> c2.finished)
                    &&& (!c.finished && !c.aborted ==> (r && c2 == spec_finalize(c)) || (!r
                        && c2.aborted))
                    &&& (!c.finished && c.aborted ==> !r && c2.log == c.log)
                },
                None => !r && final(self)@ is None,
            }),
    {
        match &mut self.current {
            Some(c) => c.finish_request(),
            None => false,
        }
    }

    /// Read-body callback on the installed context; empty with no context.
    pub fn read_body(&mut self, max_len: usize) -> (r: Vec<u8>)
        requires
            (match old(self)@ {
                Some(c) => c.wf(),
                None => true,
            }),
        ensures
            (match old(self)@ {
                Some(c) => final(self)@ matches Some(c2) && c2.wf() && r@.len()
                    == vstd::math::min(max_len as int, c.request.body.len() - c.body_pos) && r@
                    == c.request.body.subrange(c.body_pos, c.body_pos + r@.len()) && c2 == (
                ContextView { body_pos: c.body_pos + r@.len(), ..c }),
                None => r@.len() == 0 && final(self)@ is None,
            }),
    {
        match &mut self.current {
            Some(c) => c.read_body(max_len),
            None => Vec::new(),
        }
    }

    /// Emit-header callback on the installed context; dropped with none.
    pub fn append_response_header(&mut self, name: Vec<u8>, value: Vec<u8>)
        requires
            (match old(self)@ {
                Some(c) => c.wf(),
                None => true,
            }),
        ensures
            (match old(self)@ {
                Some(c) => final(self)@ matches Some(c2) && c2.wf() && c2 == (ContextView {
                    headers_out: c.headers_out.push((name@, value@)),
                    ..c
                }),
                None => final(self)@ is None,
            }),
    {
        match &mut self.current {
            Some(c) => c.append_response_header(name, value),
            None => (),
        }
    }

    /// Records the response code the engine set; dropped with no context.
    pub fn set_status(&mut self, code: i32)
        requires
            (match old(self)@ {
                Some(c) => c.wf(),
                None => true,
            }),
        ensures
            (match old(self)@ {
                Some(c) => final(self)@ matches Some(c2) && c2.wf() && c2 == (ContextView {
                    engine_status: code,
                    ..c
                }),
                None => final(self)@ is None,
            }),
    {
        match &mut self.current {
            Some(c) => c.set_status(code),
            None => (),
        }
    }

    /// Releases the slot at the end of an execution, verifying it still
    /// holds the context that was installed. A context that never finished —
    /// a script without an explicit finish, or an abnormal termination — is
    /// finalized now, so its response always leaves. An empty slot or a
    /// foreign context is a contained consistency error for this request.
    pub fn release(&mut self, expected_id: u64) -> (r: Result<Context, PhpError>)
        requires
            (match old(self)@ {
                Some(c) => c.wf(),
                None => true,
            }),
        ensures
            final(self)@ is None,
            (match r {
                Ok(ctx) => {
                    &&& old(self)@ matches Some(c) && c.id == expected_id
                    &&& ctx@.wf()
                    &&& ctx@.finished
                    &&& (match old(self)@ {
                        Some(c) => (c.finished ==> ctx@ == c) && (!c.finished && !c.aborted
                            ==> ctx@ == spec_finalize(c) || ctx@.aborted) && (!c.finished
                            && c.aborted ==> ctx@.log == c.log),
                        None => false,
                    })
                },
                Err(e) => e == PhpError::ServerContextCorrupted && (match old(self)@ {
                    Some(c) => c.id != expected_id,
                    None => true,
                }),
            }),
    {
        match self.current.take() {
            Some(mut ctx) => {
                if ctx.id() != expected_id {
                    return Err(PhpError::ServerContextCorrupted);
                }
                if !ctx.is_request_finished() {
                    let _delivered = ctx.finish_request();
                }
                Ok(ctx)
            },
            None => Err(PhpError::ServerContextCorrupted),
        }
    }

    /// Evicts whatever the slot holds when a connection is torn down before
    /// its request finished normally: the context is force-finalized and
    /// dropped. Returns false only when that forced finalize could not
    /// deliver, so the caller can notify the engine of the aborted
    /// connection.
    pub fn deactivate(&mut self) -> (r: bool)
        requires
            (match old(self)@ {
                Some(c) => c.wf(),
                None => true,
            }),
        ensures
            final(self)@ is None,
            old(self)@ is None ==> r,
            (match old(self)@ {
                Some(c) => (c.finished ==> r) && (!c.finished && c.aborted ==> !r),
                None => true,
            }),
    {
        match self.current.take() {
            Some(mut ctx) => {
                if !ctx.is_request_finished() {
                    ctx.finish_request()
                } else {
                    true
                }
            },
            None => true,
        }
    }
}

/// Capacity of the dispatch queue in front of a worker pool: ten waiting
/// requests per worker give backpressure without starving a busy pool.
pub fn pool_capacity(workers: usize) -> (r: usize)
    requires
        workers <= usize::MAX / 10,
    ensures
        r == workers * 10,
{
    workers * 10
}

} // verus!
