//! The capability runtime: requests that the core asks the shell to perform,
//! each with a correlation handle that is resolved at most once.
use vstd::prelude::*;
use crate::app::{Event, EventV};

verus! {

/// What the shell is asked to do with a tag.
#[derive(Clone, Debug, PartialEq, Eq)]
pub enum TagReaderOperation {
    WriteUrl(String),
    ReadUrl,
}

/// What the shell reports back from a tag operation.
#[derive(Clone, Debug, PartialEq, Eq)]
pub enum TagReaderOutput {
    Url(String),
    Written,
    Error(String),
}

pub enum OperationV {
    WriteUrl(Seq<char>),
    ReadUrl,
}

pub enum OutputV {
    Url(Seq<char>),
    Written,
    Error(Seq<char>),
}

impl View for TagReaderOperation {
    type V = OperationV;

    open spec fn view(&self) -> OperationV {
        match self {
            TagReaderOperation::WriteUrl(u) => OperationV::WriteUrl(u@),
            TagReaderOperation::ReadUrl => OperationV::ReadUrl,
        }
    }
}

impl View for TagReaderOutput {
    type V = OutputV;

    open spec fn view(&self) -> OutputV {
        match self {
            TagReaderOutput::Url(u) => OutputV::Url(u@),
            TagReaderOutput::Written => OutputV::Written,
            TagReaderOutput::Error(e) => OutputV::Error(e@),
        }
    }
}

/// How the shell's answer to a request re-enters the core as an event.
#[derive(Clone, Copy, Debug, PartialEq, Eq, Structural)]
pub enum Continuation {
    ScannedUrl,
    TagWritten,
}

pub open spec fn continue_spec(k: Continuation, out: OutputV) -> EventV {
    match k {
        Continuation::ScannedUrl => EventV::ScannedUrl(out),
        Continuation::TagWritten => EventV::TagWritten(out),
    }
}

impl Continuation {
    pub fn make_event(self, out: TagReaderOutput) -> (r: Event)
        ensures
            r@ == continue_spec(self, out@),
    {
        match self {
            Continuation::ScannedUrl => Event::ScannedUrl(out),
            Continuation::TagWritten => Event::TagWritten(out),
        }
    }
}

/// A tag request together with the handle that its answer must quote.
#[derive(Clone, Debug)]
pub struct Request {
    pub handle: usize,
    pub operation: TagReaderOperation,
}

/// A side effect that the core asks the shell to perform.
#[derive(Clone, Debug)]
pub enum Effect {
    TagReader(Request),
    Render,
}

pub enum EffectV {
    Tag { handle: nat, op: OperationV },
    Render,
}

impl View for Effect {
    type V = EffectV;

    open spec fn view(&self) -> EffectV {
        match self {
            Effect::TagReader(r) => EffectV::Tag { handle: r.handle as nat, op: r.operation@ },
            Effect::Render => EffectV::Render,
        }
    }
}

impl Effect {
    /// The tag request, if this effect is one.
    pub fn into_tag_reader(self) -> (r: Option<Request>)
        ensures
            match self {
                Effect::TagReader(q) => r == Some(q),
                Effect::Render => r is None,
            },
    {
        match self {
            Effect::TagReader(q) => Some(q),
            Effect::Render => None,
        }
    }
}

/// The state of the runtime: for each handle ever issued, the continuation
/// still waiting for its answer (`None` once answered), and the effects issued
/// and not yet handed to the shell.
pub ghost struct ContextV {
    pub pending: Seq<Option<Continuation>>,
    pub outbox: Seq<EffectV>,
}

/// The runtime after issuing a tag request: it gets the next handle.
pub open spec fn issue_spec(c: ContextV, op: OperationV, k: Continuation) -> ContextV {
    ContextV {
        pending: c.pending.push(Some(k)),
        outbox: c.outbox.push(EffectV::Tag { handle: c.pending.len(), op }),
    }
}

/// The runtime after a render notification.
pub open spec fn render_spec(c: ContextV) -> ContextV {
    ContextV { pending: c.pending, outbox: c.outbox.push(EffectV::Render) }
}

/// The handle is waiting for its answer.
pub open spec fn is_pending(c: ContextV, handle: nat) -> bool {
    handle < c.pending.len() && c.pending[handle as int] is Some
}

/// The runtime once the handle has been answered.
pub open spec fn resolve_spec(c: ContextV, handle: nat) -> ContextV {
    ContextV { pending: c.pending.update(handle as int, None), outbox: c.outbox }
}

/// Why an answer from the shell was refused.
#[derive(Debug, Clone, Copy, PartialEq, Eq, Structural)]
pub enum ResolveError {
    /// No request was ever issued with this handle.
    UnknownHandle,
    /// The request with this handle has been answered already.
    AlreadyResolved,
}

/// Issued requests and their correlation table.
pub struct CapabilityContext {
    pending: Vec<Option<Continuation>>,
    outbox: Vec<Effect>,
}

impl View for CapabilityContext {
    type V = ContextV;

    closed spec fn view(&self) -> ContextV {
        ContextV { pending: self.pending@, outbox: self.outbox@.map_values(|e: Effect| e@) }
    }
}

impl CapabilityContext {
    pub fn new() -> (r: Self)
        ensures
            r@.pending.len() == 0,
            r@.outbox.len() == 0,
    {
        let r = CapabilityContext { pending: Vec::new(), outbox: Vec::new() };
        assert(r@.outbox =~= Seq::<EffectV>::empty());
        r
    }

    fn push_effect(&mut self, e: Effect)
        ensures
            final(self)@ == (ContextV { pending: old(self)@.pending, outbox: old(self)@.outbox.push(e@) }),
    {
        self.outbox.push(e);
        assert(self@.outbox =~= old(self)@.outbox.push(e@));
    }

    fn issue(&mut self, operation: TagReaderOperation, make_event: Continuation)
        ensures
            final(self)@ == issue_spec(old(self)@, operation@, make_event),
    {
        let handle = self.pending.len();
        self.pending.push(Some(make_event));
        self.push_effect(Effect::TagReader(Request { handle, operation }));
    }

    /// Hands the shell's answer to the request with `handle` to its
    /// continuation, and returns the event that re-enters the core.
    pub fn resolve(&mut self, handle: usize, output: TagReaderOutput) -> (r: Result<Event, ResolveError>)
        ensures
            r is Ok <==> is_pending(old(self)@, handle as nat),
            r matches Ok(ev) ==> {
                &&& ev@ == continue_spec(old(self)@.pending[handle as int]->Some_0, output@)
                &&& final(self)@ == resolve_spec(old(self)@, handle as nat)
            },
            r is Err ==> final(self)@ == old(self)@,
            r == Err::<Event, _>(ResolveError::UnknownHandle) <==> handle >= old(self)@.pending.len(),
    {
        if handle >= self.pending.len() {
            return Err(ResolveError::UnknownHandle);
        }
        match self.pending[handle] {
            None => Err(ResolveError::AlreadyResolved),
            Some(k) => {
                self.pending.set(handle, None);
                Ok(k.make_event(output))
            },
        }
    }

    /// Hands over the effects issued since the last call.
    pub fn take_effects(&mut self) -> (r: Vec<Effect>)
        ensures
            r@.map_values(|e: Effect| e@) == old(self)@.outbox,
            final(self)@ == (ContextV { pending: old(self)@.pending, outbox: Seq::empty() }),
    {
        let mut r: Vec<Effect> = Vec::new();
        std::mem::swap(&mut r, &mut self.outbox);
        assert(self@.outbox =~= Seq::<EffectV>::empty());
        r
    }
}

/// Reads and writes tags through the shell.
pub struct TagReader;

impl TagReader {
    pub fn new() -> Self {
        TagReader
    }

    /// Asks the shell to read a tag; its answer comes back through `make_event`.
    pub fn read_url(&self, context: &mut CapabilityContext, make_event: Continuation)
        ensures
            final(context)@ == issue_spec(old(context)@, OperationV::ReadUrl, make_event),
    {
        context.issue(TagReaderOperation::ReadUrl, make_event);
    }

    /// Asks the shell to write `url_string` to a tag; its answer comes back
    /// through `make_event`.
    pub fn write_url(&self, context: &mut CapabilityContext, url_string: &str, make_event: Continuation)
        ensures
            final(context)@ == issue_spec(old(context)@, OperationV::WriteUrl(url_string@), make_event),
    {
        context.issue(TagReaderOperation::WriteUrl(String::from_str(url_string)), make_event);
    }
}

/// Tells the shell that the view may have changed.
pub struct Render;

impl Render {
    pub fn new() -> Self {
        Render
    }

    pub fn render(&self, context: &mut CapabilityContext)
        ensures
            final(context)@ == render_spec(old(context)@),
    {
        context.push_effect(Effect::Render);
    }
}

/// The capabilities the core is given.
pub struct Capabilities {
    pub tag_reader: TagReader,
    pub render: Render,
}

impl Capabilities {
    pub fn new() -> Self {
        Capabilities { tag_reader: TagReader::new(), render: Render::new() }
    }
}

} // verus!
