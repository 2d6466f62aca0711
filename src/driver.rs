//! Drivers of the update cycle: a session core that owns its model, and a
//! harness that resolves requests by hand for tests.
use vstd::prelude::*;
use crate::app::{
    AnimalHunt, Event, EventV, InvalidEvent, Model, ModelV, ViewModel, accepts, mode_of,
    next_model, pass_spec, view_spec,
};
use crate::capabilities::{
    Capabilities, CapabilityContext, ContextV, Continuation, Effect, EffectV, Request, ResolveError,
    TagReaderOutput, continue_spec, is_pending, resolve_spec,
};

verus! {

pub open spec fn effects_view(v: Seq<Effect>) -> Seq<EffectV> {
    v.map_values(|e: Effect| e@)
}

/// The pending requests of `c`, with nothing waiting to be handed out.
pub open spec fn drained(c: ContextV) -> ContextV {
    ContextV { pending: c.pending, outbox: Seq::empty() }
}

/// What the core did with an event: the effects it issued, and the events
/// that answers from the shell produced.
pub struct Update {
    pub effects: Vec<Effect>,
    pub events: Vec<Event>,
}

impl Update {
    pub fn into_effects(self) -> (r: Vec<Effect>)
        ensures
            r == self.effects,
    {
        self.effects
    }
}

/// Why the session core refused an answer from the shell.
#[derive(Clone, Copy, Debug, PartialEq, Eq, Structural)]
pub enum CoreError {
    /// The answer quotes no request that is waiting for one.
    Resolve(ResolveError),
    /// The event that the answer produced cannot occur in the current mode.
    Invalid(InvalidEvent),
}

/// One session: the model, the capabilities and their runtime.
pub struct Core {
    app: AnimalHunt,
    model: Model,
    capabilities: Capabilities,
    context: CapabilityContext,
}

impl Core {
    /// Every effect issued has been handed out.
    pub closed spec fn wf(self) -> bool {
        self.context@.outbox.len() == 0
    }

    pub closed spec fn model_view(self) -> ModelV {
        self.model@
    }

    /// For each handle issued, the continuation still waiting for its answer.
    pub closed spec fn pending(self) -> Seq<Option<Continuation>> {
        self.context@.pending
    }

    pub closed spec fn context_view(self) -> ContextV {
        self.context@
    }

    pub fn new() -> (r: Core)
        ensures
            r.wf(),
            r.model_view() == (ModelV::Practice { animal: None, error: None }),
            r.pending().len() == 0,
    {
        Core {
            app: AnimalHunt::new(),
            model: Model::default(),
            capabilities: Capabilities::new(),
            context: CapabilityContext::new(),
        }
    }

    /// Runs one event through the core and returns the effects it issued.
    pub fn process_event(&mut self, event: Event) -> (r: Result<Vec<Effect>, InvalidEvent>)
        requires
            old(self).wf(),
        ensures
            final(self).wf(),
            r is Ok <==> accepts(old(self).model_view(), event@),
            r matches Ok(effects) ==> {
                let after = pass_spec(
                    ContextV { pending: old(self).pending(), outbox: Seq::empty() },
                    old(self).model_view(),
                    event@,
                );
                &&& final(self).model_view() == next_model(old(self).model_view(), event@)
                &&& effects_view(effects@) == after.outbox
                &&& final(self).pending() == after.pending
            },
            r matches Err(e) ==> e.mode == mode_of(old(self).model_view()) && final(self).model_view()
                == old(self).model_view() && final(self).pending() == old(self).pending(),
    {
        let ghost c0 = self.context@;
        assert(c0.outbox =~= Seq::empty());
        assert(c0 == (ContextV { pending: c0.pending, outbox: Seq::empty() }));
        let r = self.app.update(event, &mut self.model, &self.capabilities, &mut self.context);
        match r {
            Ok(()) => {
                let effects = self.context.take_effects();
                Ok(effects)
            },
            Err(e) => Err(e),
        }
    }

    /// Hands the shell's answer to `request` back to its continuation and
    /// runs the event that it makes through the core.
    pub fn resolve(&mut self, request: &Request, output: TagReaderOutput) -> (r: Result<
        Vec<Effect>,
        CoreError,
    >)
        requires
            old(self).wf(),
        ensures
            final(self).wf(),
            !is_pending(old(self).context_view(), request.handle as nat) ==> r is Err && r->Err_0
                is Resolve && final(self).model_view() == old(self).model_view()
                && final(self).pending() == old(self).pending(),
            is_pending(old(self).context_view(), request.handle as nat) ==> {
                let ev = continue_spec(old(self).pending()[request.handle as int]->Some_0, output@);
                let c1 = resolve_spec(old(self).context_view(), request.handle as nat);
                &&& (r is Ok <==> accepts(old(self).model_view(), ev))
                &&& r matches Ok(effects) ==> {
                    let after = pass_spec(c1, old(self).model_view(), ev);
                    &&& final(self).model_view() == next_model(old(self).model_view(), ev)
                    &&& effects_view(effects@) == after.outbox
                    &&& final(self).pending() == after.pending
                }
                &&& r matches Err(e) ==> e == CoreError::Invalid(InvalidEvent { mode: mode_of(old(self).model_view()) })
                    && final(self).model_view() == old(self).model_view()
                    && final(self).pending() == c1.pending
            },
    {
        let event = match self.context.resolve(request.handle, output) {
            Ok(ev) => ev,
            Err(e) => {
                return Err(CoreError::Resolve(e));
            },
        };
        match self.app.update(event, &mut self.model, &self.capabilities, &mut self.context) {
            Ok(()) => Ok(self.context.take_effects()),
            Err(e) => Err(CoreError::Invalid(e)),
        }
    }

    /// The view of the session's model.
    pub fn view(&self) -> (r: ViewModel)
        ensures
            r@ == view_spec(self.model_view()),
    {
        self.app.view(&self.model)
    }
}

/// A harness that drives the core over a model that the test holds, and
/// answers requests in place of a shell.
pub struct AppTester {
    app: AnimalHunt,
    capabilities: Capabilities,
    context: CapabilityContext,
}

impl AppTester {
    /// Every effect issued has been handed out.
    pub closed spec fn wf(self) -> bool {
        self.context@.outbox.len() == 0
    }

    pub closed spec fn context_view(self) -> ContextV {
        self.context@
    }

    pub fn new() -> (r: AppTester)
        ensures
            r.wf(),
            r.context_view().pending.len() == 0,
    {
        AppTester { app: AnimalHunt::new(), capabilities: Capabilities::new(), context: CapabilityContext::new() }
    }

    /// Runs one event through the core; the update holds the effects issued.
    pub fn update(&mut self, event: Event, model: &mut Model) -> (r: Result<Update, InvalidEvent>)
        requires
            old(self).wf(),
        ensures
            final(self).wf(),
            r is Ok <==> accepts(old(model)@, event@),
            r matches Ok(u) ==> {
                let after = pass_spec(old(self).context_view(), old(model)@, event@);
                &&& final(model)@ == next_model(old(model)@, event@)
                &&& effects_view(u.effects@) == after.outbox
                &&& u.events@.len() == 0
                &&& final(self).context_view() == drained(after)
            },
            r matches Err(e) ==> e.mode == mode_of(old(model)@) && *final(model) == *old(model)
                && final(self).context_view() == old(self).context_view(),
    {
        match self.app.update(event, model, &self.capabilities, &mut self.context) {
            Ok(()) => {
                let effects = self.context.take_effects();
                Ok(Update { effects, events: Vec::new() })
            },
            Err(e) => Err(e),
        }
    }

    /// Answers `request` with `output`; the update holds the event that the
    /// answer makes, for the test to feed back in.
    pub fn resolve(&mut self, request: &Request, output: TagReaderOutput) -> (r: Result<
        Update,
        ResolveError,
    >)
        requires
            old(self).wf(),
        ensures
            final(self).wf(),
            r is Ok <==> is_pending(old(self).context_view(), request.handle as nat),
            r matches Ok(u) ==> {
                &&& u.effects@.len() == 0
                &&& u.events@.len() == 1
                &&& u.events@[0]@ == continue_spec(
                    old(self).context_view().pending[request.handle as int]->Some_0,
                    output@,
                )
                &&& final(self).context_view() == resolve_spec(
                    old(self).context_view(),
                    request.handle as nat,
                )
            },
            r is Err ==> final(self).context_view() == old(self).context_view(),
            r == Err::<Update, _>(ResolveError::UnknownHandle) <==> request.handle
                >= old(self).context_view().pending.len(),
    {
        match self.context.resolve(request.handle, output) {
            Ok(ev) => {
                let mut events: Vec<Event> = Vec::new();
                events.push(ev);
                Ok(Update { effects: Vec::new(), events })
            },
            Err(e) => Err(e),
        }
    }

    pub fn view(&self, model: &Model) -> (r: ViewModel)
        ensures
            r@ == view_spec(model@),
    {
        self.app.view(model)
    }
}

impl Default for AppTester {
    fn default() -> (r: AppTester)
        ensures
            r.wf(),
            r.context_view().pending.len() == 0,
    {
        AppTester::new()
    }
}

} // verus!
