//! Reference-counted analysis contexts.
use vstd::prelude::*;
use vstd::string::StringSliceAdditionalSpecFns;

use crate::analysis::unit::Unit;
use crate::c_string::{nul_free, CBuffer};
use crate::event_handler::EventHandler;
use crate::exception::{ErrorChannel, Exception, LogAction};
use crate::gpr_project::{opt_payload, GprProject};
use crate::lifecycle::{HandleEvent, Ledger, Phase};
use crate::Error;

verus! {

/// Reference-counted analysis context. Each wrapper stands for exactly one
/// reference that the engine counts: it is given back once, by `release`.
/// A wrapper comes from a finished builder, which holds the reference of the
/// allocation, or from `retain`, after an increment of its own.
pub struct Context {
    raw: usize,
}

/// A context that the engine names, in a callback or as the owner of a
/// unit. It is a reference for as long as the engine keeps the context
/// alive: it counts for nothing and owes no release.
pub struct ContextRef {
    raw: usize,
}

impl ContextRef {
    #[verifier::type_invariant]
    spec fn non_null(self) -> bool {
        self.raw != 0
    }

    /// The context handle.
    pub closed spec fn handle(&self) -> usize {
        self.raw
    }

    /// Whether `ctx` is what naming the handle `raw` gives: nothing for the
    /// null handle, a reference to `raw` otherwise.
    pub open spec fn names(raw: usize, ctx: Option<ContextRef>) -> bool {
        if raw == 0 {
            ctx is None
        } else {
            ctx matches Some(c) && c.handle() == raw
        }
    }

    /// Names a context by its handle, which must be null or a valid
    /// analysis context. No reference is taken.
    pub fn from_raw(raw: usize) -> (ctx: Option<ContextRef>)
        ensures
            ContextRef::names(raw, ctx),
    {
        if raw == 0 {
            None
        } else {
            Some(ContextRef { raw })
        }
    }

    /// The raw handle, which is never null.
    pub fn as_raw(&self) -> (raw: usize)
        ensures
            raw == self.handle(),
            raw != 0,
    {
        proof {
            use_type_invariant(self);
        }
        self.raw
    }

    /// Makes a wrapper of its own for the context, after the engine's
    /// increment was called on this handle and returned `incremented`. The
    /// ledger of the handle counts one more reference; the new wrapper owes
    /// the release of it.
    pub fn retain(&self, incremented: usize, ledger: &mut Ledger) -> (ctx: Option<Context>)
        requires
            old(ledger)@.phase() == Phase::Allocated,
            old(ledger)@.increments < u64::MAX,
        ensures
            Context::wraps(incremented, ctx),
            Some(final(ledger)@) == old(ledger)@.step(HandleEvent::Clone),
            final(ledger)@.increments == old(ledger)@.increments + 1,
            final(ledger)@.decrements == old(ledger)@.decrements,
    {
        ledger.record(HandleEvent::Clone);
        Context::from_raw(incremented)
    }
}

/// The arguments of the call that asks a context for the unit of a file.
pub struct UnitRequest {
    pub context: usize,
    pub filename: CBuffer,
    pub charset: CBuffer,
    pub reparse: i32,
    pub rule: u32,
}

impl Context {
    #[verifier::type_invariant]
    spec fn non_null(self) -> bool {
        self.raw != 0
    }

    /// The context handle.
    pub closed spec fn handle(&self) -> usize {
        self.raw
    }

    /// Whether `ctx` is what wrapping the handle `raw` gives: nothing for
    /// the null handle, a wrapper of `raw` otherwise.
    pub open spec fn wraps(raw: usize, ctx: Option<Context>) -> bool {
        if raw == 0 {
            ctx is None
        } else {
            ctx matches Some(c) && c.handle() == raw
        }
    }

    /// Build a new analysis context
    pub fn build(gpr_project: GprProject) -> (builder: ContextBuilder)
        ensures
            builder@ == ContextOptions::initial(gpr_project.handle()),
    {
        ContextBuilder::new(gpr_project)
    }

    /// Create a new analysis context from a raw value, which must be a valid
    /// analysis context or null. The wrapper takes over one reference that
    /// the caller holds for it and has counted: to wrap a handle that the
    /// engine merely named, name it with `ContextRef` and retain that.
    pub fn from_raw(raw: usize) -> (ctx: Option<Context>)
        ensures
            Context::wraps(raw, ctx),
    {
        if raw == 0 {
            None
        } else {
            Some(Context { raw })
        }
    }

    /// The raw handle, which is never null.
    pub fn as_raw(&self) -> (raw: usize)
        ensures
            raw == self.handle(),
            raw != 0,
    {
        proof {
            use_type_invariant(self);
        }
        self.raw
    }

    /// Prepares the call that asks this context for the unit of a file.
    /// Fails when the file name or the charset holds a zero byte.
    pub fn unit_request(&self, filename: &str, charset: &str, reparse: bool, rule: u32) -> (res:
        Result<UnitRequest, Error>)
        ensures
            res is Ok <==> nul_free(filename.spec_bytes()) && nul_free(charset.spec_bytes()),
            res matches Ok(req) ==> {
                &&& req.context == self.handle()
                &&& req.filename.payload() == filename.spec_bytes()
                &&& req.charset.payload() == charset.spec_bytes()
                &&& req.reparse == if reparse { 1i32 } else { 0i32 }
                &&& req.rule == rule
            },
            res matches Err(e) ==> e matches Error::Custom(m) && m@
                == "configuration text holds a nul byte"@,
    {
        let filename = match CBuffer::new(filename) {
            Some(b) => b,
            None => {
                return Err(Error::custom("configuration text holds a nul byte"));
            },
        };
        let charset = match CBuffer::new(charset) {
            Some(b) => b,
            None => {
                return Err(Error::custom("configuration text holds a nul byte"));
            },
        };
        let reparse: i32 = if reparse {
            1
        } else {
            0
        };
        Ok(UnitRequest { context: self.raw, filename, charset, reparse, rule })
    }

    /// Names this context, without taking a reference.
    pub fn as_ref(&self) -> (ctx: ContextRef)
        ensures
            ctx.handle() == self.handle(),
    {
        proof {
            use_type_invariant(self);
        }
        ContextRef { raw: self.raw }
    }

    /// The clone of a wrapper: a second wrapper for the same context, after
    /// the engine's increment was called on this handle and returned
    /// `incremented`. The ledger of the handle counts one more reference and
    /// no release; the new wrapper owes the release of it, and this one
    /// still owes its own.
    pub fn retain(&self, incremented: usize, ledger: &mut Ledger) -> (ctx: Option<Context>)
        requires
            old(ledger)@.phase() == Phase::Allocated,
            old(ledger)@.increments < u64::MAX,
        ensures
            Context::wraps(incremented, ctx),
            Some(final(ledger)@) == old(ledger)@.step(HandleEvent::Clone),
            final(ledger)@.increments == old(ledger)@.increments + 1,
            final(ledger)@.decrements == old(ledger)@.decrements,
    {
        self.as_ref().retain(incremented, ledger)
    }

    /// Wraps the unit the engine returned for a request, if it returned
    /// one. An exception the call left behind is to be printed, and the unit
    /// is returned all the same.
    pub fn get_unit_from_file(&self, unit: usize, channel: &mut ErrorChannel) -> (res: (
        Option<Unit>,
        LogAction,
    ))
        ensures
            Unit::wraps(unit, res.0),
            final(channel).pending() is None,
            res.1.prints(old(channel).pending()),
    {
        let action = Exception::log_and_ignore(channel);
        (Unit::from_raw(unit), action)
    }

    /// The end of a wrapper: gives its reference back, after the engine's
    /// decrement was called once on its handle. The ledger of the handle
    /// counts one more release, which is the last exactly when it then
    /// balances the references taken. An exception the decrement left behind
    /// is to be printed, never propagated.
    pub fn release(self, channel: &mut ErrorChannel, ledger: &mut Ledger) -> (action: LogAction)
        requires
            old(ledger)@.phase() == Phase::Allocated,
        ensures
            final(channel).pending() is None,
            action.prints(old(channel).pending()),
            Some(final(ledger)@) == old(ledger)@.step(HandleEvent::Release),
            final(ledger)@.decrements == old(ledger)@.decrements + 1,
            final(ledger)@.increments == old(ledger)@.increments,
    {
        ledger.record(HandleEvent::Release);
        Exception::log_and_ignore(channel)
    }
}

/// The options a context builder has accumulated.
pub struct ContextOptions {
    pub project: usize,
    pub subproject: Option<Seq<u8>>,
    pub event_handler: Option<usize>,
    pub with_trivia: bool,
    pub tab_stop: u8,
}

impl ContextOptions {
    /// The options of a fresh builder for the project with handle `project`.
    pub open spec fn initial(project: usize) -> ContextOptions {
        ContextOptions {
            project,
            subproject: None,
            event_handler: None,
            with_trivia: false,
            tab_stop: 3,
        }
    }
}

/// Builder of an analysis context for a loaded project.
pub struct ContextBuilder {
    gpr_project: GprProject,
    subproject: Option<CBuffer>,
    event_handler: Option<EventHandler>,
    with_trivia: bool,
    tab_stop: u8,
}

impl View for ContextBuilder {
    type V = ContextOptions;

    closed spec fn view(&self) -> ContextOptions {
        ContextOptions {
            project: self.gpr_project.handle(),
            subproject: opt_payload(self.subproject),
            event_handler: match self.event_handler {
                Some(h) => Some(h.handle()),
                None => None,
            },
            with_trivia: self.with_trivia,
            tab_stop: self.tab_stop,
        }
    }
}

/// The arguments of the call that initializes a freshly allocated context
/// from its project, with the context and everything the call reads.
pub struct ContextInit {
    context: Context,
    gpr_project: GprProject,
    subproject: Option<CBuffer>,
    event_handler: Option<EventHandler>,
    with_trivia: i32,
    tab_stop: i32,
}

/// The initialization call as plain values.
pub struct InitArgs {
    pub project: usize,
    pub context: usize,
    pub subproject: Option<Seq<u8>>,
    pub event_handler: usize,
    pub with_trivia: i32,
    pub tab_stop: i32,
}

/// How the initialization of a context ended. Either way the project and the
/// event handler registration come back: the wrapper of the context keeps
/// neither, the project is to be freed and the registration released.
pub enum InitOutcome {
    /// The context is ready.
    Ready { context: Context, project: GprProject, event_handler: Option<EventHandler> },
    /// The engine raised `error`: the half-built context is to be released,
    /// then the error reported.
    Rejected {
        error: Exception,
        release: Context,
        project: GprProject,
        event_handler: Option<EventHandler>,
    },
}

/// A context that could not be allocated: the error, the project, which is
/// to be freed, and the event handler registration, which is to be released.
pub struct FinishError {
    pub error: Error,
    pub project: GprProject,
    pub event_handler: Option<EventHandler>,
}

/// The handle of an optional registration.
pub open spec fn opt_handle(h: Option<EventHandler>) -> Option<usize> {
    match h {
        Some(h) => Some(h.handle()),
        None => None,
    }
}

impl ContextInit {
    /// The arguments of the initialization call.
    pub closed spec fn args(&self) -> InitArgs {
        InitArgs {
            project: self.gpr_project.handle(),
            context: self.context.handle(),
            subproject: opt_payload(self.subproject),
            event_handler: match self.event_handler {
                Some(h) => h.handle(),
                None => 0,
            },
            with_trivia: self.with_trivia,
            tab_stop: self.tab_stop,
        }
    }

    /// The event handler registration the call passes, if any.
    pub closed spec fn handler(&self) -> Option<usize> {
        opt_handle(self.event_handler)
    }

    /// The project handle to pass.
    pub fn project(&self) -> (raw: usize)
        ensures
            raw == self.args().project,
    {
        self.gpr_project.as_raw()
    }

    /// The context handle to pass, which is never null.
    pub fn context(&self) -> (raw: usize)
        ensures
            raw == self.args().context,
            raw != 0,
    {
        self.context.as_raw()
    }

    /// The subproject name to pass, or nothing for a null pointer.
    pub fn subproject(&self) -> (name: Option<&CBuffer>)
        ensures
            name is Some <==> self.args().subproject is Some,
            name matches Some(b) ==> Some(b.payload()) == self.args().subproject,
    {
        self.subproject.as_ref()
    }

    /// The event handler handle to pass, null when none was set.
    pub fn event_handler(&self) -> (raw: usize)
        ensures
            raw == self.args().event_handler,
    {
        match &self.event_handler {
            Some(h) => h.as_raw(),
            None => 0,
        }
    }

    /// The trivia flag to pass, as the engine's integer boolean.
    pub fn with_trivia(&self) -> (flag: i32)
        ensures
            flag == self.args().with_trivia,
    {
        self.with_trivia
    }

    /// The tab stop to pass.
    pub fn tab_stop(&self) -> (columns: i32)
        ensures
            columns == self.args().tab_stop,
    {
        self.tab_stop
    }

    /// Decides how the initialization ended, from the state of the error
    /// channel right after the call.
    pub fn complete(self, channel: &mut ErrorChannel) -> (outcome: InitOutcome)
        ensures
            final(channel).pending() is None,
            match old(channel).pending() {
                None => outcome matches InitOutcome::Ready { context, project, event_handler }
                    && context.handle() == self.args().context && project.handle()
                    == self.args().project && opt_handle(event_handler) == self.handler(),
                Some(raw) => outcome matches InitOutcome::Rejected {
                    error,
                    release,
                    project,
                    event_handler,
                } && error.decodes(raw) && release.handle() == self.args().context
                    && project.handle() == self.args().project && opt_handle(event_handler)
                    == self.handler(),
            },
    {
        match Exception::get_last(channel) {
            None => InitOutcome::Ready {
                context: self.context,
                project: self.gpr_project,
                event_handler: self.event_handler,
            },
            Some(error) => InitOutcome::Rejected {
                error,
                release: self.context,
                project: self.gpr_project,
                event_handler: self.event_handler,
            },
        }
    }
}

impl ContextBuilder {
    /// Creates a new context builder from a GPR project
    pub fn new(gpr_project: GprProject) -> (builder: ContextBuilder)
        ensures
            builder@ == ContextOptions::initial(gpr_project.handle()),
    {
        ContextBuilder {
            gpr_project,
            subproject: None,
            event_handler: None,
            with_trivia: false,
            tab_stop: 3,
        }
    }

    /// Specify a subproject name to load. Fails when the name holds a zero
    /// byte.
    pub fn subproject(self, subproject: &str) -> (res: Result<ContextBuilder, Error>)
        ensures
            res is Ok <==> nul_free(subproject.spec_bytes()),
            res matches Ok(b) ==> b@ == (ContextOptions {
                subproject: Some(subproject.spec_bytes()),
                ..self@
            }),
            res matches Err(e) ==> e matches Error::Custom(m) && m@
                == "configuration text holds a nul byte"@,
    {
        match CBuffer::new(subproject) {
            None => Err(Error::custom("configuration text holds a nul byte")),
            Some(name) => {
                let mut b = self;
                b.subproject = Some(name);
                Ok(b)
            },
        }
    }

    /// Attach an event handler registration to the context.
    pub fn event_handler(self, event_handler: EventHandler) -> (b: ContextBuilder)
        ensures
            b@ == (ContextOptions { event_handler: Some(event_handler.handle()), ..self@ }),
    {
        let mut b = self;
        b.event_handler = Some(event_handler);
        b
    }

    /// Set whether the context keeps trivia.
    pub fn with_trivia(self, with_trivia: bool) -> (b: ContextBuilder)
        ensures
            b@ == (ContextOptions { with_trivia, ..self@ }),
    {
        let mut b = self;
        b.with_trivia = with_trivia;
        b
    }

    /// Set the number of columns a tab represents
    pub fn tab_stop(self, tab_stop: u8) -> (b: ContextBuilder)
        requires
            tab_stop != 0,
        ensures
            b@ == (ContextOptions { tab_stop, ..self@ }),
    {
        let mut b = self;
        b.tab_stop = tab_stop;
        b
    }

    /// Consume the builder once the engine has allocated a context: decides
    /// whether the allocation succeeded and, if so, hands out the
    /// initialization call.
    ///
    /// A pending exception or a null handle fails the operation. No wrapper
    /// exists then and the ledger stays untouched, so no reference is to be
    /// given back; the project and the event handler registration are handed
    /// back. On success the ledger counts the reference of the allocation,
    /// which the wrapper inside the initialization call owes.
    pub fn finish(self, allocated: usize, channel: &mut ErrorChannel, ledger: &mut Ledger) -> (res:
        Result<ContextInit, FinishError>)
        requires
            old(ledger)@.phase() == Phase::Uninitialized,
        ensures
            final(channel).pending() is None,
            res is Ok <==> old(channel).pending() is None && allocated != 0,
            res matches Ok(init) ==> init.args() == (InitArgs {
                project: self@.project,
                context: allocated,
                subproject: self@.subproject,
                event_handler: match self@.event_handler {
                    Some(h) => h,
                    None => 0,
                },
                with_trivia: if self@.with_trivia { 1i32 } else { 0i32 },
                tab_stop: self@.tab_stop as i32,
            }) && init.handler() == self@.event_handler,
            res is Ok ==> Some(final(ledger)@) == old(ledger)@.step(HandleEvent::Allocate),
            res is Err ==> final(ledger)@ == old(ledger)@,
            res matches Err(e) ==> e.project.handle() == self@.project && opt_handle(
                e.event_handler,
            ) == self@.event_handler && match old(channel).pending() {
                Some(raw) => e.error matches Error::Exception(x) && x.decodes(raw),
                None => e.error matches Error::Custom(m) && m@ == "context allocation failed"@,
            },
    {
        if let Some(err) = Exception::get_last(channel) {
            return Err(
                FinishError {
                    error: Error::Exception(err),
                    project: self.gpr_project,
                    event_handler: self.event_handler,
                },
            );
        }
        let context = match Context::from_raw(allocated) {
            Some(c) => c,
            None => {
                return Err(
                    FinishError {
                        error: Error::custom("context allocation failed"),
                        project: self.gpr_project,
                        event_handler: self.event_handler,
                    },
                );
            },
        };
        ledger.record(HandleEvent::Allocate);
        let with_trivia: i32 = if self.with_trivia {
            1
        } else {
            0
        };
        Ok(
            ContextInit {
                context,
                gpr_project: self.gpr_project,
                subproject: self.subproject,
                event_handler: self.event_handler,
                with_trivia,
                tab_stop: self.tab_stop as i32,
            },
        )
    }
}

} // verus!
