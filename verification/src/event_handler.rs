//! Event handler callbacks: what the engine tells the host while it works.
use vstd::prelude::*;

use crate::analysis::context::ContextRef;
use crate::analysis::unit::Unit;
use crate::exception::{ErrorChannel, Exception, LogAction};
use crate::Error;
use crate::text::{RawText, Text};

verus! {

/// The engine was asked for a unit.
pub struct UnitRequestedEvent {
    pub name: String,
    pub from_unit: Option<Unit>,
    pub found: bool,
    pub is_not_found_error: bool,
}

/// The engine parsed a unit.
pub struct UnitParsedEvent {
    pub unit: Option<Unit>,
    pub reparsed: bool,
}

/// Host logic that reacts to the engine's events. The context and the units
/// of an event are references that the engine lends for the length of the
/// callback: they count for nothing and owe no release. The two relations
/// say, for each implementation, what a callback does to the handler; an
/// implementation that states nothing promises nothing.
pub trait EventHandlerInterface: Sized + 'static {
    /// What `unit_requested` makes of the handler `pre` on the given event.
    open spec fn requested(
        pre: Self,
        post: Self,
        ctx: Option<ContextRef>,
        event: UnitRequestedEvent,
    ) -> bool {
        true
    }

    /// What `unit_parsed` makes of the handler `pre` on the given event.
    open spec fn parsed(
        pre: Self,
        post: Self,
        ctx: Option<ContextRef>,
        event: UnitParsedEvent,
    ) -> bool {
        true
    }

    fn unit_requested(&mut self, ctx: Option<ContextRef>, event: UnitRequestedEvent)
        ensures
            Self::requested(*old(self), *final(self), ctx, event),
    ;

    fn unit_parsed(&mut self, ctx: Option<ContextRef>, event: UnitParsedEvent)
        ensures
            Self::parsed(*old(self), *final(self), ctx, event),
    ;
}

/// A registration of an event handler with the engine.
pub struct EventHandler {
    raw: usize,
}

/// The text of an optional wire buffer: nothing for a null pointer.
pub open spec fn name_text(name: Option<&RawText>) -> Seq<char> {
    match name {
        Some(t) => t.content(),
        None => Seq::empty(),
    }
}

impl UnitRequestedEvent {
    /// Whether this event is the host form of the engine's arguments.
    pub open spec fn decodes(
        &self,
        name: Option<&RawText>,
        from: usize,
        found: i32,
        is_not_found_error: i32,
    ) -> bool {
        &&& self.name@ == name_text(name)
        &&& Unit::wraps(from, self.from_unit)
        &&& self.found == (found != 0)
        &&& self.is_not_found_error == (is_not_found_error != 0)
    }

    /// Marshals the engine's arguments into an event: the name is copied
    /// out of the engine's buffer, and the flags are true when non-zero.
    pub fn from_raw(name: Option<&RawText>, from: usize, found: i32, is_not_found_error: i32) -> (event:
        UnitRequestedEvent)
        ensures
            event.decodes(name, from, found, is_not_found_error),
    {
        let name = match name {
            None => String::new(),
            Some(text) => Text::from_raw_borrow(text).to_string(),
        };
        UnitRequestedEvent {
            name,
            from_unit: Unit::from_raw(from),
            found: found != 0,
            is_not_found_error: is_not_found_error != 0,
        }
    }
}

impl UnitParsedEvent {
    /// Whether this event is the host form of the engine's arguments.
    pub open spec fn decodes(&self, unit: usize, reparsed: i32) -> bool {
        &&& Unit::wraps(unit, self.unit)
        &&& self.reparsed == (reparsed != 0)
    }

    /// Marshals the engine's arguments into an event.
    pub fn from_raw(unit: usize, reparsed: i32) -> (event: UnitParsedEvent)
        ensures
            event.decodes(unit, reparsed),
    {
        UnitParsedEvent { unit: Unit::from_raw(unit), reparsed: reparsed != 0 }
    }
}

/// Whether the handler went from `pre` to `post` by handling, as it promises
/// to, the unit-requested event made of the engine's arguments.
pub open spec fn handled_requested<H: EventHandlerInterface>(
    pre: H,
    post: H,
    context: usize,
    name: Option<&RawText>,
    from: usize,
    found: i32,
    is_not_found_error: i32,
) -> bool {
    exists|ctx: Option<ContextRef>, event: UnitRequestedEvent|
        ContextRef::names(context, ctx) && event.decodes(name, from, found, is_not_found_error)
            && #[trigger] H::requested(pre, post, ctx, event)
}

/// Whether the handler went from `pre` to `post` by handling, as it promises
/// to, the unit-parsed event made of the engine's arguments.
pub open spec fn handled_parsed<H: EventHandlerInterface>(
    pre: H,
    post: H,
    context: usize,
    unit: usize,
    reparsed: i32,
) -> bool {
    exists|ctx: Option<ContextRef>, event: UnitParsedEvent|
        ContextRef::names(context, ctx) && event.decodes(unit, reparsed) && #[trigger] H::parsed(
            pre,
            post,
            ctx,
            event,
        )
}

/// The unit-requested callback: marshals the engine's arguments and hands
/// them to the handler, once.
pub fn unit_requested_cb<H: EventHandlerInterface>(
    handler: &mut H,
    context: usize,
    name: Option<&RawText>,
    from: usize,
    found: i32,
    is_not_found_error: i32,
)
    ensures
        handled_requested(
            *old(handler),
            *final(handler),
            context,
            name,
            from,
            found,
            is_not_found_error,
        ),
{
    let event = UnitRequestedEvent::from_raw(name, from, found, is_not_found_error);
    let ctx = ContextRef::from_raw(context);
    handler.unit_requested(ctx, event);
}

/// The unit-parsed callback: marshals the engine's arguments and hands them
/// to the handler, once.
pub fn unit_parsed_cb<H: EventHandlerInterface>(
    handler: &mut H,
    context: usize,
    unit: usize,
    reparsed: i32,
)
    ensures
        handled_parsed(*old(handler), *final(handler), context, unit, reparsed),
{
    let event = UnitParsedEvent::from_raw(unit, reparsed);
    let ctx = ContextRef::from_raw(context);
    handler.unit_parsed(ctx, event);
}

impl EventHandler {
    #[verifier::type_invariant]
    spec fn non_null(self) -> bool {
        self.raw != 0
    }

    /// The registration handle.
    pub closed spec fn handle(&self) -> usize {
        self.raw
    }

    /// Wraps the registration the engine created. The call fails, and
    /// nothing is wrapped or owed, when it left an exception or returned the
    /// null handle. The wrapper owes one release.
    pub fn new(raw: usize, channel: &mut ErrorChannel) -> (res: Result<EventHandler, Error>)
        ensures
            final(channel).pending() is None,
            res is Ok <==> old(channel).pending() is None && raw != 0,
            res matches Ok(h) ==> h.handle() == raw,
            res matches Err(e) ==> match old(channel).pending() {
                Some(x) => e matches Error::Exception(ex) && ex.decodes(x),
                None => e matches Error::Custom(m) && m@ == "event handler creation failed"@,
            },
    {
        match Exception::get_last(channel) {
            Some(e) => Err(Error::Exception(e)),
            None => if raw == 0 {
                Err(Error::custom("event handler creation failed"))
            } else {
                Ok(EventHandler { raw })
            },
        }
    }

    /// The raw handle, which is never null.
    pub fn as_raw(&self) -> (raw: usize)
        ensures
            raw == self.handle(),
            raw != 0,
    {
        proof {
            use_type_invariant(self);
        }
        self.raw
    }

    /// Gives the registration's reference back, after the engine's
    /// decrement was called for it. An exception the decrement left behind
    /// is to be printed, never propagated.
    pub fn release(self, channel: &mut ErrorChannel) -> (action: LogAction)
        ensures
            final(channel).pending() is None,
            action.prints(old(channel).pending()),
    {
        Exception::log_and_ignore(channel)
    }
}

} // verus!
