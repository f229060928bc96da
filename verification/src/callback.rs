//! The bundle behind a callback registration.
//!
//! The host state of a registration is handed to the engine when the
//! registration is made and stays with it until the engine calls the destroy
//! function, which is the one way the state is ever released.
use vstd::prelude::*;

use crate::diagnostic::Diagnostic;
use crate::event_handler::{
    handled_parsed, handled_requested, unit_parsed_cb, unit_requested_cb, EventHandlerInterface,
};
use crate::file_reader::{answers, read_callback, FileRequest, ReadOutput};
use crate::text::RawText;

verus! {

/// What the engine does with a registration.
#[derive(Clone, Copy, PartialEq, Eq, Structural, Debug)]
pub enum SlotEvent {
    /// It fires one of the callbacks.
    Fire,
    /// It calls the destroy function.
    Destroy,
}

/// Whether a registration is live after an event.
pub open spec fn live_after(live: bool, event: SlotEvent) -> bool {
    match event {
        SlotEvent::Fire => live,
        SlotEvent::Destroy => false,
    }
}

/// Whether an event releases the state of a registration.
pub open spec fn releases(live: bool, event: SlotEvent) -> bool {
    event == SlotEvent::Destroy && live
}

/// Whether a registration is live after a run of events.
pub open spec fn live_after_all(live: bool, events: Seq<SlotEvent>) -> bool
    decreases events.len(),
{
    if events.len() == 0 {
        live
    } else {
        live_after(live_after_all(live, events.drop_last()), events.last())
    }
}

/// How often a run of events releases the state of a registration.
pub open spec fn released_in(live: bool, events: Seq<SlotEvent>) -> nat
    decreases events.len(),
{
    if events.len() == 0 {
        0
    } else {
        released_in(live, events.drop_last()) + if releases(
            live_after_all(live, events.drop_last()),
            events.last(),
        ) {
            1nat
        } else {
            0nat
        }
    }
}

/// How often the destroy function is called in a run of events.
pub open spec fn destroys_in(events: Seq<SlotEvent>) -> nat
    decreases events.len(),
{
    if events.len() == 0 {
        0
    } else {
        destroys_in(events.drop_last()) + if events.last() == SlotEvent::Destroy {
            1nat
        } else {
            0nat
        }
    }
}

/// The host state of one registration, as the engine holds it.
pub struct Registration<B> {
    bundle: Option<B>,
}

impl<B> Registration<B> {
    /// The state the registration still holds: none once it was destroyed.
    pub closed spec fn bundle(&self) -> Option<B> {
        self.bundle
    }

    /// Whether the registration was not destroyed yet.
    pub open spec fn live(&self) -> bool {
        self.bundle() is Some
    }

    /// Hands the state over: the registration holds it from now on.
    pub fn new(bundle: B) -> (reg: Registration<B>)
        ensures
            reg.bundle() == Some(bundle),
    {
        Registration { bundle: Some(bundle) }
    }

    /// Whether the registration was not destroyed yet.
    pub fn is_live(&self) -> (b: bool)
        ensures
            b == self.live(),
    {
        self.bundle.is_some()
    }

    /// The destroy function: takes the state out so that it is released.
    /// Only the first call finds anything to release.
    pub fn destroy(&mut self) -> (released: Option<B>)
        ensures
            released == old(self).bundle(),
            released is Some == releases(old(self).live(), SlotEvent::Destroy),
            final(self).live() == live_after(old(self).live(), SlotEvent::Destroy),
    {
        self.bundle.take()
    }
}

/// Fires the read callback of a file reader registration. A destroyed
/// registration answers nothing, and firing never destroys one.
pub fn fire_read<F>(
    reg: &mut Registration<F>,
    filename: Option<&[u8]>,
    charset: Option<&[u8]>,
    read_bom: i32,
) -> (out: Option<ReadOutput>) where for <'a>F: FnMut(FileRequest<'a>) -> Result<String, Diagnostic>
    requires
        old(reg).bundle() matches Some(cb) ==> forall|req: FileRequest| call_requires(cb, (req,)),
    ensures
        final(reg).live() == live_after(old(reg).live(), SlotEvent::Fire),
        match old(reg).bundle() {
            Some(cb) => out matches Some(o) && answers(cb, filename, charset, read_bom, o),
            None => out is None,
        },
{
    match &mut reg.bundle {
        Some(cb) => Some(read_callback(cb, filename, charset, read_bom)),
        None => None,
    }
}

/// Fires the unit-requested callback of an event handler registration, and
/// says whether there was a handler to take it. A destroyed registration
/// stays as it is, and firing never destroys one.
pub fn fire_unit_requested<H: EventHandlerInterface>(
    reg: &mut Registration<H>,
    context: usize,
    name: Option<&RawText>,
    from: usize,
    found: i32,
    is_not_found_error: i32,
) -> (fired: bool)
    ensures
        fired == old(reg).live(),
        final(reg).live() == live_after(old(reg).live(), SlotEvent::Fire),
        fired ==> handled_requested(
            old(reg).bundle()->0,
            final(reg).bundle()->0,
            context,
            name,
            from,
            found,
            is_not_found_error,
        ),
{
    match &mut reg.bundle {
        Some(handler) => {
            unit_requested_cb(handler, context, name, from, found, is_not_found_error);
            true
        },
        None => false,
    }
}

/// Fires the unit-parsed callback of an event handler registration, and says
/// whether there was a handler to take it. A destroyed registration stays as
/// it is, and firing never destroys one.
pub fn fire_unit_parsed<H: EventHandlerInterface>(
    reg: &mut Registration<H>,
    context: usize,
    unit: usize,
    reparsed: i32,
) -> (fired: bool)
    ensures
        fired == old(reg).live(),
        final(reg).live() == live_after(old(reg).live(), SlotEvent::Fire),
        fired ==> handled_parsed(
            old(reg).bundle()->0,
            final(reg).bundle()->0,
            context,
            unit,
            reparsed,
        ),
{
    match &mut reg.bundle {
        Some(handler) => {
            unit_parsed_cb(handler, context, unit, reparsed);
            true
        },
        None => false,
    }
}

/// The state of a registration is released exactly once: by the first call of
/// the destroy function and by no later one, however many callbacks fired
/// before it or were attempted after it. Until the destroy function is
/// called the registration stays live.
pub proof fn lemma_destroy_releases_once(events: Seq<SlotEvent>)
    ensures
        live_after_all(true, events) == (destroys_in(events) == 0),
        released_in(true, events) == if destroys_in(events) > 0 {
            1nat
        } else {
            0nat
        },
    decreases events.len(),
{
    if events.len() > 0 {
        lemma_destroy_releases_once(events.drop_last());
    }
}

} // verus!
