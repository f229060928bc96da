//! The engine's out-of-band error channel.
use vstd::prelude::*;
use vstd::utf8::*;

verus! {

/// Discriminant of an engine exception.
#[derive(Clone, Copy, PartialEq, Eq, Structural, Debug)]
pub struct ExceptionKind {
    pub code: u32,
}

/// What the engine leaves in its last-error slot: the discriminant and the
/// bytes of the message, without the terminating zero.
pub struct RawException {
    pub kind: ExceptionKind,
    pub information: Vec<u8>,
}

/// The text that `String::from_utf8_lossy` makes of a byte sequence.
pub uninterp spec fn utf8_lossy(bytes: Seq<u8>) -> Seq<char>;

/// `String::from_utf8_lossy`: the lossy decoding of `bytes`, which for valid
/// UTF-8 is the plain decoding.
#[verifier::external_body]
fn string_from_utf8_lossy(bytes: &[u8]) -> (out: String)
    ensures
        out@ == utf8_lossy(bytes@),
        valid_utf8(bytes@) ==> out@ == decode_utf8(bytes@),
{
    String::from_utf8_lossy(bytes).into_owned()
}

/// The last-error slot, made explicit: a single entry that every foreign call
/// overwrites with its own outcome.
pub struct ErrorChannel {
    slot: Option<RawException>,
}

impl ErrorChannel {
    /// What the slot holds.
    pub closed spec fn pending(&self) -> Option<RawException> {
        self.slot
    }

    /// A channel on which no call has failed.
    pub fn new() -> (channel: ErrorChannel)
        ensures
            channel.pending() is None,
    {
        ErrorChannel { slot: None }
    }

    /// Records the outcome of one foreign call: `None` when it succeeded, the
    /// exception it raised otherwise. Whatever was in the slot is lost.
    pub fn record(&mut self, outcome: Option<RawException>)
        ensures
            final(self).pending() == overwrite(old(self).pending(), outcome),
    {
        self.slot = outcome;
    }

    /// Whether an exception is waiting to be read.
    pub fn has_pending(&self) -> (b: bool)
        ensures
            b == self.pending() is Some,
    {
        self.slot.is_some()
    }
}

/// The slot after one foreign call: the call's own outcome, whatever the slot
/// held before.
pub open spec fn overwrite(
    slot: Option<RawException>,
    outcome: Option<RawException>,
) -> Option<RawException> {
    outcome
}

/// The slot after a run of foreign calls with the given outcomes, starting
/// from `initial`.
pub open spec fn slot_after(
    initial: Option<RawException>,
    outcomes: Seq<Option<RawException>>,
) -> Option<RawException>
    decreases outcomes.len(),
{
    if outcomes.len() == 0 {
        initial
    } else {
        overwrite(slot_after(initial, outcomes.drop_last()), outcomes.last())
    }
}

/// An exception raised by the engine.
#[derive(Debug)]
pub struct Exception {
    kind: ExceptionKind,
    msg: String,
}

/// What a teardown path does about the exception it found.
pub enum LogAction {
    /// Nothing was pending.
    Nothing,
    /// Print the exception and go on.
    Print(Exception),
    /// Print the exception and terminate the process.
    PrintAndAbort(Exception),
}

impl LogAction {
    /// Whether this is what a path that must go on does about `slot`:
    /// nothing for an empty slot, else print the exception in it.
    pub open spec fn prints(&self, slot: Option<RawException>) -> bool {
        match slot {
            None => *self is Nothing,
            Some(raw) => *self is Print && self->Print_0.decodes(raw),
        }
    }

    /// Whether this is what a path that cannot go on does about `slot`:
    /// nothing for an empty slot, else print the exception in it and
    /// terminate.
    pub open spec fn aborts_on(&self, slot: Option<RawException>) -> bool {
        match slot {
            None => *self is Nothing,
            Some(raw) => *self is PrintAndAbort && self->PrintAndAbort_0.decodes(raw),
        }
    }
}

impl Exception {
    /// The discriminant.
    pub closed spec fn spec_kind(&self) -> ExceptionKind {
        self.kind
    }

    /// The message.
    pub closed spec fn spec_message(&self) -> Seq<char> {
        self.msg@
    }

    /// Whether this exception is the host form of `raw`.
    pub open spec fn decodes(&self, raw: RawException) -> bool {
        &&& self.spec_kind() == raw.kind
        &&& self.spec_message() == utf8_lossy(raw.information@)
        &&& valid_utf8(raw.information@) ==> self.spec_message() == decode_utf8(
            raw.information@,
        )
    }

    /// Whether `found` is what a read of a slot holding `slot` returns.
    pub open spec fn read_of(slot: Option<RawException>, found: Option<Exception>) -> bool {
        match slot {
            None => found is None,
            Some(raw) => found is Some && found->0.decodes(raw),
        }
    }

    /// Drains the last-error slot: returns the exception the most recent
    /// call left there, if any, and leaves the slot empty.
    pub fn get_last(channel: &mut ErrorChannel) -> (found: Option<Exception>)
        ensures
            Exception::read_of(old(channel).pending(), found),
            final(channel).pending() is None,
    {
        match channel.slot.take() {
            None => None,
            Some(raw) => {
                let msg = string_from_utf8_lossy(raw.information.as_slice());
                Some(Exception { kind: raw.kind, msg })
            },
        }
    }

    /// Turns the value a foreign call returned into a result: the value when
    /// the call left no exception, the exception (and not the value)
    /// otherwise. The slot is drained either way.
    pub fn wrap<T>(val: T, channel: &mut ErrorChannel) -> (res: Result<T, Exception>)
        ensures
            old(channel).pending() is None <==> res is Ok,
            res matches Ok(v) ==> v == val,
            res matches Err(e) ==> e.decodes(old(channel).pending()->0),
            final(channel).pending() is None,
    {
        match Exception::get_last(channel) {
            None => Ok(val),
            Some(e) => Err(e),
        }
    }

    /// Failure policy for paths that must go on: a pending exception is to
    /// be printed, and nothing else happens.
    pub fn log_and_ignore(channel: &mut ErrorChannel) -> (action: LogAction)
        ensures
            final(channel).pending() is None,
            action.prints(old(channel).pending()),
    {
        match Exception::get_last(channel) {
            None => LogAction::Nothing,
            Some(e) => LogAction::Print(e),
        }
    }

    /// Failure policy for paths that cannot go on: a pending exception is to
    /// be printed and the process terminated.
    pub fn log_and_abort(channel: &mut ErrorChannel) -> (action: LogAction)
        ensures
            final(channel).pending() is None,
            action.aborts_on(old(channel).pending()),
    {
        match Exception::get_last(channel) {
            None => LogAction::Nothing,
            Some(e) => LogAction::PrintAndAbort(e),
        }
    }

    /// Get the exception kind.
    pub fn kind(&self) -> (kind: ExceptionKind)
        ensures
            kind == self.spec_kind(),
    {
        self.kind
    }

    /// Get the exception message.
    pub fn message(&self) -> (msg: &str)
        ensures
            msg@ == self.spec_message(),
    {
        self.msg.as_str()
    }

    /// The line printed for this exception: the name the engine gives its
    /// kind, a colon and a space, and the message.
    pub fn to_string(&self, kind_name: &str) -> (line: String)
        ensures
            line@ == kind_name@ + ": "@ + self.spec_message(),
    {
        let mut line = kind_name.to_owned();
        line.append(": ");
        line.append(self.msg.as_str());
        line
    }
}

/// After any non-empty run of foreign calls the slot holds the outcome of the
/// last one, whatever it held before: a read right after a failing call finds
/// its exception, a read right after a succeeding call finds nothing.
pub proof fn lemma_slot_reports_last_call(
    initial: Option<RawException>,
    outcomes: Seq<Option<RawException>>,
    found: Option<Exception>,
)
    requires
        outcomes.len() > 0,
        Exception::read_of(slot_after(initial, outcomes), found),
    ensures
        slot_after(initial, outcomes) == outcomes.last(),
        outcomes.last() is Some <==> found is Some,
        outcomes.last() matches Some(raw) ==> found->0.decodes(raw),
{
}

} // verus!
