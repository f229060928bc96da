//! Analysis units
use vstd::prelude::*;
use vstd::utf8::*;

use crate::analysis::context::ContextRef;
use crate::c_string::str_from_utf8;
use crate::diagnostic::{Diagnostic, DiagnosticRead, RawDiagnostic};

verus! {

/// A libadalang analysis unit: a view of a handle that its context owns.
/// Wrapping takes no reference and the wrapper owes no release, so a unit
/// must not be used once its context is gone.
pub struct Unit {
    raw: usize,
}

impl Unit {
    #[verifier::type_invariant]
    spec fn non_null(self) -> bool {
        self.raw != 0
    }

    /// The unit handle.
    pub closed spec fn handle(&self) -> usize {
        self.raw
    }

    /// Whether `unit` is what wrapping the handle `raw` gives: nothing for
    /// the null handle, a view of `raw` otherwise.
    pub open spec fn wraps(raw: usize, unit: Option<Unit>) -> bool {
        if raw == 0 {
            unit is None
        } else {
            unit matches Some(u) && u.handle() == raw
        }
    }

    /// Create a new analysis unit from its raw value, which must be null or
    /// a valid analysis unit of a live context.
    pub fn from_raw(raw: usize) -> (unit: Option<Unit>)
        ensures
            Unit::wraps(raw, unit),
    {
        if raw == 0 {
            None
        } else {
            Some(Unit { raw })
        }
    }

    /// The raw handle, which is never null.
    pub fn as_raw(&self) -> (raw: usize)
        ensures
            raw == self.handle(),
            raw != 0,
    {
        proof {
            use_type_invariant(self);
        }
        self.raw
    }

    /// Return the context that owns this unit, given the handle the engine
    /// named as its context. What comes back is a reference that counts for
    /// nothing: to keep the context, retain it.
    pub fn context(&self, context: usize) -> (ctx: Option<ContextRef>)
        ensures
            ContextRef::names(context, ctx),
    {
        ContextRef::from_raw(context)
    }

    /// Return the filename this unit is associated to, given the bytes of
    /// the name as the engine returned them.
    pub fn filename(&self, name: &[u8]) -> (filename: String)
        requires
            valid_utf8(name@),
        ensures
            filename@ == decode_utf8(name@),
    {
        match str_from_utf8(name) {
            Some(s) => s.to_owned(),
            None => String::new(),
        }
    }

    /// The number of tokens, from the count the engine reported.
    pub fn token_count(&self, count: i32) -> (n: usize)
        requires
            count >= 0,
        ensures
            n == count,
    {
        count as usize
    }

    /// The number of trivias, from the count the engine reported.
    pub fn trivia_count(&self, count: i32) -> (n: usize)
        requires
            count >= 0,
        ensures
            n == count,
    {
        count as usize
    }

    /// The number of diagnostics, from the count the engine reported.
    pub fn diagnostic_count(&self, count: i64) -> (n: u32)
        requires
            0 <= count <= u32::MAX,
        ensures
            n == count,
    {
        count as u32
    }

    /// The diagnostic the engine wrote for an index, which exists exactly
    /// when the engine answered with a non-zero flag. With it comes the word
    /// on whether the message buffer the engine wrote is to be destroyed.
    pub fn get_diagnostic(&self, found: i32, diag: RawDiagnostic) -> (res: Option<DiagnosticRead>)
        ensures
            res is Some <==> found != 0,
            res matches Some(read) ==> read.diagnostic.encoded_by(diag) && read.destroy_message
                == diag.message.owned(),
    {
        if found == 0 {
            None
        } else {
            Some(Diagnostic::from_raw(diag))
        }
    }
}

} // verus!
