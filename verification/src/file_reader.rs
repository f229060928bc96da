//! File reader callbacks: host logic that supplies source text to the engine.
use vstd::prelude::*;
use vstd::utf8::*;

use crate::c_string::str_from_utf8;
use crate::diagnostic::{make_diag, range_of, Diagnostic, RawDiagnostic};
use crate::exception::{ErrorChannel, Exception, LogAction};
use crate::text::{RawText, Text};
use crate::Error;

verus! {

/// A file reader wrapping a custom callback: a registration with the
/// engine, whose handle is never null.
pub struct FileReader {
    raw: usize,
}

/// The file request sent to the callback
pub struct FileRequest<'a> {
    pub filename: &'a str,
    pub charset: &'a str,
    pub read_bom: bool,
}

/// What a read callback writes into the engine's output slots: either the
/// text of the file or a diagnostic, each with a freshly allocated buffer
/// that the engine takes over.
pub enum ReadOutput {
    Buffer(RawText),
    Diagnostic(RawDiagnostic),
}

/// Whether a string argument of the engine can be read as text: a null
/// pointer can, as the empty string, and so can valid UTF-8.
pub open spec fn c_valid(arg: Option<&[u8]>) -> bool {
    arg matches Some(bytes) ==> valid_utf8(bytes@)
}

/// The text of a string argument of the engine.
pub open spec fn c_text(arg: Option<&[u8]>) -> Seq<char> {
    match arg {
        Some(bytes) => decode_utf8(bytes@),
        None => Seq::empty(),
    }
}

impl ReadOutput {
    /// Whether this output is a diagnostic at the zero position with the
    /// given message, in a buffer the receiver owns.
    pub open spec fn reports(&self, msg: Seq<char>) -> bool {
        &&& *self matches ReadOutput::Diagnostic(d)
        &&& d.sloc_range == range_of((0, 0), (0, 0))
        &&& d.message.content() == msg
        &&& d.message.owned()
    }

    /// Whether this output is the wire form of what the callback returned.
    pub open spec fn carries(&self, res: Result<String, Diagnostic>) -> bool {
        match res {
            Ok(s) => *self matches ReadOutput::Buffer(t) && t.content() == s@ && t.owned(),
            Err(d) => *self matches ReadOutput::Diagnostic(r) && d.encoded_by(r)
                && r.message.owned(),
        }
    }

    /// Marshals what the callback returned: text into a freshly allocated
    /// buffer, a diagnostic into its wire form.
    pub fn from_result(res: Result<String, Diagnostic>) -> (out: ReadOutput)
        ensures
            out.carries(res),
    {
        match res {
            Ok(string) => ReadOutput::Buffer(Text::new(string.as_str()).into_raw()),
            Err(diag) => ReadOutput::Diagnostic(diag.to_raw()),
        }
    }
}

/// Whether `out` is an answer of the host callback `cb` to the engine's
/// arguments: the diagnostic for an argument that is not text, else the wire
/// form of what `cb` returns for the request made of them.
pub open spec fn answers<F>(
    cb: F,
    filename: Option<&[u8]>,
    charset: Option<&[u8]>,
    read_bom: i32,
    out: ReadOutput,
) -> bool where for <'a>F: FnMut(FileRequest<'a>) -> Result<String, Diagnostic> {
    if !c_valid(filename) {
        out.reports("invalid utf-8 in filename"@)
    } else if !c_valid(charset) {
        out.reports("invalid utf-8 in charset name"@)
    } else {
        exists|req: FileRequest, res: Result<String, Diagnostic>|
            req.filename@ == c_text(filename) && req.charset@ == c_text(charset) && req.read_bom
                == (read_bom != 0) && #[trigger] call_ensures(cb, (req,), res) && out.carries(
                res,
            )
    }
}

/// Reads a string argument of the engine, if it is text.
fn to_str<'a>(arg: Option<&'a [u8]>) -> (res: Option<&'a str>)
    ensures
        res is Some <==> c_valid(arg),
        res matches Some(s) ==> s@ == c_text(arg),
{
    match arg {
        None => {
            proof {
                reveal_strlit("");
            }
            let empty: &'a str = "";
            assert(empty@ =~= Seq::<char>::empty());
            Some(empty)
        },
        Some(bytes) => str_from_utf8(bytes),
    }
}

/// The read callback: marshals the engine's arguments into a request, asks
/// the host callback once, and marshals what it returned. An argument that
/// is not valid UTF-8 is answered with a diagnostic, and the host callback
/// is not asked.
pub fn read_callback<F>(
    read_cb: &mut F,
    filename: Option<&[u8]>,
    charset: Option<&[u8]>,
    read_bom: i32,
) -> (out: ReadOutput) where for <'a>F: FnMut(FileRequest<'a>) -> Result<String, Diagnostic>
    requires
        forall|req: FileRequest| call_requires(*old(read_cb), (req,)),
    ensures
        answers(*old(read_cb), filename, charset, read_bom, out),
{
    let filename = match to_str(filename) {
        Some(s) => s,
        None => {
            return ReadOutput::Diagnostic(make_diag([(0, 0), (0, 0)], "invalid utf-8 in filename"));
        },
    };
    let charset = match to_str(charset) {
        Some(s) => s,
        None => {
            return ReadOutput::Diagnostic(
                make_diag([(0, 0), (0, 0)], "invalid utf-8 in charset name"),
            );
        },
    };
    let res = read_cb(FileRequest { filename, charset, read_bom: read_bom != 0 });
    ReadOutput::from_result(res)
}

impl FileReader {
    #[verifier::type_invariant]
    spec fn non_null(self) -> bool {
        self.raw != 0
    }

    /// The registration handle.
    pub closed spec fn handle(&self) -> usize {
        self.raw
    }

    /// Wraps the registration the engine created for a callback. The call
    /// fails, and nothing is wrapped or owed, when it left an exception or
    /// returned the null handle. The wrapper owes one release.
    pub fn new(raw: usize, channel: &mut ErrorChannel) -> (res: Result<FileReader, Error>)
        ensures
            final(channel).pending() is None,
            res is Ok <==> old(channel).pending() is None && raw != 0,
            res matches Ok(reader) ==> reader.handle() == raw,
            res matches Err(e) ==> match old(channel).pending() {
                Some(x) => e matches Error::Exception(ex) && ex.decodes(x),
                None => e matches Error::Custom(m) && m@ == "file reader creation failed"@,
            },
    {
        match Exception::get_last(channel) {
            Some(e) => Err(Error::Exception(e)),
            None => if raw == 0 {
                Err(Error::custom("file reader creation failed"))
            } else {
                Ok(FileReader { raw })
            },
        }
    }

    /// The raw handle, to pass back to the engine.
    pub fn as_raw(&self) -> (raw: usize)
        ensures
            raw == self.handle(),
            raw != 0,
    {
        proof {
            use_type_invariant(self);
        }
        self.raw
    }

    /// Gives up the wrapper without releasing the registration: the caller
    /// takes over its reference.
    pub fn into_raw(self) -> (raw: usize)
        ensures
            raw == self.handle(),
            raw != 0,
    {
        proof {
            use_type_invariant(&self);
        }
        self.raw
    }

    /// Gives the registration's reference back, after the engine's
    /// decrement was called for it. An exception the decrement left behind
    /// is to be printed, never propagated.
    pub fn release(self, channel: &mut ErrorChannel) -> (action: LogAction)
        ensures
            final(channel).pending() is None,
            action.prints(old(channel).pending()),
    {
        Exception::log_and_ignore(channel)
    }
}

} // verus!
