//! Text buffers that cross the engine boundary.
use vstd::prelude::*;

verus! {

/// The wire form of a text buffer: the character data (absent for a null
/// data pointer) and the flag that says whether the holder must release it.
pub struct RawText {
    pub buffer: Option<Vec<char>>,
    pub is_allocated: i32,
}

impl RawText {
    /// The characters the buffer exposes; a null data pointer exposes none.
    pub open spec fn content(&self) -> Seq<char> {
        match self.buffer {
            Some(v) => v@,
            None => Seq::empty(),
        }
    }

    /// Whether the holder of this value owns the buffer.
    pub open spec fn owned(&self) -> bool {
        self.is_allocated != 0
    }

    /// The characters of the buffer as a slice, empty for a null data pointer.
    pub fn chars(&self) -> (out: &[char])
        ensures
            out@ == self.content(),
    {
        match &self.buffer {
            Some(v) => v.as_slice(),
            None => {
                let empty: &[char] = &[];
                empty
            },
        }
    }

    /// Number of characters in the buffer.
    pub fn length(&self) -> (n: usize)
        ensures
            n == self.content().len(),
    {
        match &self.buffer {
            Some(v) => v.len(),
            None => 0,
        }
    }
}

/// Copies a character buffer.
fn copy_chars(src: &Vec<char>) -> (dst: Vec<char>)
    ensures
        dst@ == src@,
{
    let mut dst: Vec<char> = Vec::with_capacity(src.len());
    let mut i: usize = 0;
    while i < src.len()
        invariant
            i <= src.len(),
            dst@ == src@.take(i as int),
        decreases src.len() - i,
    {
        dst.push(src[i]);
        i += 1;
        assert(dst@ =~= src@.take(i as int));
    }
    assert(src@.take(src.len() as int) =~= src@);
    dst
}

/// Decodes a string into its characters.
fn chars_of(s: &str) -> (out: Vec<char>)
    ensures
        out@ == s@,
{
    broadcast use vstd::string::group_string_axioms;
    let mut out: Vec<char> = Vec::new();
    for c in it: s.chars()
        invariant
            out@ == it.seq().take(it.index() as int),
            it.seq() == s@,
    {
        out.push(c);
        assert(out@ =~= it.seq().take(it.index() + 1));
    }
    assert(s@.take(s@.len() as int) =~= s@);
    out
}

/// `String::from_iter` over a character slice: the string made of exactly
/// those characters, in order.
#[verifier::external_body]
fn string_from_chars(chars: &[char]) -> (out: String)
    ensures
        out@ == chars@,
{
    String::from_iter(chars)
}

/// An owned text buffer.
pub struct Text {
    raw: RawText,
}

impl View for Text {
    type V = Seq<char>;

    closed spec fn view(&self) -> Seq<char> {
        self.raw.content()
    }
}

impl Text {
    #[verifier::type_invariant]
    spec fn owns_buffer(self) -> bool {
        self.raw.owned()
    }

    /// The wire value this text wraps.
    pub closed spec fn raw(&self) -> RawText {
        self.raw
    }

    /// Allocates an owned text holding the characters of `s`.
    pub fn new(s: &str) -> (text: Text)
        ensures
            text@ == s@,
            text.raw().owned(),
            text.raw().buffer is Some,
    {
        Text { raw: RawText { buffer: Some(chars_of(s)), is_allocated: 1 } }
    }

    /// Gives up the wrapper and hands the owning wire value to the caller,
    /// who becomes responsible for releasing it.
    pub fn into_raw(self) -> (raw: RawText)
        ensures
            raw == self.raw(),
            raw.owned(),
            raw.content() == self@,
    {
        proof {
            use_type_invariant(&self);
        }
        self.raw
    }

    /// A non-owning copy of the wire value: same characters, flag cleared.
    pub fn as_raw_borrow(&self) -> (raw: RawText)
        ensures
            raw.content() == self@,
            !raw.owned(),
            raw.buffer is Some <==> self.raw().buffer is Some,
    {
        let buffer = match &self.raw.buffer {
            Some(v) => Some(copy_chars(v)),
            None => None,
        };
        RawText { buffer, is_allocated: 0 }
    }

    /// Takes ownership of a wire value, which succeeds exactly when its
    /// ownership flag is set.
    pub fn from_raw(value: RawText) -> (text: Option<Text>)
        ensures
            text is Some <==> value.owned(),
            text matches Some(t) ==> t.raw() == value && t@ == value.content(),
    {
        if value.is_allocated == 0 {
            None
        } else {
            Some(Text { raw: value })
        }
    }

    /// A read-only view of a wire value that may or may not own its buffer.
    /// The view cannot outlive the value it was made from.
    pub fn from_raw_borrow<'a>(value: &'a RawText) -> (view: TextView<'a>)
        ensures
            view@ == value.content(),
            view.raw() == *value,
    {
        TextView { raw: value }
    }

    /// The characters of the text.
    pub fn as_chars(&self) -> (out: &[char])
        ensures
            out@ == self@,
    {
        self.raw.chars()
    }

    /// Copies the text into a host string.
    pub fn to_string(&self) -> (out: String)
        ensures
            out@ == self@,
    {
        string_from_chars(self.raw.chars())
    }
}

/// A borrowed look at a text buffer, tied to the wire value it reads.
pub struct TextView<'a> {
    raw: &'a RawText,
}

impl<'a> View for TextView<'a> {
    type V = Seq<char>;

    closed spec fn view(&self) -> Seq<char> {
        self.raw.content()
    }
}

impl<'a> TextView<'a> {
    /// The wire value this view reads.
    pub closed spec fn raw(&self) -> RawText {
        *self.raw
    }

    /// The characters of the viewed buffer.
    pub fn as_chars(&self) -> (out: &'a [char])
        ensures
            out@ == self@,
    {
        self.raw.chars()
    }

    /// Copies the viewed characters into a host string.
    pub fn to_string(&self) -> (out: String)
        ensures
            out@ == self@,
    {
        string_from_chars(self.raw.chars())
    }
}

/// Round trip: a text allocated from a string, lent out as a non-owning wire
/// value, viewed, and copied back into a host string gives the characters of
/// the string it started from.
pub proof fn lemma_text_round_trip(
    s: &str,
    text: Text,
    lent: RawText,
    view: TextView,
    out: String,
)
    requires
        text@ == s@,
        lent.content() == text@,
        view@ == lent.content(),
        out@ == view@,
    ensures
        out@ == s@,
{
}

} // verus!
