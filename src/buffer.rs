use vstd::prelude::*;
use vstd::string::StringExecFns;

verus! {

/// Relies on `String::push`: appends one character at the end.
#[verifier::external_body]
fn push_char(s: &mut String, c: char)
    ensures
        final(s)@ == old(s)@.push(c),
{
    s.push(c)
}

/// An append-only text sink that rendered output accumulates in.
pub struct Buffer {
    inner: String,
}

impl View for Buffer {
    type V = Seq<char>;

    closed spec fn view(&self) -> Seq<char> {
        self.inner@
    }
}

impl Buffer {
    /// An empty buffer.
    pub fn new() -> (r: Buffer)
        ensures
            r@ == Seq::<char>::empty(),
    {
        Buffer { inner: String::new() }
    }

    /// Appends `s` verbatim.
    pub fn write_str(&mut self, s: &str)
        ensures
            final(self)@ == old(self)@ + s@,
    {
        self.inner.append(s);
    }

    /// Appends the single character `c`.
    pub fn write_char(&mut self, c: char)
        ensures
            final(self)@ == old(self)@.push(c),
    {
        push_char(&mut self.inner, c);
    }

    /// The text written so far.
    pub fn as_str(&self) -> (r: &str)
        ensures
            r@ == self@,
    {
        self.inner.as_str()
    }

    /// Consumes the buffer, giving back the text written so far.
    pub fn into_string(self) -> (r: String)
        ensures
            r@ == self@,
    {
        self.inner
    }
}

} // verus!
