use vstd::prelude::*;

use crate::buffer::Buffer;
use crate::decimal::{decimal_text, format_decimal};
use crate::escape::{escape_char_to_buf, escape_text, escape_to_buf};
use crate::path::{lossy_utf8, OsPath};
use crate::laws::{lemma_bool_escape_is_raw, lemma_decimal_escape_is_raw, lemma_escape_single};

verus! {

/// `core::fmt::Error`, the failure a sink reports; carried through unchanged.
#[verifier::external_type_specification]
#[verifier::external_body]
pub struct ExFmtError(core::fmt::Error);

/// Types which can be rendered inside a buffer block of a template.
pub trait Render {
    /// The canonical text of the value, unescaped.
    spec fn text(&self) -> Seq<char>;

    /// Appends the text of the value verbatim.
    fn render(&self, b: &mut Buffer) -> (r: Result<(), core::fmt::Error>)
        ensures
            r is Ok,
            final(b)@ == old(b)@ + self.text(),
    ;

    /// Appends the text of the value with markup characters escaped.
    ///
    /// Unless a type supplies its own, the value is rendered into a fresh
    /// buffer whose contents are then escaped into `b`.
    fn render_escaped(&self, b: &mut Buffer) -> (r: Result<(), core::fmt::Error>)
        ensures
            r is Ok,
            final(b)@ == old(b)@ + escape_text(self.text()),
    {
        let mut tmp = Buffer::new();
        match self.render(&mut tmp) {
            Ok(()) => {},
            Err(e) => {
                return Err(e);
            },
        }
        assert(tmp@ =~= self.text());
        escape_to_buf(tmp.as_str(), b);
        Ok(())
    }
}

impl Render for str {
    open spec fn text(&self) -> Seq<char> {
        self@
    }

    fn render(&self, b: &mut Buffer) -> (r: Result<(), core::fmt::Error>) {
        b.write_str(self);
        Ok(())
    }

    fn render_escaped(&self, b: &mut Buffer) -> (r: Result<(), core::fmt::Error>) {
        escape_to_buf(self, b);
        Ok(())
    }
}

impl<'a> Render for &'a str {
    open spec fn text(&self) -> Seq<char> {
        (*self)@
    }

    fn render(&self, b: &mut Buffer) -> (r: Result<(), core::fmt::Error>) {
        b.write_str(self);
        Ok(())
    }

    fn render_escaped(&self, b: &mut Buffer) -> (r: Result<(), core::fmt::Error>) {
        escape_to_buf(self, b);
        Ok(())
    }
}

impl Render for String {
    open spec fn text(&self) -> Seq<char> {
        self@
    }

    fn render(&self, b: &mut Buffer) -> (r: Result<(), core::fmt::Error>) {
        b.write_str(self.as_str());
        Ok(())
    }

    fn render_escaped(&self, b: &mut Buffer) -> (r: Result<(), core::fmt::Error>) {
        escape_to_buf(self.as_str(), b);
        Ok(())
    }
}

impl Render for char {
    open spec fn text(&self) -> Seq<char> {
        seq![*self]
    }

    fn render(&self, b: &mut Buffer) -> (r: Result<(), core::fmt::Error>) {
        b.write_char(*self);
        assert(b@ =~= old(b)@ + seq![*self]);
        Ok(())
    }

    fn render_escaped(&self, b: &mut Buffer) -> (r: Result<(), core::fmt::Error>) {
        escape_char_to_buf(*self, b);
        proof {
            lemma_escape_single(*self);
        }
        Ok(())
    }
}

impl Render for OsPath {
    open spec fn text(&self) -> Seq<char> {
        lossy_utf8(self@)
    }

    fn render(&self, b: &mut Buffer) -> (r: Result<(), core::fmt::Error>) {
        b.write_str(self.to_string_lossy().as_str());
        Ok(())
    }

    fn render_escaped(&self, b: &mut Buffer) -> (r: Result<(), core::fmt::Error>) {
        escape_to_buf(self.to_string_lossy().as_str(), b);
        Ok(())
    }
}

impl<'a> Render for &'a OsPath {
    open spec fn text(&self) -> Seq<char> {
        lossy_utf8((*self)@)
    }

    fn render(&self, b: &mut Buffer) -> (r: Result<(), core::fmt::Error>) {
        b.write_str(self.to_string_lossy().as_str());
        Ok(())
    }

    fn render_escaped(&self, b: &mut Buffer) -> (r: Result<(), core::fmt::Error>) {
        escape_to_buf(self.to_string_lossy().as_str(), b);
        Ok(())
    }
}

/// The literal text of a boolean.
pub open spec fn bool_text(v: bool) -> Seq<char> {
    if v {
        seq!['t', 'r', 'u', 'e']
    } else {
        seq!['f', 'a', 'l', 's', 'e']
    }
}

impl Render for bool {
    open spec fn text(&self) -> Seq<char> {
        bool_text(*self)
    }

    fn render(&self, b: &mut Buffer) -> (r: Result<(), core::fmt::Error>) {
        proof {
            reveal_strlit("true");
            reveal_strlit("false");
        }
        let s = if *self {
            "true"
        } else {
            "false"
        };
        b.write_str(s);
        Ok(())
    }

    fn render_escaped(&self, b: &mut Buffer) -> (r: Result<(), core::fmt::Error>) {
        proof {
            lemma_bool_escape_is_raw(*self);
        }
        self.render(b)
    }
}

impl Render for u8 {
    open spec fn text(&self) -> Seq<char> {
        decimal_text(*self as int)
    }

    fn render(&self, b: &mut Buffer) -> (r: Result<(), core::fmt::Error>) {
        let s = format_decimal(*self as i128);
        b.write_str(s.as_str());
        Ok(())
    }

    fn render_escaped(&self, b: &mut Buffer) -> (r: Result<(), core::fmt::Error>) {
        proof {
            lemma_decimal_escape_is_raw(*self as int);
        }
        self.render(b)
    }
}

impl Render for u16 {
    open spec fn text(&self) -> Seq<char> {
        decimal_text(*self as int)
    }

    fn render(&self, b: &mut Buffer) -> (r: Result<(), core::fmt::Error>) {
        let s = format_decimal(*self as i128);
        b.write_str(s.as_str());
        Ok(())
    }

    fn render_escaped(&self, b: &mut Buffer) -> (r: Result<(), core::fmt::Error>) {
        proof {
            lemma_decimal_escape_is_raw(*self as int);
        }
        self.render(b)
    }
}

impl Render for u32 {
    open spec fn text(&self) -> Seq<char> {
        decimal_text(*self as int)
    }

    fn render(&self, b: &mut Buffer) -> (r: Result<(), core::fmt::Error>) {
        let s = format_decimal(*self as i128);
        b.write_str(s.as_str());
        Ok(())
    }

    fn render_escaped(&self, b: &mut Buffer) -> (r: Result<(), core::fmt::Error>) {
        proof {
            lemma_decimal_escape_is_raw(*self as int);
        }
        self.render(b)
    }
}

impl Render for u64 {
    open spec fn text(&self) -> Seq<char> {
        decimal_text(*self as int)
    }

    fn render(&self, b: &mut Buffer) -> (r: Result<(), core::fmt::Error>) {
        let s = format_decimal(*self as i128);
        b.write_str(s.as_str());
        Ok(())
    }

    fn render_escaped(&self, b: &mut Buffer) -> (r: Result<(), core::fmt::Error>) {
        proof {
            lemma_decimal_escape_is_raw(*self as int);
        }
        self.render(b)
    }
}

impl Render for i8 {
    open spec fn text(&self) -> Seq<char> {
        decimal_text(*self as int)
    }

    fn render(&self, b: &mut Buffer) -> (r: Result<(), core::fmt::Error>) {
        let s = format_decimal(*self as i128);
        b.write_str(s.as_str());
        Ok(())
    }

    fn render_escaped(&self, b: &mut Buffer) -> (r: Result<(), core::fmt::Error>) {
        proof {
            lemma_decimal_escape_is_raw(*self as int);
        }
        self.render(b)
    }
}

impl Render for i16 {
    open spec fn text(&self) -> Seq<char> {
        decimal_text(*self as int)
    }

    fn render(&self, b: &mut Buffer) -> (r: Result<(), core::fmt::Error>) {
        let s = format_decimal(*self as i128);
        b.write_str(s.as_str());
        Ok(())
    }

    fn render_escaped(&self, b: &mut Buffer) -> (r: Result<(), core::fmt::Error>) {
        proof {
            lemma_decimal_escape_is_raw(*self as int);
        }
        self.render(b)
    }
}

impl Render for i32 {
    open spec fn text(&self) -> Seq<char> {
        decimal_text(*self as int)
    }

    fn render(&self, b: &mut Buffer) -> (r: Result<(), core::fmt::Error>) {
        let s = format_decimal(*self as i128);
        b.write_str(s.as_str());
        Ok(())
    }

    fn render_escaped(&self, b: &mut Buffer) -> (r: Result<(), core::fmt::Error>) {
        proof {
            lemma_decimal_escape_is_raw(*self as int);
        }
        self.render(b)
    }
}

impl Render for i64 {
    open spec fn text(&self) -> Seq<char> {
        decimal_text(*self as int)
    }

    fn render(&self, b: &mut Buffer) -> (r: Result<(), core::fmt::Error>) {
        let s = format_decimal(*self as i128);
        b.write_str(s.as_str());
        Ok(())
    }

    fn render_escaped(&self, b: &mut Buffer) -> (r: Result<(), core::fmt::Error>) {
        proof {
            lemma_decimal_escape_is_raw(*self as int);
        }
        self.render(b)
    }
}

impl Render for usize {
    open spec fn text(&self) -> Seq<char> {
        decimal_text(*self as int)
    }

    fn render(&self, b: &mut Buffer) -> (r: Result<(), core::fmt::Error>) {
        let s = format_decimal(*self as i128);
        b.write_str(s.as_str());
        Ok(())
    }

    fn render_escaped(&self, b: &mut Buffer) -> (r: Result<(), core::fmt::Error>) {
        proof {
            lemma_decimal_escape_is_raw(*self as int);
        }
        self.render(b)
    }
}

impl Render for isize {
    open spec fn text(&self) -> Seq<char> {
        decimal_text(*self as int)
    }

    fn render(&self, b: &mut Buffer) -> (r: Result<(), core::fmt::Error>) {
        let s = format_decimal(*self as i128);
        b.write_str(s.as_str());
        Ok(())
    }

    fn render_escaped(&self, b: &mut Buffer) -> (r: Result<(), core::fmt::Error>) {
        proof {
            lemma_decimal_escape_is_raw(*self as int);
        }
        self.render(b)
    }
}

} // verus!
