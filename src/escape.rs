use vstd::prelude::*;

use crate::buffer::Buffer;

verus! {

/// The characters that have a meaning in markup: `"`, `&`, `<`, `>`.
pub open spec fn is_markup(c: char) -> bool {
    c == '"' || c == '&' || c == '<' || c == '>'
}

/// What escaping turns one character into: the named entity of a markup
/// character, the character itself otherwise.
pub open spec fn escape_char(c: char) -> Seq<char> {
    if c == '"' {
        seq!['&', 'q', 'u', 'o', 't', ';']
    } else if c == '&' {
        seq!['&', 'a', 'm', 'p', ';']
    } else if c == '<' {
        seq!['&', 'l', 't', ';']
    } else if c == '>' {
        seq!['&', 'g', 't', ';']
    } else {
        seq![c]
    }
}

/// The escaped form of a text: each character replaced by its `escape_char`.
pub open spec fn escape_text(s: Seq<char>) -> Seq<char>
    decreases s.len(),
{
    if s.len() == 0 {
        Seq::empty()
    } else {
        escape_text(s.drop_last()) + escape_char(s.last())
    }
}

/// Appends the escaped form of the single character `c`.
pub fn escape_char_to_buf(c: char, buf: &mut Buffer)
    ensures
        final(buf)@ == old(buf)@ + escape_char(c),
{
    proof {
        reveal_strlit("&quot;");
        reveal_strlit("&amp;");
        reveal_strlit("&lt;");
        reveal_strlit("&gt;");
    }
    if c == '"' {
        buf.write_str("&quot;");
    } else if c == '&' {
        buf.write_str("&amp;");
    } else if c == '<' {
        buf.write_str("&lt;");
    } else if c == '>' {
        buf.write_str("&gt;");
    } else {
        buf.write_char(c);
        assert(buf@ =~= old(buf)@ + seq![c]);
    }
}

/// Appends `feed` to `buf` with every markup character replaced by its
/// named entity.
pub fn escape_to_buf(feed: &str, buf: &mut Buffer)
    ensures
        final(buf)@ == old(buf)@ + escape_text(feed@),
{
    let ghost start = buf@;
    for c in it: feed.chars()
        invariant
            it.seq() == feed@,
            0 <= it.index() <= feed@.len(),
            buf@ == start + escape_text(feed@.take(it.index() as int)),
    {
        let ghost done = feed@.take(it.index() as int);
        assert(feed@.take(it.index() + 1).drop_last() =~= done);
        escape_char_to_buf(c, buf);
    }
    assert(feed@.take(feed@.len() as int) =~= feed@);
}

} // verus!
