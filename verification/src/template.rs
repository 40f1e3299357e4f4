use crate::render::RenderOnce;
use vstd::prelude::*;
use vstd::std_specs::iter::IteratorSpec;

verus! {

/// `String::push` of the standard library: the given character is appended to
/// the end of the string, and nothing else of it changes.
pub assume_specification[ String::push ](s: &mut String, ch: char)
    ensures
        final(s)@ == old(s)@.push(ch),
;

/// `String::try_reserve` of the standard library: it may make room for more
/// text, and reports whether it could, but the text that the string holds
/// stays as it was.
pub assume_specification[ String::try_reserve ](s: &mut String, additional: usize) -> (reserved:
    Result<(), std::collections::TryReserveError>)
    ensures
        final(s)@ == old(s)@,
;

/// Whether the escaping write replaces `c` by an entity.
pub open spec fn is_special(c: char) -> bool {
    c == '&' || c == '"' || c == '<' || c == '>'
}

/// What the escaping write puts in place of one character: the four
/// characters that carry meaning in markup become entities, every other
/// character stands for itself.
pub open spec fn escape_char(c: char) -> Seq<char> {
    if c == '&' {
        seq!['&', 'a', 'm', 'p', ';']
    } else if c == '"' {
        seq!['&', 'q', 'u', 'o', 't', ';']
    } else if c == '<' {
        seq!['&', 'l', 't', ';']
    } else if c == '>' {
        seq!['&', 'g', 't', ';']
    } else {
        seq![c]
    }
}

/// The escaped form of a text: the replacements of its characters, in order.
pub open spec fn escape(text: Seq<char>) -> Seq<char>
    decreases text.len(),
{
    if text.len() == 0 {
        Seq::empty()
    } else {
        escape(text.drop_last()) + escape_char(text.last())
    }
}

/// An append-only text buffer that producers render into.
pub struct TemplateBuilder {
    buf: String,
}

impl View for TemplateBuilder {
    type V = Seq<char>;

    closed spec fn view(&self) -> Seq<char> {
        self.buf@
    }
}

impl TemplateBuilder {
    /// An empty buffer.
    pub fn new() -> (tmpl: TemplateBuilder)
        ensures
            tmpl@ == Seq::<char>::empty(),
    {
        TemplateBuilder { buf: String::new() }
    }

    /// An empty buffer with room for about `size_hint` bytes, as far as the
    /// room can be had. The hint only guides allocation.
    pub fn with_capacity(size_hint: usize) -> (tmpl: TemplateBuilder)
        ensures
            tmpl@ == Seq::<char>::empty(),
    {
        let mut buf = String::new();
        let _reserved = buf.try_reserve(size_hint);
        TemplateBuilder { buf }
    }

    /// Appends `text` unchanged.
    pub fn write_raw(&mut self, text: &str)
        ensures
            final(self)@ == old(self)@ + text@,
    {
        self.buf.append(text);
    }

    /// Appends the escaped form of `text`.
    pub fn write_str(&mut self, text: &str)
        ensures
            final(self)@ == old(self)@ + escape(text@),
    {
        let ghost before = self@;
        for c in it: text.chars()
            invariant
                it.seq() == text@,
                self@ == before + escape(text@.take(it.index() as int)),
        {
            proof {
                let done = text@.take(it.index() as int + 1);
                assert(done.drop_last() == text@.take(it.index() as int));
                assert(done.last() == c);
                reveal_strlit("&amp;");
                reveal_strlit("&quot;");
                reveal_strlit("&lt;");
                reveal_strlit("&gt;");
            }
            if c == '&' {
                self.buf.append("&amp;");
            } else if c == '"' {
                self.buf.append("&quot;");
            } else if c == '<' {
                self.buf.append("&lt;");
            } else if c == '>' {
                self.buf.append("&gt;");
            } else {
                self.buf.push(c);
            }
        }
        assert(text@.take(text@.len() as int) == text@);
    }

    /// Takes the buffer out of its place, with all that it holds, and
    /// leaves an empty one there.
    pub(crate) fn take(&mut self) -> (taken: TemplateBuilder)
        ensures
            taken@ == old(self)@,
            final(self)@ == Seq::<char>::empty(),
    {
        let mut taken = TemplateBuilder::new();
        core::mem::swap(self, &mut taken);
        taken
    }

    /// The text written so far.
    pub fn into_string(self) -> (s: String)
        ensures
            s@ == self@,
    {
        self.buf
    }
}

/// A producer that can be rendered into a string of its own.
pub trait Template: RenderOnce + Sized {
    /// Renders this into a new string.
    fn into_string(self) -> (s: String)
        requires
            self.well_formed(),
        ensures
            s@ == self.rendered(),
            self.can_finish(),
    ;
}

impl<T: RenderOnce + Sized> Template for T {
    fn into_string(self) -> (s: String) {
        let mut tmpl = TemplateBuilder::with_capacity(self.size_hint());
        self.render_once(&mut tmpl);
        assert(Seq::<char>::empty() + self.rendered() =~= self.rendered());
        tmpl.into_string()
    }
}

/// The escaped form of two texts put together is their escaped forms put
/// together: writing a text in pieces escapes it as writing it whole does.
pub proof fn lemma_escape_concat(a: Seq<char>, b: Seq<char>)
    ensures
        escape(a + b) == escape(a) + escape(b),
    decreases b.len(),
{
    if b.len() == 0 {
        assert(a + b =~= a);
        assert(escape(a) + escape(b) =~= escape(a));
    } else {
        lemma_escape_concat(a, b.drop_last());
        assert((a + b).drop_last() =~= a + b.drop_last());
        assert((a + b).last() == b.last());
        assert((escape(a) + escape(b.drop_last())) + escape_char(b.last()) =~= escape(a) + (escape(
            b.drop_last(),
        ) + escape_char(b.last())));
    }
}

/// A text that holds none of the four special characters is its own escaped
/// form.
pub proof fn lemma_escape_plain(text: Seq<char>)
    requires
        forall|i: int| 0 <= i < text.len() ==> !is_special(text[i]),
    ensures
        escape(text) == text,
    decreases text.len(),
{
    if text.len() > 0 {
        lemma_escape_plain(text.drop_last());
        assert(text.drop_last() + seq![text.last()] =~= text);
    }
}

/// The escaped form of a text holds no `<`, `>` or `"`: what is written
/// escaped cannot open or close a tag, nor end a quoted value.
pub proof fn lemma_escape_holds_no_markup(text: Seq<char>, i: int)
    requires
        0 <= i < escape(text).len(),
    ensures
        escape(text)[i] != '<',
        escape(text)[i] != '>',
        escape(text)[i] != '"',
    decreases text.len(),
{
    if text.len() > 0 {
        let head = escape(text.drop_last());
        if i < head.len() {
            lemma_escape_holds_no_markup(text.drop_last(), i);
        }
    }
}

} // verus!
