use crate::render::{Render, RenderMut, RenderOnce};
use crate::template::TemplateBuilder;
use vstd::prelude::*;

verus! {

/// Whether `f` takes every buffer and hands it back with `out` appended.
pub open spec fn appends<F: FnOnce(TemplateBuilder) -> TemplateBuilder>(
    f: F,
    out: Seq<char>,
) -> bool {
    &&& forall|tmpl: TemplateBuilder| call_requires(f, (tmpl,))
    &&& forall|tmpl: TemplateBuilder, done: TemplateBuilder|
        call_ensures(f, (tmpl,), done) ==> done@ == tmpl@ + out
}

/// Whether `f` is known to come back: there is a buffer that it may be given
/// and a buffer that it may hand back for it.
pub open spec fn hands_back<F: FnOnce(TemplateBuilder) -> TemplateBuilder>(f: F) -> bool {
    exists|tmpl: TemplateBuilder, done: TemplateBuilder| call_ensures(f, (tmpl,), done)
}

/// A producer made of a callable and an estimate of how much it writes.
///
/// The callable takes the buffer and hands it back. How often the renderer
/// can be rendered goes by how often the callable can be called.
pub struct Renderer<F> {
    renderer: F,
    expected_size: usize,
}

impl<F> Renderer<F> {
    /// The callable that does the rendering.
    pub closed spec fn callable(&self) -> F {
        self.renderer
    }

    /// The estimate that the renderer was made with.
    pub closed spec fn expected_size(&self) -> usize {
        self.expected_size
    }
}

impl<F: FnOnce(TemplateBuilder) -> TemplateBuilder> RenderOnce for Renderer<F> {
    /// A renderer is well formed where its callable appends one fixed text
    /// to whatever buffer it is given.
    open spec fn well_formed(&self) -> bool {
        exists|out: Seq<char>| appends(self.callable(), out)
    }

    /// The text that the callable appends.
    open spec fn rendered(&self) -> Seq<char> {
        choose|out: Seq<char>| appends(self.callable(), out)
    }

    /// The estimate that the renderer was made with, never one worked out
    /// from what it writes.
    open spec fn hint(&self) -> usize {
        self.expected_size()
    }

    open spec fn can_finish(&self) -> bool {
        hands_back(self.callable())
    }

    fn render_once(self, tmpl: &mut TemplateBuilder) {
        let taken = tmpl.take();
        *tmpl = (self.renderer)(taken);
    }

    fn size_hint(&self) -> (n: usize) {
        self.expected_size
    }
}

impl<F: FnMut(TemplateBuilder) -> TemplateBuilder> RenderMut for Renderer<F> {
    fn render_mut(&mut self, tmpl: &mut TemplateBuilder)
        ensures
            *final(self) == *old(self),
    {
        let taken = tmpl.take();
        *tmpl = (self.renderer)(taken);
    }
}

impl<F: Fn(TemplateBuilder) -> TemplateBuilder> Render for Renderer<F> {
    fn render(&self, tmpl: &mut TemplateBuilder) {
        let taken = tmpl.take();
        *tmpl = (self.renderer)(taken);
    }
}

impl<F: Fn(TemplateBuilder) -> TemplateBuilder> Renderer<F> {
    /// The text that the renderer writes, as a string of its own.
    pub fn to_string(&self) -> (s: String)
        requires
            self.well_formed(),
        ensures
            s@ == self.rendered(),
            self.can_finish(),
    {
        let mut tmpl = TemplateBuilder::new();
        self.render(&mut tmpl);
        assert(Seq::<char>::empty() + self.rendered() =~= self.rendered());
        tmpl.into_string()
    }
}

/// What holds of a renderer `r` that was made of the callable `f` and the
/// estimate `expected_size`: it holds the two; it is well formed exactly
/// where `f` appends one fixed text to every buffer, and that text is then
/// its text; and once `f` is known to come back, no other text is.
pub open spec fn made_of<F: FnOnce(TemplateBuilder) -> TemplateBuilder>(
    r: Renderer<F>,
    expected_size: usize,
    f: F,
) -> bool {
    &&& r.callable() == f
    &&& r.expected_size() == expected_size
    &&& r.hint() == expected_size
    &&& forall|out: Seq<char>| #[trigger] appends(f, out) ==> r.well_formed()
    &&& r.well_formed() ==> appends(f, r.rendered())
    &&& r.can_finish() <==> hands_back(f)
    &&& forall|out: Seq<char>| #[trigger] appends(f, out) && r.can_finish() ==> r.rendered() == out
}

/// Makes a renderer of the callable `f`, which is expected to write about
/// `expected_size` bytes.
pub fn __new_renderer<F: FnOnce(TemplateBuilder) -> TemplateBuilder>(
    expected_size: usize,
    f: F,
) -> (r: Renderer<F>)
    ensures
        made_of(r, expected_size, f),
{
    let r = Renderer { renderer: f, expected_size: expected_size };
    proof {
        lemma_renderer_text(r);
    }
    r
}

/// Makes a renderer as `__new_renderer` does, and puts it in a box.
pub fn __new_boxed_renderer<F: FnOnce(TemplateBuilder) -> TemplateBuilder>(
    expected_size: usize,
    f: F,
) -> (r: Box<Renderer<F>>)
    ensures
        made_of(*r, expected_size, f),
{
    let r = Renderer { renderer: f, expected_size: expected_size };
    proof {
        lemma_renderer_text(r);
    }
    Box::new(r)
}

/// Where the callable of a renderer is known to come back, the text of the
/// renderer is the one text that the callable appends to every buffer.
pub proof fn lemma_renderer_text<F: FnOnce(TemplateBuilder) -> TemplateBuilder>(r: Renderer<F>)
    ensures
        forall|out: Seq<char>| #[trigger]
            appends(r.callable(), out) && r.can_finish() ==> r.rendered() == out,
{
    assert forall|out: Seq<char>| #[trigger]
        appends(r.callable(), out) && r.can_finish() implies r.rendered() == out by {
        let text = r.rendered();
        let (tmpl, done) = choose|tmpl: TemplateBuilder, done: TemplateBuilder|
            call_ensures(r.callable(), (tmpl,), done);
        assert(done@ == tmpl@ + out);
        assert(done@ == tmpl@ + text);
        assert(out.len() == text.len());
        assert forall|i: int| 0 <= i < out.len() implies out[i] == text[i] by {
            assert(out[i] == (tmpl@ + out)[tmpl@.len() + i]);
            assert(text[i] == (tmpl@ + text)[tmpl@.len() + i]);
        }
        assert(out =~= text);
    }
}

/// The estimate that a renderer was made with changes nothing of what it
/// renders: two renderers of one callable write the same text, whatever
/// their estimates.
pub proof fn lemma_expected_size_leaves_text<F: FnOnce(TemplateBuilder) -> TemplateBuilder>(
    one: Renderer<F>,
    other: Renderer<F>,
)
    requires
        one.callable() == other.callable(),
    ensures
        one.well_formed() == other.well_formed(),
        one.rendered() == other.rendered(),
        one.can_finish() == other.can_finish(),
{
}

/// A well-formed renderer of a callable that can be called again writes the
/// same text each time: any two runs of the callable append the text of the
/// renderer to what they were given.
pub proof fn lemma_renderer_repeats<F: Fn(TemplateBuilder) -> TemplateBuilder>(
    r: Renderer<F>,
    first: TemplateBuilder,
    first_done: TemplateBuilder,
    second: TemplateBuilder,
    second_done: TemplateBuilder,
)
    requires
        r.well_formed(),
        call_ensures(r.callable(), (first,), first_done),
        call_ensures(r.callable(), (second,), second_done),
    ensures
        first_done@ == first@ + r.rendered(),
        second_done@ == second@ + r.rendered(),
{
}

} // verus!
