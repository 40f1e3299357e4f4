use crate::template::{escape, TemplateBuilder};
use vstd::prelude::*;
use vstd::utf8::encode_utf8;

verus! {

/// The number of bytes that `text` takes up in a string.
pub open spec fn byte_len(text: Seq<char>) -> usize {
    encode_utf8(text).len() as usize
}

/// Something that can be rendered once.
pub trait RenderOnce {
    /// Whether this producer can be rendered. A producer built from a
    /// callable can where the callable appends one fixed text to every
    /// buffer; a producer built from other producers can where they can;
    /// every other producer can.
    spec fn well_formed(&self) -> bool;

    /// The text that rendering this producer appends to a buffer.
    spec fn rendered(&self) -> Seq<char>;

    /// The estimate that `size_hint` returns.
    spec fn hint(&self) -> usize;

    /// Whether rendering this producer is known to come to an end. A
    /// rendering that has returned shows that it does. A producer built from
    /// a callable answers for its callable; every other producer does come
    /// to an end.
    spec fn can_finish(&self) -> bool;

    /// Renders this into a buffer, using the producer up.
    fn render_once(self, tmpl: &mut TemplateBuilder) where Self: Sized
        requires
            self.well_formed(),
        ensures
            final(tmpl)@ == old(tmpl)@ + self.rendered(),
            self.can_finish(),
    ;

    /// A rough estimate of how many bytes rendering this will write. It only
    /// guides allocation: nothing that is rendered depends on it.
    fn size_hint(&self) -> (n: usize)
        ensures
            n == self.hint(),
    ;
}

/// Something that can be rendered by mutable reference, any number of times.
pub trait RenderMut: RenderOnce {
    /// Renders this into a buffer, leaving the producer fit to be rendered
    /// again. What the producer renders next is its own matter: a producer
    /// with a state may change it here.
    fn render_mut(&mut self, tmpl: &mut TemplateBuilder)
        requires
            (*old(self)).well_formed(),
        ensures
            final(tmpl)@ == old(tmpl)@ + (*old(self)).rendered(),
            (*old(self)).can_finish(),
            (*final(self)).well_formed(),
    ;
}

/// Something that can be rendered by shared reference, any number of times.
pub trait Render: RenderMut {
    /// Renders this into a buffer. The producer stays as it is.
    fn render(&self, tmpl: &mut TemplateBuilder)
        requires
            self.well_formed(),
        ensures
            final(tmpl)@ == old(tmpl)@ + self.rendered(),
            self.can_finish(),
    ;
}

/// A mutable reference to a producer that can be rendered by mutable
/// reference is rendered once by one such rendering of what it points to.
impl<'a, T: ?Sized + RenderMut> RenderOnce for &'a mut T {
    open spec fn well_formed(&self) -> bool {
        (**self).well_formed()
    }

    open spec fn rendered(&self) -> Seq<char> {
        (**self).rendered()
    }

    open spec fn hint(&self) -> usize {
        (**self).hint()
    }

    open spec fn can_finish(&self) -> bool {
        (**self).can_finish()
    }

    fn render_once(self, tmpl: &mut TemplateBuilder)
        ensures
            (*final(self)).well_formed(),
    {
        RenderMut::render_mut(self, tmpl)
    }

    fn size_hint(&self) -> (n: usize) {
        (**self).size_hint()
    }
}

/// A shared reference to a producer that can be rendered by shared reference
/// is rendered once by one such rendering of what it points to.
impl<'a, T: ?Sized + Render> RenderOnce for &'a T {
    open spec fn well_formed(&self) -> bool {
        (**self).well_formed()
    }

    open spec fn rendered(&self) -> Seq<char> {
        (**self).rendered()
    }

    open spec fn hint(&self) -> usize {
        (**self).hint()
    }

    open spec fn can_finish(&self) -> bool {
        (**self).can_finish()
    }

    fn render_once(self, tmpl: &mut TemplateBuilder) {
        Render::render(self, tmpl)
    }

    fn size_hint(&self) -> (n: usize) {
        (**self).size_hint()
    }
}

/// Rendering once through a shared reference writes what rendering the
/// producer itself by shared reference writes, and asks no more of it.
pub proof fn lemma_shared_reference_renders_alike<S: Render>(producer: &S)
    ensures
        <&S as RenderOnce>::well_formed(&producer) == producer.well_formed(),
        <&S as RenderOnce>::rendered(&producer) == producer.rendered(),
        <&S as RenderOnce>::hint(&producer) == producer.hint(),
        <&S as RenderOnce>::can_finish(&producer) == producer.can_finish(),
{
}

/// Rendering once through a mutable reference writes what one rendering of
/// the producer itself by mutable reference writes, and asks no more of it.
pub proof fn lemma_mutable_reference_renders_alike<S: RenderMut>(producer: S)
    ensures
        forall|reference: &mut S|
            *reference == producer ==> {
                &&& #[trigger] <&mut S as RenderOnce>::well_formed(&reference)
                    == producer.well_formed()
                &&& <&mut S as RenderOnce>::rendered(&reference) == producer.rendered()
                &&& <&mut S as RenderOnce>::hint(&reference) == producer.hint()
                &&& <&mut S as RenderOnce>::can_finish(&reference) == producer.can_finish()
            },
{
}

/// A producer that is rendered twice through shared references writes its
/// text twice, one copy after the other, behind what the buffer held.
pub proof fn lemma_rendered_twice_is_text_twice<S: Render>(producer: &S, before: Seq<char>)
    ensures
        (before + <&S as RenderOnce>::rendered(&producer)) + <&S as RenderOnce>::rendered(
            &producer,
        ) == before + (producer.rendered() + producer.rendered()),
{
    let text = producer.rendered();
    assert((before + text) + text =~= before + (text + text));
}

/// A string slice is rendered escaped.
impl<'a> RenderOnce for &'a str {
    open spec fn well_formed(&self) -> bool {
        true
    }

    open spec fn rendered(&self) -> Seq<char> {
        escape(self@)
    }

    open spec fn hint(&self) -> usize {
        byte_len(self@)
    }

    open spec fn can_finish(&self) -> bool {
        true
    }

    fn render_once(self, tmpl: &mut TemplateBuilder) {
        tmpl.write_str(self)
    }

    fn size_hint(&self) -> (n: usize) {
        self.len()
    }
}

impl<'a> RenderMut for &'a str {
    fn render_mut(&mut self, tmpl: &mut TemplateBuilder)
        ensures
            *final(self) == *old(self),
    {
        tmpl.write_str(self)
    }
}

impl<'a> Render for &'a str {
    fn render(&self, tmpl: &mut TemplateBuilder) {
        tmpl.write_str(self)
    }
}

/// An owned string is rendered escaped.
impl RenderOnce for String {
    open spec fn well_formed(&self) -> bool {
        true
    }

    open spec fn rendered(&self) -> Seq<char> {
        escape(self@)
    }

    open spec fn hint(&self) -> usize {
        byte_len(self@)
    }

    open spec fn can_finish(&self) -> bool {
        true
    }

    fn render_once(self, tmpl: &mut TemplateBuilder) {
        tmpl.write_str(self.as_str())
    }

    fn size_hint(&self) -> (n: usize) {
        self.as_str().len()
    }
}

impl RenderMut for String {
    fn render_mut(&mut self, tmpl: &mut TemplateBuilder)
        ensures
            *final(self) == *old(self),
    {
        tmpl.write_str(self.as_str())
    }
}

impl Render for String {
    fn render(&self, tmpl: &mut TemplateBuilder) {
        tmpl.write_str(self.as_str())
    }
}

/// A value that holds a text and lends it out as a string slice.
pub trait Text: View<V = Seq<char>> {
    /// The text that the value holds.
    fn as_text(&self) -> (text: &str)
        ensures
            text@ == self@,
    ;
}

impl<'a> Text for &'a str {
    fn as_text(&self) -> (text: &str) {
        *self
    }
}

impl Text for String {
    fn as_text(&self) -> (text: &str) {
        self.as_str()
    }
}

/// Raw content marker.
///
/// When rendered, raw content is written as it is, without escaping.
pub struct Raw<S: Text>(S);

impl<S: Text> View for Raw<S> {
    type V = Seq<char>;

    /// The content that was marked as raw.
    closed spec fn view(&self) -> Seq<char> {
        self.0@
    }
}

impl<S: Text> Raw<S> {
    /// Marks `content` as raw.
    pub fn new(content: S) -> (raw: Raw<S>)
        ensures
            raw@ == content@,
    {
        Raw(content)
    }
}

impl<S: Text> RenderOnce for Raw<S> {
    open spec fn well_formed(&self) -> bool {
        true
    }

    open spec fn rendered(&self) -> Seq<char> {
        self@
    }

    open spec fn hint(&self) -> usize {
        byte_len(self@)
    }

    open spec fn can_finish(&self) -> bool {
        true
    }

    fn render_once(self, tmpl: &mut TemplateBuilder) {
        tmpl.write_raw(self.0.as_text())
    }

    fn size_hint(&self) -> (n: usize) {
        self.0.as_text().len()
    }
}

impl<S: Text> RenderMut for Raw<S> {
    fn render_mut(&mut self, tmpl: &mut TemplateBuilder)
        ensures
            *final(self) == *old(self),
    {
        tmpl.write_raw(self.0.as_text())
    }
}

impl<S: Text> Render for Raw<S> {
    fn render(&self, tmpl: &mut TemplateBuilder) {
        tmpl.write_raw(self.0.as_text())
    }
}

/// An optional producer is rendered as what it holds, and as nothing where
/// it holds nothing.
impl<T: RenderOnce> RenderOnce for Option<T> {
    open spec fn well_formed(&self) -> bool {
        match self {
            Some(inner) => inner.well_formed(),
            None => true,
        }
    }

    open spec fn rendered(&self) -> Seq<char> {
        match self {
            Some(inner) => inner.rendered(),
            None => Seq::empty(),
        }
    }

    open spec fn hint(&self) -> usize {
        match self {
            Some(inner) => inner.hint(),
            None => 0,
        }
    }

    open spec fn can_finish(&self) -> bool {
        match self {
            Some(inner) => inner.can_finish(),
            None => true,
        }
    }

    fn render_once(self, tmpl: &mut TemplateBuilder) {
        match self {
            Some(inner) => inner.render_once(tmpl),
            None => {},
        }
    }

    fn size_hint(&self) -> (n: usize) {
        match self {
            Some(inner) => inner.size_hint(),
            None => 0,
        }
    }
}

impl<T: RenderMut> RenderMut for Option<T> {
    fn render_mut(&mut self, tmpl: &mut TemplateBuilder)
        ensures
            (*final(self) is Some) == (*old(self) is Some),
    {
        match self {
            Some(inner) => inner.render_mut(tmpl),
            None => {},
        }
    }
}

impl<T: Render> Render for Option<T> {
    fn render(&self, tmpl: &mut TemplateBuilder) {
        match self {
            Some(inner) => inner.render(tmpl),
            None => {},
        }
    }
}

/// An optional producer that holds a producer renders as that producer
/// does.
pub proof fn lemma_some_renders_alike<T: RenderOnce>(producer: T)
    ensures
        Some(producer).well_formed() == producer.well_formed(),
        Some(producer).rendered() == producer.rendered(),
        Some(producer).hint() == producer.hint(),
        Some(producer).can_finish() == producer.can_finish(),
{
}

/// An optional producer that holds nothing is well formed and renders as
/// the empty text.
pub proof fn lemma_none_renders_nothing<T: RenderOnce>()
    ensures
        None::<T>.well_formed(),
        None::<T>.rendered() == Seq::<char>::empty(),
        None::<T>.hint() == 0,
        None::<T>.can_finish(),
{
}

} // verus!
