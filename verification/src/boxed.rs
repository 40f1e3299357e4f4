use crate::render::{Render, RenderMut, RenderOnce};
use crate::template::TemplateBuilder;
use vstd::prelude::*;

verus! {

/// Something that can be rendered once out of a box.
///
/// Every producer that can be rendered once has this form, so a box of any
/// such producer can be held as a `Box<dyn RenderBox>`, whatever its type.
pub trait RenderBox {
    /// Whether the boxed producer can be rendered.
    spec fn box_well_formed(&self) -> bool;

    /// The text that rendering the boxed producer appends.
    spec fn box_rendered(&self) -> Seq<char>;

    /// The estimate that `size_hint_box` returns.
    spec fn box_hint(&self) -> usize;

    /// Whether rendering the boxed producer is known to come to an end.
    spec fn box_can_finish(&self) -> bool;

    /// Renders the producer out of its box. Called by the `RenderOnce` impl
    /// of `Box<dyn RenderBox>`.
    fn render_box(self: Box<Self>, tmpl: &mut TemplateBuilder)
        requires
            self.box_well_formed(),
        ensures
            final(tmpl)@ == old(tmpl)@ + self.box_rendered(),
            self.box_can_finish(),
    ;

    /// The size hint of the boxed producer. Called by the `RenderOnce` impl
    /// of `Box<dyn RenderBox>`.
    fn size_hint_box(&self) -> (n: usize)
        ensures
            n == self.box_hint(),
    ;
}

impl<T: RenderOnce> RenderBox for T {
    open spec fn box_well_formed(&self) -> bool {
        self.well_formed()
    }

    open spec fn box_rendered(&self) -> Seq<char> {
        self.rendered()
    }

    open spec fn box_hint(&self) -> usize {
        self.hint()
    }

    open spec fn box_can_finish(&self) -> bool {
        self.can_finish()
    }

    fn render_box(self: Box<T>, tmpl: &mut TemplateBuilder) {
        (*self).render_once(tmpl);
    }

    fn size_hint_box(&self) -> (n: usize) {
        RenderOnce::size_hint(self)
    }
}

/// A box of a producer whose type is hidden is rendered once by rendering
/// what it holds.
impl<'b> RenderOnce for Box<dyn RenderBox + 'b> {
    open spec fn well_formed(&self) -> bool {
        (**self).box_well_formed()
    }

    open spec fn rendered(&self) -> Seq<char> {
        (**self).box_rendered()
    }

    open spec fn hint(&self) -> usize {
        (**self).box_hint()
    }

    open spec fn can_finish(&self) -> bool {
        (**self).box_can_finish()
    }

    fn render_once(self, tmpl: &mut TemplateBuilder) {
        RenderBox::render_box(self, tmpl);
    }

    fn size_hint(&self) -> (n: usize) {
        RenderBox::size_hint_box(&**self)
    }
}

/// A box of a producer that can be rendered by mutable reference, of a known
/// type or of a hidden one, is rendered once by one such rendering of what
/// it holds.
impl<T: ?Sized + RenderMut> RenderOnce for Box<T> {
    open spec fn well_formed(&self) -> bool {
        (**self).well_formed()
    }

    open spec fn rendered(&self) -> Seq<char> {
        (**self).rendered()
    }

    open spec fn hint(&self) -> usize {
        (**self).hint()
    }

    open spec fn can_finish(&self) -> bool {
        (**self).can_finish()
    }

    fn render_once(self, tmpl: &mut TemplateBuilder) {
        let mut this = self;
        RenderMut::render_mut(&mut *this, tmpl);
    }

    fn size_hint(&self) -> (n: usize) {
        RenderOnce::size_hint(&**self)
    }
}

impl<T: ?Sized + RenderMut> RenderMut for Box<T> {
    fn render_mut(&mut self, tmpl: &mut TemplateBuilder) {
        RenderMut::render_mut(&mut **self, tmpl);
    }
}

impl<T: ?Sized + Render> Render for Box<T> {
    fn render(&self, tmpl: &mut TemplateBuilder) {
        Render::render(&**self, tmpl);
    }
}

/// Boxing a producer and hiding its type changes nothing of what it
/// renders: the handle writes the text of the producer, asks as much of it
/// and gives its size hint.
pub proof fn lemma_erased_renders_alike<'b, T: RenderOnce + 'b>(producer: T)
    ensures
        ({
            let handle: Box<dyn RenderBox + 'b> = Box::new(producer);
            &&& handle.well_formed() == producer.well_formed()
            &&& handle.rendered() == producer.rendered()
            &&& handle.hint() == producer.hint()
            &&& handle.can_finish() == producer.can_finish()
        }),
{
}

/// Boxing a producer that can be rendered by mutable reference changes
/// nothing of what it renders.
pub proof fn lemma_boxed_renders_alike<T: RenderMut>(producer: T)
    ensures
        Box::new(producer).well_formed() == producer.well_formed(),
        Box::new(producer).rendered() == producer.rendered(),
        Box::new(producer).hint() == producer.hint(),
        Box::new(producer).can_finish() == producer.can_finish(),
{
}

} // verus!
