//! The boundary to the image file sink.

use vstd::prelude::*;
use crate::structs::color::Color;

verus! {

/// An ordered sink for pixel colors.
///
/// The renderer hands the sink one color per pixel, in row-major order,
/// each row only once it is fully computed. Implementations serialize the
/// stream, together with any header they need, to a concrete image format.
pub trait FileWriter {
    /// The colors the sink has accepted so far, in order of arrival.
    spec fn received(&self) -> Seq<Color>;

    /// Accepts the next color of the stream.
    fn write(&mut self, color: Color)
        ensures
            final(self).received() == old(self).received().push(color),
    ;
}

/// A sink that keeps every color it is handed, in arrival order.
pub struct BufferWriter {
    pub colors: Vec<Color>,
}

impl BufferWriter {
    /// An empty sink.
    pub fn new() -> (w: BufferWriter)
        ensures
            w.received() == Seq::<Color>::empty(),
    {
        BufferWriter { colors: Vec::new() }
    }
}

impl FileWriter for BufferWriter {
    open spec fn received(&self) -> Seq<Color> {
        self.colors@
    }

    fn write(&mut self, color: Color) {
        self.colors.push(color);
    }
}

} // verus!
