use vstd::prelude::*;

use crate::component::primitive::Point;
use crate::image::Image;
use crate::lens::{FromLens, Lens, Mapping};
use crate::lens::map::MapLens;
use crate::pixel::{AsPixel, ChannelFlags, Pixel, with_flags};

verus! {

/// The channels of the negative of a pixel with channels `c`, where `flags` selects the
/// channels that change: each selected channel `v` becomes `255 - v`.
pub open spec fn negative_channels(c: (u8, u8, u8, u8), flags: ChannelFlags) -> (u8, u8, u8, u8) {
    with_flags(c, (255 - c.0) as u8, (255 - c.1) as u8, (255 - c.2) as u8, (255 - c.3) as u8, flags)
}

/// The [`Mapping`] that turns a pixel into its negative on the selected channels.
#[derive(Debug, Clone, Copy)]
pub struct NegativeMapping {
    flags: ChannelFlags,
}

impl NegativeMapping {
    /// The channels the mapping changes.
    pub closed spec fn spec_flags(self) -> ChannelFlags {
        self.flags
    }
}

/// The negative of `px` on the channels that `flags` selects.
fn map_px(px: Pixel, flags: ChannelFlags) -> (r: Pixel)
    ensures
        r@ == negative_channels(px@, flags),
{
    let new_red = u8::MAX - px.r();
    let new_green = u8::MAX - px.g();
    let new_blue = u8::MAX - px.b();
    let new_alpha = u8::MAX - px.a();
    let mut px = px;
    px.set_with_flags(new_red, new_green, new_blue, new_alpha, flags);
    px
}

impl<P: AsPixel> Mapping<P> for NegativeMapping {
    type Output = Pixel;

    open spec fn spec_apply(&self, value: P) -> Pixel {
        Pixel::with_channels(negative_channels(value.spec_pixel()@, self.spec_flags()))
    }

    fn apply(&self, value: P) -> (r: Pixel) {
        let r = map_px(value.as_pixel(), self.flags);
        proof {
            Pixel::lemma_with_channels(negative_channels(value.spec_pixel()@, self.flags));
            Pixel::lemma_view_eq(r, Pixel::with_channels(negative_channels(value.spec_pixel()@, self.flags)));
        }
        r
    }
}

/// A lens over `source` holding the negative of each of its pixels on the channels that
/// `flags` selects.
pub fn negative_lens<S: Lens>(source: S, flags: ChannelFlags) -> (r: MapLens<S, NegativeMapping>)
    where
        S::Item: AsPixel,
    ensures
        r.spec_size() == source.spec_size(),
        forall|p: Point| #[trigger] r.spec_look(p)@ == negative_channels(source.spec_look(p).spec_pixel()@, flags),
{
    let mapping = NegativeMapping { flags };
    let r = MapLens::new(source, mapping);
    proof {
        assert forall|p: Point| #[trigger] r.spec_look(p)@ == negative_channels(source.spec_look(p).spec_pixel()@, flags) by {
            Pixel::lemma_with_channels(negative_channels(source.spec_look(p).spec_pixel()@, flags));
        }
    }
    r
}

/// The negative of `image` on the channels that `flags` selects.
pub fn negative(image: &Image, flags: ChannelFlags) -> (r: Image)
    ensures
        r@.0 == image@.0,
        forall|p: Point| #[trigger] image@.0.spec_contains(p) ==> r.spec_pixel(p)@ == negative_channels(image.spec_pixel(p)@, flags),
{
    let lens = negative_lens(image.lens(), flags);
    Image::from_lens(lens)
}


/// Taking the negative twice on the same channels gives the pixel back.
pub proof fn law_negative_channels_twice(c: (u8, u8, u8, u8), flags: ChannelFlags)
    ensures
        negative_channels(negative_channels(c, flags), flags) == c,
{
}

/// The negative of the negative of an image, on the same channels, is the image itself:
/// where `once` is what [`negative`] gives for `image` and `twice` what it gives for
/// `once`, `twice` equals `image`.
pub proof fn law_negative_twice(image: Image, once: Image, twice: Image, flags: ChannelFlags)
    requires
        image.well_formed(),
        twice.well_formed(),
        once@.0 == image@.0,
        forall|p: Point| #[trigger] image@.0.spec_contains(p) ==> once.spec_pixel(p)@ == negative_channels(image.spec_pixel(p)@, flags),
        twice@.0 == once@.0,
        forall|p: Point| #[trigger] once@.0.spec_contains(p) ==> twice.spec_pixel(p)@ == negative_channels(once.spec_pixel(p)@, flags),
    ensures
        twice@ == image@,
{
    assert forall|p: Point| #[trigger] image@.0.spec_contains(p) implies twice.spec_pixel(p) == image.spec_pixel(p) by {
        law_negative_channels_twice(image.spec_pixel(p)@, flags);
        Pixel::lemma_view_eq(twice.spec_pixel(p), image.spec_pixel(p));
    }
    crate::image::law_pixelwise_equal(twice, image);
}

/// The negative complements each selected channel to 255 and keeps the others: where
/// `out` is what [`negative`] gives for `image`, at every point of the image each
/// channel that `flags` selects adds up with the original channel to 255, and each other
/// channel is unchanged.
pub proof fn law_negative_complements(image: Image, out: Image, flags: ChannelFlags, p: Point)
    requires
        out@.0 == image@.0,
        forall|q: Point| #[trigger] image@.0.spec_contains(q) ==> out.spec_pixel(q)@ == negative_channels(image.spec_pixel(q)@, flags),
        image@.0.spec_contains(p),
    ensures
        flags.red ==> out.spec_pixel(p)@.0 + image.spec_pixel(p)@.0 == 255,
        flags.green ==> out.spec_pixel(p)@.1 + image.spec_pixel(p)@.1 == 255,
        flags.blue ==> out.spec_pixel(p)@.2 + image.spec_pixel(p)@.2 == 255,
        flags.alpha ==> out.spec_pixel(p)@.3 + image.spec_pixel(p)@.3 == 255,
        !flags.red ==> out.spec_pixel(p)@.0 == image.spec_pixel(p)@.0,
        !flags.green ==> out.spec_pixel(p)@.1 == image.spec_pixel(p)@.1,
        !flags.blue ==> out.spec_pixel(p)@.2 == image.spec_pixel(p)@.2,
        !flags.alpha ==> out.spec_pixel(p)@.3 == image.spec_pixel(p)@.3,
{
}

} // verus!
