use vstd::prelude::*;

use crate::component::primitive::{Point, Size};
use crate::error::IndexResult;
use crate::image::Image;
use crate::lens::Lens;
use crate::lens::image::colors::{
    AlphaColorLens, BlueColorLens, ChannelLensFactory, ColorsLens, GreenColorLens, RedColorLens, colors_result, min4_dims,
};
use crate::pixel::Pixel;

pub mod colors;

verus! {

/// A [`Lens`] that borrows an [`Image`] and looks at its pixels.
#[derive(Clone, Copy)]
pub struct ImageLens<'a>(&'a Image);

impl<'a> ImageLens<'a> {
    /// Create a lens over `image`.
    pub fn new(image: &'a Image) -> (r: ImageLens<'a>)
        ensures
            r.spec_size() == image@.0,
            forall|p: Point| #[trigger] r.spec_look(p) == image.spec_pixel(p),
    {
        ImageLens(image)
    }
}

impl<'a> Lens for ImageLens<'a> {
    type Item = &'a Pixel;

    closed spec fn spec_size(&self) -> Size {
        self.0@.0
    }

    closed spec fn spec_look(&self, point: Point) -> &'a Pixel {
        &self.0.spec_pixel(point)
    }

    fn look(&self, point: Point) -> (r: IndexResult<&'a Pixel>) {
        self.0.pixel(point)
    }

    fn size(&self) -> (r: Size) {
        self.0.size()
    }
}

/// The channel-wise combinator of the [`Lens`] API, available on every lens of pixels.
pub trait PixelLens: Lens<Item = Pixel> {
    /// Split the lens into its four channels, build a lens from each with a factory, and
    /// combine them again, as [`ColorsLens::new`] does.
    fn colors<R, G, B, A, RF, GF, BF, AF, E>(self, red: RF, green: GF, blue: BF, alpha: AF) -> (r: Result<ColorsLens<R, G, B, A>, E>)
        where
            R: Lens<Item = u8>,
            G: Lens<Item = u8>,
            B: Lens<Item = u8>,
            A: Lens<Item = u8>,
            RF: ChannelLensFactory<RedColorLens, Output = R, Error = E>,
            GF: ChannelLensFactory<GreenColorLens, Output = G, Error = E>,
            BF: ChannelLensFactory<BlueColorLens, Output = B, Error = E>,
            AF: ChannelLensFactory<AlphaColorLens, Output = A, Error = E>,
        ensures
            exists|rl: RedColorLens, gl: GreenColorLens, bl: BlueColorLens, al: AlphaColorLens| #![trigger red.spec_build(rl), green.spec_build(gl), blue.spec_build(bl), alpha.spec_build(al)] {
                &&& rl.shows(self)
                &&& gl.shows(self)
                &&& bl.shows(self)
                &&& al.shows(self)
                &&& match colors_result(red.spec_build(rl), green.spec_build(gl), blue.spec_build(bl), alpha.spec_build(al)) {
                    Ok(lenses) => r is Ok && r->Ok_0.spec_channels() == lenses,
                    Err(e) => r == Err::<ColorsLens<R, G, B, A>, E>(e),
                }
            },
            r matches Ok(c) ==> {
                &&& c.spec_size()@ == min4_dims(c.spec_channels().0.spec_size(), c.spec_channels().1.spec_size(), c.spec_channels().2.spec_size(), c.spec_channels().3.spec_size())
                &&& forall|p: Point| #[trigger] c.spec_look(p) == Pixel::with_channels((
                    c.spec_channels().0.spec_look(p),
                    c.spec_channels().1.spec_look(p),
                    c.spec_channels().2.spec_look(p),
                    c.spec_channels().3.spec_look(p),
                ))
            },
    ;
}

impl<L: Lens<Item = Pixel>> PixelLens for L {
    fn colors<R, G, B, A, RF, GF, BF, AF, E>(self, red: RF, green: GF, blue: BF, alpha: AF) -> (r: Result<ColorsLens<R, G, B, A>, E>)
        where
            R: Lens<Item = u8>,
            G: Lens<Item = u8>,
            B: Lens<Item = u8>,
            A: Lens<Item = u8>,
            RF: ChannelLensFactory<RedColorLens, Output = R, Error = E>,
            GF: ChannelLensFactory<GreenColorLens, Output = G, Error = E>,
            BF: ChannelLensFactory<BlueColorLens, Output = B, Error = E>,
            AF: ChannelLensFactory<AlphaColorLens, Output = A, Error = E>,
    {
        ColorsLens::new(self, red, green, blue, alpha)
    }
}

} // verus!
