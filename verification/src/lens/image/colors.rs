use vstd::prelude::*;

use crate::component::primitive::{Point, Size};
use crate::component::primitive::size::valid_dims;
use crate::error::{IndexError, IndexResult};
use crate::lens::Lens;
use crate::lens::materialize::MaterializeLens;
use crate::lens::split::{min_dims, min_size};
use crate::pixel::Pixel;

verus! {

/// A [`Lens`] over the red channel of a materialized pixel lens.
pub struct RedColorLens {
    source: MaterializeLens<Pixel>,
}

impl RedColorLens {
    /// Whether this lens shows the red channel of `source`: it has its size and, within
    /// it, the red channel of each of its pixels.
    pub open spec fn shows<S: Lens<Item = Pixel>>(self, source: S) -> bool {
        &&& self.spec_size() == source.spec_size()
        &&& forall|p: Point| #[trigger] source.spec_size().spec_contains(p) ==> self.spec_look(p) == source.spec_look(p)@.0
    }
}

impl Lens for RedColorLens {
    type Item = u8;

    closed spec fn spec_size(&self) -> Size {
        self.source.spec_size()
    }

    closed spec fn spec_look(&self, point: Point) -> u8 {
        self.source.spec_look(point)@.0
    }

    fn look(&self, point: Point) -> (r: IndexResult<u8>) {
        match self.source.look(point) {
            Ok(px) => Ok(px.r()),
            Err(e) => Err(e),
        }
    }

    fn size(&self) -> (r: Size) {
        self.source.size()
    }
}

/// A [`Lens`] over the green channel of a materialized pixel lens.
pub struct GreenColorLens {
    source: MaterializeLens<Pixel>,
}

impl GreenColorLens {
    /// Whether this lens shows the green channel of `source`: it has its size and, within
    /// it, the green channel of each of its pixels.
    pub open spec fn shows<S: Lens<Item = Pixel>>(self, source: S) -> bool {
        &&& self.spec_size() == source.spec_size()
        &&& forall|p: Point| #[trigger] source.spec_size().spec_contains(p) ==> self.spec_look(p) == source.spec_look(p)@.1
    }
}

impl Lens for GreenColorLens {
    type Item = u8;

    closed spec fn spec_size(&self) -> Size {
        self.source.spec_size()
    }

    closed spec fn spec_look(&self, point: Point) -> u8 {
        self.source.spec_look(point)@.1
    }

    fn look(&self, point: Point) -> (r: IndexResult<u8>) {
        match self.source.look(point) {
            Ok(px) => Ok(px.g()),
            Err(e) => Err(e),
        }
    }

    fn size(&self) -> (r: Size) {
        self.source.size()
    }
}

/// A [`Lens`] over the blue channel of a materialized pixel lens.
pub struct BlueColorLens {
    source: MaterializeLens<Pixel>,
}

impl BlueColorLens {
    /// Whether this lens shows the blue channel of `source`: it has its size and, within
    /// it, the blue channel of each of its pixels.
    pub open spec fn shows<S: Lens<Item = Pixel>>(self, source: S) -> bool {
        &&& self.spec_size() == source.spec_size()
        &&& forall|p: Point| #[trigger] source.spec_size().spec_contains(p) ==> self.spec_look(p) == source.spec_look(p)@.2
    }
}

impl Lens for BlueColorLens {
    type Item = u8;

    closed spec fn spec_size(&self) -> Size {
        self.source.spec_size()
    }

    closed spec fn spec_look(&self, point: Point) -> u8 {
        self.source.spec_look(point)@.2
    }

    fn look(&self, point: Point) -> (r: IndexResult<u8>) {
        match self.source.look(point) {
            Ok(px) => Ok(px.b()),
            Err(e) => Err(e),
        }
    }

    fn size(&self) -> (r: Size) {
        self.source.size()
    }
}

/// A [`Lens`] over the alpha channel of a materialized pixel lens.
pub struct AlphaColorLens {
    source: MaterializeLens<Pixel>,
}

impl AlphaColorLens {
    /// Whether this lens shows the alpha channel of `source`: it has its size and, within
    /// it, the alpha channel of each of its pixels.
    pub open spec fn shows<S: Lens<Item = Pixel>>(self, source: S) -> bool {
        &&& self.spec_size() == source.spec_size()
        &&& forall|p: Point| #[trigger] source.spec_size().spec_contains(p) ==> self.spec_look(p) == source.spec_look(p)@.3
    }
}

impl Lens for AlphaColorLens {
    type Item = u8;

    closed spec fn spec_size(&self) -> Size {
        self.source.spec_size()
    }

    closed spec fn spec_look(&self, point: Point) -> u8 {
        self.source.spec_look(point)@.3
    }

    fn look(&self, point: Point) -> (r: IndexResult<u8>) {
        match self.source.look(point) {
            Ok(px) => Ok(px.a()),
            Err(e) => Err(e),
        }
    }

    fn size(&self) -> (r: Size) {
        self.source.size()
    }
}

/// A function that builds a lens of channel values from a channel lens, or fails.
///
/// Its spec functions have unspecified defaults; an implementation defines them, and the
/// contracts of this library speak of its values only through them.
pub trait ChannelLensFactory<In> {
    type Output: Lens<Item = u8>;
    type Error;

    /// What building from `source` gives.
    open spec fn spec_build(&self, source: In) -> Result<Self::Output, Self::Error> {
        vstd::pervasive::arbitrary()
    }

    /// Build the lens from `source`.
    fn build(self, source: In) -> (r: Result<Self::Output, Self::Error>)
        ensures
            r == self.spec_build(source),
    ;
}

/// The smallest dimensions of four sizes.
pub open spec fn min4_dims(a: Size, b: Size, c: Size, d: Size) -> (int, int) {
    min_dims(min_dims(min_dims(a@, b@), c@), d@)
}

/// A [`Lens`] of pixels whose red, green, blue and alpha channels come from four lenses.
/// Its size is the smallest of theirs in each dimension.
pub struct ColorsLens<R: Lens<Item = u8>, G: Lens<Item = u8>, B: Lens<Item = u8>, A: Lens<Item = u8>> {
    red: R,
    green: G,
    blue: B,
    alpha: A,
    size: Size,
}

/// What [`ColorsLens::new`] gives where its factories, applied in order to the channel
/// lenses `r`, `g`, `b` and `a`, return the given results: the first error, or the four
/// lenses built.
pub open spec fn colors_result<R, G, B, A, E>(
    red: Result<R, E>,
    green: Result<G, E>,
    blue: Result<B, E>,
    alpha: Result<A, E>,
) -> Result<(R, G, B, A), E> {
    match red {
        Err(e) => Err(e),
        Ok(r) => match green {
            Err(e) => Err(e),
            Ok(g) => match blue {
                Err(e) => Err(e),
                Ok(b) => match alpha {
                    Err(e) => Err(e),
                    Ok(a) => Ok((r, g, b, a)),
                },
            },
        },
    }
}

impl<R: Lens<Item = u8>, G: Lens<Item = u8>, B: Lens<Item = u8>, A: Lens<Item = u8>> ColorsLens<R, G, B, A> {
    #[verifier::type_invariant]
    spec fn inv(self) -> bool {
        self.size@ == min4_dims(self.red.spec_size(), self.green.spec_size(), self.blue.spec_size(), self.alpha.spec_size())
    }

    /// The four channel lenses.
    pub closed spec fn spec_channels(self) -> (R, G, B, A) {
        (self.red, self.green, self.blue, self.alpha)
    }

    /// Build the channel lenses with the four factories from channel lenses of
    /// `materialized`, in the order red, green, blue, alpha, and combine them; fails with
    /// the first error a factory returns.
    pub fn from_materialized<RF, GF, BF, AF, E>(
        materialized: MaterializeLens<Pixel>,
        red: RF,
        green: GF,
        blue: BF,
        alpha: AF,
    ) -> (r: Result<ColorsLens<R, G, B, A>, E>)
        where
            RF: ChannelLensFactory<RedColorLens, Output = R, Error = E>,
            GF: ChannelLensFactory<GreenColorLens, Output = G, Error = E>,
            BF: ChannelLensFactory<BlueColorLens, Output = B, Error = E>,
            AF: ChannelLensFactory<AlphaColorLens, Output = A, Error = E>,
        ensures
            exists|rl: RedColorLens, gl: GreenColorLens, bl: BlueColorLens, al: AlphaColorLens| #![trigger red.spec_build(rl), green.spec_build(gl), blue.spec_build(bl), alpha.spec_build(al)] {
                &&& rl.shows(materialized)
                &&& gl.shows(materialized)
                &&& bl.shows(materialized)
                &&& al.shows(materialized)
                &&& match colors_result(red.spec_build(rl), green.spec_build(gl), blue.spec_build(bl), alpha.spec_build(al)) {
                    Ok(lenses) => r is Ok && r->Ok_0.spec_channels() == lenses,
                    Err(e) => r == Err::<ColorsLens<R, G, B, A>, E>(e),
                }
            },
            r matches Ok(c) ==> {
                &&& c.spec_size()@ == min4_dims(c.spec_channels().0.spec_size(), c.spec_channels().1.spec_size(), c.spec_channels().2.spec_size(), c.spec_channels().3.spec_size())
                &&& forall|p: Point| #[trigger] c.spec_look(p) == Pixel::with_channels((
                    c.spec_channels().0.spec_look(p),
                    c.spec_channels().1.spec_look(p),
                    c.spec_channels().2.spec_look(p),
                    c.spec_channels().3.spec_look(p),
                ))
            },
    {
        let rl = RedColorLens { source: materialized.clone() };
        let gl = GreenColorLens { source: materialized.clone() };
        let bl = BlueColorLens { source: materialized.clone() };
        let al = AlphaColorLens { source: materialized };
        let ghost (grl, ggl, gbl, gal) = (rl, gl, bl, al);
        let ghost spec_red = red.spec_build(grl);
        let ghost spec_green = green.spec_build(ggl);
        let ghost spec_blue = blue.spec_build(gbl);
        let ghost spec_alpha = alpha.spec_build(gal);
        let ghost expected = colors_result(spec_red, spec_green, spec_blue, spec_alpha);
        let red_lens = match red.build(rl) {
            Ok(lens) => lens,
            Err(e) => {
                assert(grl.shows(materialized) && ggl.shows(materialized) && gbl.shows(materialized) && gal.shows(materialized));
                return Err(e);
            },
        };
        let green_lens = match green.build(gl) {
            Ok(lens) => lens,
            Err(e) => {
                assert(grl.shows(materialized) && ggl.shows(materialized) && gbl.shows(materialized) && gal.shows(materialized));
                return Err(e);
            },
        };
        let blue_lens = match blue.build(bl) {
            Ok(lens) => lens,
            Err(e) => {
                assert(grl.shows(materialized) && ggl.shows(materialized) && gbl.shows(materialized) && gal.shows(materialized));
                return Err(e);
            },
        };
        let alpha_lens = match alpha.build(al) {
            Ok(lens) => lens,
            Err(e) => {
                assert(grl.shows(materialized) && ggl.shows(materialized) && gbl.shows(materialized) && gal.shows(materialized));
                return Err(e);
            },
        };
        let size = min_size(min_size(min_size(red_lens.size(), green_lens.size()), blue_lens.size()), alpha_lens.size());
        let lens = ColorsLens { red: red_lens, green: green_lens, blue: blue_lens, alpha: alpha_lens, size };
        assert(grl.shows(materialized) && ggl.shows(materialized) && gbl.shows(materialized) && gal.shows(materialized));
        Ok(lens)
    }

    /// Materialize `source` and build the channel lenses from it with the four factories,
    /// as [`ColorsLens::from_materialized`] does.
    pub fn new<S, RF, GF, BF, AF, E>(source: S, red: RF, green: GF, blue: BF, alpha: AF) -> (r: Result<ColorsLens<R, G, B, A>, E>)
        where
            S: Lens<Item = Pixel>,
            RF: ChannelLensFactory<RedColorLens, Output = R, Error = E>,
            GF: ChannelLensFactory<GreenColorLens, Output = G, Error = E>,
            BF: ChannelLensFactory<BlueColorLens, Output = B, Error = E>,
            AF: ChannelLensFactory<AlphaColorLens, Output = A, Error = E>,
        ensures
            exists|rl: RedColorLens, gl: GreenColorLens, bl: BlueColorLens, al: AlphaColorLens| #![trigger red.spec_build(rl), green.spec_build(gl), blue.spec_build(bl), alpha.spec_build(al)] {
                &&& rl.shows(source)
                &&& gl.shows(source)
                &&& bl.shows(source)
                &&& al.shows(source)
                &&& match colors_result(red.spec_build(rl), green.spec_build(gl), blue.spec_build(bl), alpha.spec_build(al)) {
                    Ok(lenses) => r is Ok && r->Ok_0.spec_channels() == lenses,
                    Err(e) => r == Err::<ColorsLens<R, G, B, A>, E>(e),
                }
            },
            r matches Ok(c) ==> {
                &&& c.spec_size()@ == min4_dims(c.spec_channels().0.spec_size(), c.spec_channels().1.spec_size(), c.spec_channels().2.spec_size(), c.spec_channels().3.spec_size())
                &&& forall|p: Point| #[trigger] c.spec_look(p) == Pixel::with_channels((
                    c.spec_channels().0.spec_look(p),
                    c.spec_channels().1.spec_look(p),
                    c.spec_channels().2.spec_look(p),
                    c.spec_channels().3.spec_look(p),
                ))
            },
    {
        let materialized = MaterializeLens::new(source);
        let r = ColorsLens::from_materialized(materialized, red, green, blue, alpha);
        proof {
            let (rl, gl, bl, al) = choose|rl: RedColorLens, gl: GreenColorLens, bl: BlueColorLens, al: AlphaColorLens| #![trigger red.spec_build(rl), green.spec_build(gl), blue.spec_build(bl), alpha.spec_build(al)] {
                &&& rl.shows(materialized)
                &&& gl.shows(materialized)
                &&& bl.shows(materialized)
                &&& al.shows(materialized)
                &&& match colors_result(red.spec_build(rl), green.spec_build(gl), blue.spec_build(bl), alpha.spec_build(al)) {
                    Ok(lenses) => r is Ok && r->Ok_0.spec_channels() == lenses,
                    Err(e) => r == Err::<ColorsLens<R, G, B, A>, E>(e),
                }
            };
            assert(rl.shows(source) && gl.shows(source) && bl.shows(source) && al.shows(source));
        }
        r
    }
}

impl<R: Lens<Item = u8>, G: Lens<Item = u8>, B: Lens<Item = u8>, A: Lens<Item = u8>> Lens for ColorsLens<R, G, B, A> {
    type Item = Pixel;

    closed spec fn spec_size(&self) -> Size {
        self.size
    }

    closed spec fn spec_look(&self, point: Point) -> Pixel {
        Pixel::with_channels((self.red.spec_look(point), self.green.spec_look(point), self.blue.spec_look(point), self.alpha.spec_look(point)))
    }

    fn look(&self, point: Point) -> (r: IndexResult<Pixel>) {
        proof {
            use_type_invariant(self);
        }
        if !self.size.contains(&point) {
            return Err(IndexError::OutOfBounds);
        }
        let red = self.red.look(point).unwrap();
        let green = self.green.look(point).unwrap();
        let blue = self.blue.look(point).unwrap();
        let alpha = self.alpha.look(point).unwrap();
        let px = Pixel::new([red, green, blue, alpha]);
        proof {
            Pixel::lemma_with_channels((red, green, blue, alpha));
            Pixel::lemma_view_eq(px, Pixel::with_channels((red, green, blue, alpha)));
        }
        Ok(px)
    }

    fn size(&self) -> (r: Size) {
        self.size
    }
}

} // verus!
