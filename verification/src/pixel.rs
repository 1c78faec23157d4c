use vstd::prelude::*;

verus! {

/// Number of bytes of one pixel in a raw RGBA buffer.
pub const PIXEL_SIZE: usize = 4;

/// Selects which channels of a [`Pixel`] an operation writes.
#[derive(Debug, Clone, Copy, PartialEq, Eq, Structural)]
pub struct ChannelFlags {
    pub red: bool,
    pub green: bool,
    pub blue: bool,
    pub alpha: bool,
}

impl ChannelFlags {
    /// Flags with each channel selected as given.
    pub fn new(red: bool, green: bool, blue: bool, alpha: bool) -> (r: ChannelFlags)
        ensures
            r == (ChannelFlags { red, green, blue, alpha }),
    {
        ChannelFlags { red, green, blue, alpha }
    }

    /// Red, green and blue channels; alpha left alone.
    pub fn rgb() -> (r: ChannelFlags)
        ensures
            r == (ChannelFlags { red: true, green: true, blue: true, alpha: false }),
    {
        ChannelFlags { red: true, green: true, blue: true, alpha: false }
    }

    /// All four channels.
    pub fn rgba() -> (r: ChannelFlags)
        ensures
            r == (ChannelFlags { red: true, green: true, blue: true, alpha: true }),
    {
        ChannelFlags { red: true, green: true, blue: true, alpha: true }
    }
}

/// An RGBA pixel, each channel ranging from 0 to 255.
#[derive(Debug, Clone, Copy, PartialEq, Eq, Structural)]
pub struct Pixel {
    r: u8,
    g: u8,
    b: u8,
    a: u8,
}

impl View for Pixel {
    /// `(red, green, blue, alpha)`.
    type V = (u8, u8, u8, u8);

    closed spec fn view(&self) -> (u8, u8, u8, u8) {
        (self.r, self.g, self.b, self.a)
    }
}

/// Channel `v` if `selected`, `old` otherwise.
pub open spec fn pick(selected: bool, v: u8, old: u8) -> u8 {
    if selected {
        v
    } else {
        old
    }
}

/// The channels of `old` overwritten by `(r, g, b, a)` where `flags` selects them.
pub open spec fn with_flags(old: (u8, u8, u8, u8), r: u8, g: u8, b: u8, a: u8, flags: ChannelFlags) -> (u8, u8, u8, u8) {
    (pick(flags.red, r, old.0), pick(flags.green, g, old.1), pick(flags.blue, b, old.2), pick(flags.alpha, a, old.3))
}

impl Pixel {
    /// The pixel with the given channels.
    pub closed spec fn with_channels(c: (u8, u8, u8, u8)) -> Pixel {
        Pixel { r: c.0, g: c.1, b: c.2, a: c.3 }
    }

    /// Pixels are equal exactly when their channels are.
    pub broadcast proof fn lemma_view_eq(p: Pixel, q: Pixel)
        ensures
            #[trigger] (p@) == #[trigger] (q@) <==> p == q,
    {
    }

    /// The channels of [`Pixel::with_channels`].
    pub broadcast proof fn lemma_with_channels(c: (u8, u8, u8, u8))
        ensures
            #[trigger] Pixel::with_channels(c)@ == c,
    {
    }

    /// Create a pixel from `[red, green, blue, alpha]`.
    pub fn new(channels: [u8; 4]) -> (r: Pixel)
        ensures
            r@ == (channels[0], channels[1], channels[2], channels[3]),
    {
        Pixel { r: channels[0], g: channels[1], b: channels[2], a: channels[3] }
    }

    /// The pixel with all channels equal to 0.
    pub fn zero() -> (r: Pixel)
        ensures
            r@ == (0u8, 0u8, 0u8, 0u8),
    {
        Pixel { r: 0, g: 0, b: 0, a: 0 }
    }

    /// Red channel.
    pub fn r(&self) -> (v: u8)
        ensures
            v == self@.0,
    {
        self.r
    }

    /// Green channel.
    pub fn g(&self) -> (v: u8)
        ensures
            v == self@.1,
    {
        self.g
    }

    /// Blue channel.
    pub fn b(&self) -> (v: u8)
        ensures
            v == self@.2,
    {
        self.b
    }

    /// Alpha channel.
    pub fn a(&self) -> (v: u8)
        ensures
            v == self@.3,
    {
        self.a
    }

    /// Set the red channel.
    pub fn set_r(&mut self, v: u8)
        ensures
            final(self)@ == (v, old(self)@.1, old(self)@.2, old(self)@.3),
    {
        self.r = v;
    }

    /// Set the green channel.
    pub fn set_g(&mut self, v: u8)
        ensures
            final(self)@ == (old(self)@.0, v, old(self)@.2, old(self)@.3),
    {
        self.g = v;
    }

    /// Set the blue channel.
    pub fn set_b(&mut self, v: u8)
        ensures
            final(self)@ == (old(self)@.0, old(self)@.1, v, old(self)@.3),
    {
        self.b = v;
    }

    /// Set the alpha channel.
    pub fn set_a(&mut self, v: u8)
        ensures
            final(self)@ == (old(self)@.0, old(self)@.1, old(self)@.2, v),
    {
        self.a = v;
    }

    /// Set the channels that `flags` selects to the given values.
    pub fn set_with_flags(&mut self, r: u8, g: u8, b: u8, a: u8, flags: ChannelFlags)
        ensures
            final(self)@ == with_flags(old(self)@, r, g, b, a, flags),
    {
        if flags.red {
            self.r = r;
        }
        if flags.green {
            self.g = g;
        }
        if flags.blue {
            self.b = b;
        }
        if flags.alpha {
            self.a = a;
        }
    }

    /// The pixel's channels as `[red, green, blue, alpha]`.
    pub fn buffer(&self) -> (r: [u8; 4])
        ensures
            r@ == seq![self@.0, self@.1, self@.2, self@.3],
    {
        let r = [self.r, self.g, self.b, self.a];
        assert(r@ =~= seq![self@.0, self@.1, self@.2, self@.3]);
        r
    }
}

} // verus!

verus! {

/// Something that holds or lends a [`Pixel`].
pub trait AsPixel {
    /// The pixel held or lent.
    spec fn spec_pixel(&self) -> Pixel;

    /// Get a copy of the pixel.
    fn as_pixel(&self) -> (r: Pixel)
        ensures
            r == self.spec_pixel(),
    ;
}

impl AsPixel for Pixel {
    open spec fn spec_pixel(&self) -> Pixel {
        *self
    }

    fn as_pixel(&self) -> (r: Pixel) {
        *self
    }
}

impl<'a> AsPixel for &'a Pixel {
    open spec fn spec_pixel(&self) -> Pixel {
        **self
    }

    fn as_pixel(&self) -> (r: Pixel) {
        **self
    }
}

} // verus!
