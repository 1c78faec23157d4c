# img

An image manipulation library: RGBA images, a lazy 2D `Lens` API with kernels,
overlays, borders, splits and channel recombination, and filters built on them.

The library under `src/` is written in Verus and verified: each public function states
its result in its contract, and the laws of the library (index and translation
round trips, margin round trips, the negative being an involution, what a write reads
back, the behaviour of the median blur on flat images and with radius 0, and others)
are public proof functions next to the code they speak of.

Layout:

- `src/component/primitive` — `Point`, `Offset`, `Size`, `Margin`, `Area` and their order.
- `src/component/kernel` — the `Kernel` trait, the identity and Sobel kernels, and the
  sizes and offsets of convolution, mean and gaussian kernels.
- `src/lens` — the `Lens` trait and its lenses; `src/image.rs` and `src/pixel.rs` —
  images and pixels.
- `src/operation`, `src/ops` — negative, crop, median blur, the mean stage of the
  kuwahara filter, the first stage of canny edge detection, and their errors.
- `src/io` — reading and writing PNG files through the `png` crate (the only calls
  into an outside crate, behind two wrappers whose results are named), turning decoded
  PNG frames and raw RGBA buffers into pixels;
  `src/iter.rs` — iterators over raw RGBA buffers; `src/collection` — the
  `TrackingSet` of the median blur.
- `app/` — reading and writing files and JPEG, the filters whose arithmetic is floating point
  (grayscale, sepia, gamma, gaussian and mean blur, kuwahara, canny, resize), parallel
  drivers, and displayable copies of the error types.
- `tests/` — tests of the library.
