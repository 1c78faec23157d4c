use img::component::kernel::Kernel;
use img::component::kernel::convolution::{ConvolutionKernelCreationError, convolution_kernel_size, convolution_points};
use img::error::IndexError;
use img::component::kernel::gaussian::{GaussianKernelCreationError, gaussian_kernel_size, gaussian_offsets};
use img::component::kernel::identity::IdentityKernel;
use img::component::kernel::mean::{MeanKernelCreationError, mean_kernel_size};
use img::component::kernel::sobel::SobelKernel;
use img::component::primitive::{DIMENSION_MAX, Margin, Offset, Point, Size};
use img::lens::Lens;
use img::lens::kernel::{KernelLens, KernelLensCreationError};
use img::lens::materialize::MaterializeLens;
use img::lens::value::ValueLens;
use img::operation::blur::kuwahara::{MeanCalculationInput, MeanCalculationKernel, SelectedQuadrant};
use img::pixel::Pixel;

#[test]
fn convolution_size_checks() {
    let margin = Margin::new(1, 2, 3, 4).unwrap();
    assert_eq!(convolution_kernel_size(margin, 7 * 5).unwrap(), Size::new(7, 5).unwrap());
    assert_eq!(convolution_kernel_size(margin, 34).unwrap_err(), ConvolutionKernelCreationError::BufferLenMissmatch);
    assert_eq!(
        convolution_kernel_size(Margin::new(0, DIMENSION_MAX, 0, 0).unwrap(), 1).unwrap_err(),
        ConvolutionKernelCreationError::MarginWidthTooBig
    );
    assert_eq!(
        convolution_kernel_size(Margin::new(DIMENSION_MAX, 0, 0, 0).unwrap(), 1).unwrap_err(),
        ConvolutionKernelCreationError::MarginHeightTooBig
    );
}

#[test]
fn mean_and_gaussian_sizes() {
    assert_eq!(mean_kernel_size(Margin::unified(2).unwrap()).unwrap(), Size::new(5, 5).unwrap());
    assert_eq!(
        mean_kernel_size(Margin::new(0, 0, 0, DIMENSION_MAX).unwrap()).unwrap_err(),
        MeanKernelCreationError::MarginWidthTooBig
    );
    assert_eq!(gaussian_kernel_size(Margin::unified(1).unwrap()).unwrap(), Size::new(3, 3).unwrap());
    assert_eq!(
        gaussian_kernel_size(Margin::new(0, 0, DIMENSION_MAX, 0).unwrap()).unwrap_err(),
        GaussianKernelCreationError::MarginHeightTooBig
    );
    assert_eq!(
        GaussianKernelCreationError::from(ConvolutionKernelCreationError::BufferLenMissmatch),
        GaussianKernelCreationError::ConvolutionKernelError(ConvolutionKernelCreationError::BufferLenMissmatch)
    );
}

#[test]
fn gaussian_offsets_from_centre() {
    let margin = Margin::new(1, 0, 0, 2).unwrap();
    let size = gaussian_kernel_size(margin).unwrap();
    assert_eq!(size, Size::new(3, 2).unwrap());
    let offsets = gaussian_offsets(margin, size);
    let expected = [(-2, -1), (-1, -1), (0, -1), (-2, 0), (-1, 0), (0, 0)];
    assert_eq!(offsets.len(), expected.len());
    for (offset, (x, y)) in offsets.iter().zip(expected) {
        assert_eq!(*offset, Offset::new(x, y).unwrap());
    }
}

#[test]
fn identity_kernel_keeps_values() {
    let source = MaterializeLens::from_values(Size::new(2, 2).unwrap(), vec![1, 2, 3, 4]).unwrap();
    let lens = KernelLens::new(source, IdentityKernel::new()).unwrap();
    assert_eq!(lens.size(), Size::new(2, 2).unwrap());
    assert_eq!(lens.look(Point::new(1, 1).unwrap()).unwrap(), 4);
    assert_eq!(lens.look(Point::new(0, 1).unwrap()).unwrap(), 3);
    let kernel = IdentityKernel::new();
    let source = MaterializeLens::from_values(Size::new(2, 2).unwrap(), vec![1, 2, 3, 4]).unwrap();
    assert_eq!(kernel.evaluate(&source, Point::new(1, 0).unwrap()), Ok(2));
    assert_eq!(kernel.evaluate(&source, Point::new(2, 0).unwrap()), Err(IndexError::OutOfBounds));
}

#[test]
fn sobel_kernel_refuses_left_and_top_borders() {
    let source = ValueLens::new(5u8, Size::new(4, 4).unwrap());
    let kernel = SobelKernel::new();
    assert!(kernel.evaluate(&source, Point::new(0, 1).unwrap()).is_err_and(|e| e == IndexError::OutOfBounds));
    assert!(kernel.evaluate(&source, Point::new(1, 0).unwrap()).is_err_and(|e| e == IndexError::OutOfBounds));
    assert!(kernel.evaluate(&source, Point::new(4, 1).unwrap()).is_err_and(|e| e == IndexError::OutOfBounds));
    let g = kernel.evaluate(&source, Point::new(1, 1).unwrap()).unwrap();
    assert_eq!((g.x(), g.y()), (0, 0));
}

#[test]
fn sobel_gradients() {
    let flat = KernelLens::new(ValueLens::new(7u8, Size::new(4, 4).unwrap()), SobelKernel::new()).unwrap();
    assert_eq!(flat.size(), Size::new(2, 2).unwrap());
    let g = flat.look(Point::new(1, 1).unwrap()).unwrap();
    assert_eq!((g.x(), g.y()), (0, 0));

    let values = vec![0u8, 0, 0, 0, 0, 10, 0, 0, 0];
    let source = MaterializeLens::from_values(Size::new(3, 3).unwrap(), values).unwrap();
    let edge = KernelLens::new(source, SobelKernel::new()).unwrap();
    let g = edge.look(Point::new(0, 0).unwrap()).unwrap();
    assert_eq!((g.x(), g.y()), (20, 0));

    let too_small = KernelLens::new(ValueLens::new(0u8, Size::new(2, 3).unwrap()), SobelKernel::new());
    assert_eq!(too_small.err(), Some(KernelLensCreationError::KernelWidthTooBig));
}

#[test]
fn kuwahara_mean_of_uniform_quadrant() {
    let input = MeanCalculationInput { pixel: Pixel::new([10, 20, 30, 40]), selected_quadrant: SelectedQuadrant::TopLeft };
    let lens = KernelLens::new(ValueLens::new(input, Size::new(5, 5).unwrap()), MeanCalculationKernel::new(1)).unwrap();
    assert_eq!(lens.size(), Size::new(3, 3).unwrap());
    assert_eq!(lens.look(Point::new(1, 1).unwrap()).unwrap(), Pixel::new([10, 20, 20, 40]));

    let single = KernelLens::new(ValueLens::new(input, Size::new(1, 1).unwrap()), MeanCalculationKernel::new(0)).unwrap();
    assert_eq!(single.look(Point::new(0, 0).unwrap()).unwrap(), Pixel::new([10, 20, 30, 40]));
}

#[test]
fn kuwahara_mean_reads_selected_quadrant() {
    let size = Size::new(3, 3).unwrap();
    let mut values = Vec::new();
    for y in 0..3u8 {
        for x in 0..3u8 {
            let quadrant = if x == 1 && y == 1 { SelectedQuadrant::BottomRight } else { SelectedQuadrant::TopLeft };
            values.push(MeanCalculationInput { pixel: Pixel::new([x * 10 + y, 4, 0, 7]), selected_quadrant: quadrant });
        }
    }
    let source = MaterializeLens::from_values(size, values).unwrap();
    let lens = KernelLens::new(source, MeanCalculationKernel::new(1)).unwrap();
    let px = lens.look(Point::new(0, 0).unwrap()).unwrap();
    assert_eq!(px, Pixel::new([(11 + 12 + 21 + 22) / 4, 4, 4, 7]));
}

#[test]
fn convolution_reads_flipped_margin_window() {
    let margin = Margin::unified(1).unwrap();
    let size = Size::new(3, 3).unwrap();
    let lens_size = Size::new(5, 5).unwrap();
    let points = convolution_points(margin, size, lens_size, Point::new(2, 2).unwrap()).unwrap();
    assert_eq!(points.len(), 9);
    assert_eq!(points[0], Point::new(3, 3).unwrap());
    assert_eq!(points[4], Point::new(2, 2).unwrap());
    assert_eq!(points[8], Point::new(1, 1).unwrap());
    assert_eq!(points[2], Point::new(1, 3).unwrap());
    assert_eq!(convolution_points(margin, size, lens_size, Point::new(0, 2).unwrap()).unwrap_err(), IndexError::OutOfBounds);
    assert_eq!(convolution_points(margin, size, lens_size, Point::new(4, 2).unwrap()).unwrap_err(), IndexError::OutOfBounds);

    // Margin left 1: the kernel reads the point and its left neighbour, flipped.
    let left = Margin::new(0, 0, 0, 1).unwrap();
    let points = convolution_points(left, Size::new(2, 1).unwrap(), Size::new(4, 1).unwrap(), Point::new(1, 0).unwrap()).unwrap();
    assert_eq!(points, vec![Point::new(1, 0).unwrap(), Point::new(0, 0).unwrap()]);

    // Margin right 1 on a 3x1 lens: at (1, 0) the kernel reads (1, 0) and its right
    // neighbour (2, 0), flipped; at (2, 0) the window leaves the lens.
    let right = Margin::new(0, 1, 0, 0).unwrap();
    let points = convolution_points(right, Size::new(2, 1).unwrap(), Size::new(3, 1).unwrap(), Point::new(1, 0).unwrap()).unwrap();
    assert_eq!(points, vec![Point::new(2, 0).unwrap(), Point::new(1, 0).unwrap()]);
    assert_eq!(
        convolution_points(right, Size::new(2, 1).unwrap(), Size::new(3, 1).unwrap(), Point::new(2, 0).unwrap()).unwrap_err(),
        IndexError::OutOfBounds
    );
}
