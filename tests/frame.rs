use v_frame::frame::BufferMismatch;
use v_frame::frame::Frame;
use v_frame::math::align_power_of_two;
use v_frame::pixel::ChromaSampling;
use v_frame::plane::Plane;

fn dims<T: v_frame::pixel::Pixel>(p: &Plane<T>) -> (usize, usize, usize, usize, usize, usize) {
    (p.cfg.width, p.cfg.height, p.cfg.xdec, p.cfg.ydec, p.cfg.xpad, p.cfg.ypad)
}

#[test]
fn align_power_of_two_values() {
    assert_eq!(align_power_of_two(0, 3), 0);
    assert_eq!(align_power_of_two(1, 3), 8);
    assert_eq!(align_power_of_two(7, 3), 8);
    assert_eq!(align_power_of_two(8, 3), 8);
    assert_eq!(align_power_of_two(9, 3), 16);
    assert_eq!(align_power_of_two(100, 3), 104);
    assert_eq!(align_power_of_two(5, 0), 5);
    assert_eq!(align_power_of_two(17, 4), 32);
}

#[test]
fn decimation_per_format() {
    assert_eq!(ChromaSampling::Cs420.get_decimation(), Some((1, 1)));
    assert_eq!(ChromaSampling::Cs422.get_decimation(), Some((1, 0)));
    assert_eq!(ChromaSampling::Cs444.get_decimation(), Some((0, 0)));
    assert_eq!(ChromaSampling::Cs400.get_decimation(), None);
}

#[test]
fn chroma_dimensions_round_up() {
    assert_eq!(ChromaSampling::Cs420.get_chroma_dimensions(5, 3), (3, 2));
    assert_eq!(ChromaSampling::Cs420.get_chroma_dimensions(104, 104), (52, 52));
    assert_eq!(ChromaSampling::Cs422.get_chroma_dimensions(5, 3), (3, 3));
    assert_eq!(ChromaSampling::Cs444.get_chroma_dimensions(5, 3), (5, 3));
    assert_eq!(ChromaSampling::Cs400.get_chroma_dimensions(5, 3), (0, 0));
    assert_eq!(ChromaSampling::Cs420.get_chroma_dimensions(usize::MAX, 1), (usize::MAX / 2 + 1, 1));
}

#[test]
fn allocating_420_example() {
    let f = Frame::<u8>::new_with_padding(100, 100, ChromaSampling::Cs420, 32);
    assert_eq!(dims(&f.planes[0]), (104, 104, 0, 0, 32, 32));
    assert_eq!(dims(&f.planes[1]), (52, 52, 1, 1, 16, 16));
    assert_eq!(dims(&f.planes[2]), (52, 52, 1, 1, 16, 16));
    assert_eq!(f.planes[0].data().len(), 168 * 168);
    assert_eq!(f.planes[1].data().len(), 84 * 84);
    assert_eq!(f.planes[2].data().len(), 84 * 84);
}

#[test]
fn allocating_luma_is_smallest_multiple_of_eight() {
    for &(w, h, lw, lh) in &[(0usize, 0usize, 0usize, 0usize), (1, 7, 8, 8), (8, 9, 8, 16), (15, 16, 16, 16), (33, 65, 40, 72)] {
        for cs in [ChromaSampling::Cs420, ChromaSampling::Cs422, ChromaSampling::Cs444] {
            let f = Frame::<u8>::new_with_padding(w, h, cs, 0);
            assert_eq!((f.planes[0].cfg.width, f.planes[0].cfg.height), (lw, lh));
        }
    }
}

#[test]
fn allocating_444_chroma_equals_luma() {
    let f = Frame::<u8>::new_with_padding(33, 17, ChromaSampling::Cs444, 8);
    assert_eq!(dims(&f.planes[0]), (40, 24, 0, 0, 8, 8));
    assert_eq!(dims(&f.planes[1]), (40, 24, 0, 0, 8, 8));
    assert_eq!(dims(&f.planes[2]), (40, 24, 0, 0, 8, 8));
}

#[test]
fn allocating_420_halves_aligned_luma() {
    let f = Frame::<u8>::new_with_padding(101, 57, ChromaSampling::Cs420, 7);
    assert_eq!(dims(&f.planes[0]), (104, 64, 0, 0, 7, 7));
    assert_eq!(dims(&f.planes[1]), (52, 32, 1, 1, 3, 3));
    assert_eq!(dims(&f.planes[2]), (52, 32, 1, 1, 3, 3));
}

#[test]
fn allocating_422_halves_width_only() {
    let f = Frame::<u8>::new_with_padding(50, 30, ChromaSampling::Cs422, 10);
    assert_eq!(dims(&f.planes[0]), (56, 32, 0, 0, 10, 10));
    assert_eq!(dims(&f.planes[1]), (28, 32, 1, 0, 5, 10));
    assert_eq!(dims(&f.planes[2]), (28, 32, 1, 0, 5, 10));
}

#[test]
fn allocating_400_chroma_is_empty() {
    let f = Frame::<u8>::new_with_padding(1920, 1080, ChromaSampling::Cs400, 0);
    assert_eq!(dims(&f.planes[0]), (1920, 1080, 0, 0, 0, 0));
    assert_eq!(dims(&f.planes[1]), (0, 0, 0, 0, 0, 0));
    assert_eq!(dims(&f.planes[2]), (0, 0, 0, 0, 0, 0));
    assert_eq!(f.planes[1].data().len(), 0);
    assert_eq!(f.planes[2].data().len(), 0);
}

#[test]
fn allocating_400_chroma_padding_unshifted() {
    let f = Frame::<u8>::new_with_padding(3, 3, ChromaSampling::Cs400, 4);
    assert_eq!(dims(&f.planes[0]), (8, 8, 0, 0, 4, 4));
    assert_eq!(dims(&f.planes[1]), (0, 0, 0, 0, 4, 4));
    assert_eq!(dims(&f.planes[2]), (0, 0, 0, 0, 4, 4));
}

#[test]
fn allocating_wide_samples_double_storage() {
    let f = Frame::<u16>::new_with_padding(8, 8, ChromaSampling::Cs420, 2);
    assert_eq!(f.planes[0].data().len(), 12 * 12 * 2);
    assert_eq!(f.planes[1].data().len(), 6 * 6 * 2);
}

#[test]
fn plane_new_empty() {
    let p = Plane::<u8>::new(0, 0, 0, 0, 0, 0);
    assert_eq!(dims(&p), (0, 0, 0, 0, 0, 0));
    assert_eq!(p.data().len(), 0);
}

#[test]
fn zerocopy_exact_buffers() {
    let luma: Vec<u8> = (0..12u8).collect();
    let data = [luma, vec![7u8; 4], vec![9u8; 4]];
    assert_eq!(Frame::<u8>::zerocopy_mismatch(&data, 4, 3, ChromaSampling::Cs420), None);
    let f = Frame::<u8>::new_zerocopy(data, 4, 3, ChromaSampling::Cs420);
    assert_eq!(dims(&f.planes[0]), (4, 3, 0, 0, 0, 0));
    assert_eq!((f.planes[1].cfg.width, f.planes[1].cfg.height), (2, 2));
    assert_eq!((f.planes[2].cfg.width, f.planes[2].cfg.height), (2, 2));
    assert_eq!(f.planes[0].data()[5], 5);
    assert_eq!(f.planes[1].data(), &[7u8, 7, 7, 7][..]);
    assert_eq!(f.planes[2].data(), &[9u8, 9, 9, 9][..]);
}

#[test]
fn zerocopy_short_luma_is_reported() {
    let data = [vec![0u8; 11], vec![0u8; 4], vec![0u8; 4]];
    assert_eq!(
        Frame::<u8>::zerocopy_mismatch(&data, 4, 3, ChromaSampling::Cs420),
        Some(BufferMismatch { plane: 0, expected: Some(12), actual: 11 })
    );
}

#[test]
fn zerocopy_wrong_chroma_is_reported() {
    let data = [vec![0u8; 12], vec![0u8; 4], vec![0u8; 5]];
    assert_eq!(
        Frame::<u8>::zerocopy_mismatch(&data, 4, 3, ChromaSampling::Cs420),
        Some(BufferMismatch { plane: 2, expected: Some(4), actual: 5 })
    );
    let data = [vec![0u8; 12], vec![0u8; 6], vec![0u8; 6]];
    assert_eq!(
        Frame::<u8>::zerocopy_mismatch(&data, 4, 3, ChromaSampling::Cs444),
        Some(BufferMismatch { plane: 1, expected: Some(12), actual: 6 })
    );
}

#[test]
fn zerocopy_monochrome_ignores_chroma() {
    let data = [vec![1u8; 12], Vec::new(), vec![0u8; 3]];
    assert_eq!(Frame::<u8>::zerocopy_mismatch(&data, 4, 3, ChromaSampling::Cs400), None);
    let f = Frame::<u8>::new_zerocopy(data, 4, 3, ChromaSampling::Cs400);
    assert_eq!(dims(&f.planes[0]), (4, 3, 0, 0, 0, 0));
    assert_eq!(dims(&f.planes[1]), (0, 0, 0, 0, 0, 0));
    assert_eq!(dims(&f.planes[2]), (0, 0, 0, 0, 0, 0));
    assert_eq!(f.planes[1].data().len(), 0);
}

#[test]
fn zerocopy_wide_samples() {
    let data = [vec![0u8; 24], vec![0u8; 8], vec![0u8; 8]];
    assert_eq!(Frame::<u16>::zerocopy_mismatch(&data, 4, 3, ChromaSampling::Cs420), None);
    assert_eq!(
        Frame::<u8>::zerocopy_mismatch(&data, 4, 3, ChromaSampling::Cs420),
        Some(BufferMismatch { plane: 0, expected: Some(12), actual: 24 })
    );
    let f = Frame::<u16>::new_zerocopy(data, 4, 3, ChromaSampling::Cs420);
    assert_eq!((f.planes[0].cfg.width, f.planes[0].cfg.height), (4, 3));
}

#[test]
fn zerocopy_oversized_geometry_is_reported() {
    let data = [vec![0u8; 3], Vec::new(), Vec::new()];
    assert_eq!(
        Frame::<u16>::zerocopy_mismatch(&data, usize::MAX, 1, ChromaSampling::Cs400),
        Some(BufferMismatch { plane: 0, expected: None, actual: 3 })
    );
}
