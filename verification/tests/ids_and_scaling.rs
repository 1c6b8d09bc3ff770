use tdf::image_id::{dynamic_image_id, ID_BASE_LIMIT};
use tdf::{image_id_base, scale_axis, FitOrFill, PrerenderLimit, ScaleAxis};

#[test]
fn image_id_base_values() {
    assert_eq!(image_id_base(1, 0), 9797421);
    assert_eq!(image_id_base(0, 0), 1);
    assert_eq!(image_id_base(12345, 1_700_000_000_123_456_789), 10980890);
    // the time only counts modulo 2^64
    assert_eq!(image_id_base(4242, (1u128 << 64) + 7), 3495857);
    assert_eq!(image_id_base(4242, 7), 3495857);
}

#[test]
fn image_id_base_range() {
    for pid in [0u32, 1, 2, 77, 65535, u32::MAX] {
        for nanos in [0u128, 1, 999, 1 << 40, u128::MAX] {
            let b = image_id_base(pid, nanos);
            assert!(b >= 1 && b < ID_BASE_LIMIT);
            assert!(b + 0xFFF < 0x100_0000);
        }
    }
}

#[test]
fn dynamic_ids() {
    assert_eq!(dynamic_image_id(10, 3), 13);
    assert_eq!(dynamic_image_id(u32::MAX - 1, 5), u32::MAX);
    assert_eq!(dynamic_image_id(1, 0), 1);
    // the page number counts modulo 2^32
    assert_eq!(dynamic_image_id(1, ((1u64 << 32) + 2) as usize), 3);
}

#[test]
fn scale_axes() {
    assert_eq!(scale_axis(true, FitOrFill::Fit), ScaleAxis::Width);
    assert_eq!(scale_axis(false, FitOrFill::Fill), ScaleAxis::Width);
    assert_eq!(scale_axis(false, FitOrFill::Fit), ScaleAxis::Height);
    assert_eq!(scale_axis(true, FitOrFill::Fill), ScaleAxis::Height);
}

#[test]
fn prerender_limits_compare() {
    assert!(PrerenderLimit::All == PrerenderLimit::All);
    assert!(PrerenderLimit::Limited(3) != PrerenderLimit::All);
    assert!(PrerenderLimit::Limited(3) == PrerenderLimit::Limited(3));
}
