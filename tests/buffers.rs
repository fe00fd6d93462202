use dim_screen::alpha::{fade_alpha, Alpha};
use dim_screen::buffer::{BufferManager, BufferType, Rgba, SetupError};

const HALF: u32 = 2147483647;

#[test]
fn single_pixel_buffer_carries_full_range_alpha() {
    let b = BufferManager::SinglePixel.get_buffer(Alpha::from_level(123456789));
    assert_eq!(b, BufferType::Wl(Rgba { r: 0, g: 0, b: 0, a: 123456789 }));
}

#[test]
fn shm_buffer_is_black_with_truncated_alpha_byte() {
    assert_eq!(BufferManager::Shm.get_buffer(Alpha::opaque()), BufferType::Shared([0, 0, 0, 255]));
    assert_eq!(BufferManager::Shm.get_buffer(Alpha::transparent()), BufferType::Shared([0, 0, 0, 0]));
    // floor(0.5 * 255) = 127
    assert_eq!(BufferManager::Shm.get_buffer(Alpha::from_level(HALF)), BufferType::Shared([0, 0, 0, 127]));
}

#[test]
fn buffer_alpha_bounds_on_both_paths() {
    assert_eq!(
        BufferManager::SinglePixel.get_buffer(Alpha::transparent()),
        BufferType::Wl(Rgba { r: 0, g: 0, b: 0, a: 0 })
    );
    assert_eq!(
        BufferManager::SinglePixel.get_buffer(Alpha::opaque()),
        BufferType::Wl(Rgba { r: 0, g: 0, b: 0, a: u32::MAX })
    );
}

#[test]
fn shm_alpha_byte_is_monotone() {
    let mut last = 0u8;
    let mut level: u64 = 0;
    while level <= u32::MAX as u64 {
        let a = Alpha::from_level(level as u32);
        match BufferManager::Shm.get_buffer(a) {
            BufferType::Shared(px) => {
                assert!(px[3] >= last);
                assert_eq!(px[3], a.to_byte());
                last = px[3];
            }
            other => panic!("unexpected buffer {:?}", other),
        }
        level += 16_777_259;
    }
}

#[test]
fn paint_writes_black_pixel_and_keeps_the_rest() {
    let mut canvas = [9u8, 9, 9, 9, 7, 7];
    BufferManager::paint(&mut canvas, Alpha::opaque());
    assert_eq!(canvas, [0, 0, 0, 255, 7, 7]);
    BufferManager::paint(&mut canvas, Alpha::from_level(HALF));
    assert_eq!(canvas, [0, 0, 0, 127, 7, 7]);
}

#[test]
fn select_prefers_single_pixel_then_shm() {
    assert_eq!(BufferManager::select(true, true), Ok(BufferManager::SinglePixel));
    assert_eq!(BufferManager::select(true, false), Ok(BufferManager::SinglePixel));
    assert_eq!(BufferManager::select(false, true), Ok(BufferManager::Shm));
}

#[test]
fn select_without_any_mechanism_fails() {
    assert_eq!(BufferManager::select(false, false), Err(SetupError::NoBufferMechanism));
}

#[test]
fn fade_alpha_is_linear_and_clamped() {
    let target = Alpha::from_level(HALF);
    assert_eq!(fade_alpha(target, 0, 2000).level, 0);
    assert_eq!(fade_alpha(target, 1000, 2000).level, 1073741823);
    assert_eq!(fade_alpha(target, 2000, 2000).level, HALF);
    assert_eq!(fade_alpha(target, 5000, 2000).level, HALF);
    assert_eq!(fade_alpha(target, 0, 0).level, HALF);
    assert_eq!(fade_alpha(Alpha::opaque(), u64::MAX - 1, u64::MAX).level, u32::MAX - 1);
}

#[test]
fn fade_alpha_never_decreases() {
    let target = Alpha::from_level(3_000_000_000);
    let mut last = 0u32;
    for e in 0..=2100u64 {
        let a = fade_alpha(target, e, 2000).level;
        assert!(a >= last && a <= target.level);
        last = a;
    }
}

#[test]
fn alpha_byte_and_opacity() {
    assert_eq!(Alpha::opaque().to_byte(), 255);
    assert_eq!(Alpha::transparent().to_byte(), 0);
    assert!(Alpha::opaque().is_opaque());
    assert!(!Alpha::from_level(HALF).is_opaque());
}
