use obito::surface::frame_outcome;
use obito::surface::SurfaceExtent;
use obito::surface::SurfaceStatus;

#[test]
fn new_extent_keeps_a_positive_window_size() {
    let e = SurfaceExtent::new(1280, 720);
    assert_eq!((e.width(), e.height()), (1280, 720));
}

#[test]
fn new_extent_raises_empty_sides_to_one_pixel() {
    let e = SurfaceExtent::new(0, 0);
    assert_eq!((e.width(), e.height()), (1, 1));
    let e = SurfaceExtent::new(800, 0);
    assert_eq!((e.width(), e.height()), (800, 1));
    let e = SurfaceExtent::new(0, 600);
    assert_eq!((e.width(), e.height()), (1, 600));
}

#[test]
fn resize_takes_a_size_without_empty_side() {
    let mut e = SurfaceExtent::new(1280, 720);
    assert!(e.resize(640, 480));
    assert_eq!((e.width(), e.height()), (640, 480));
}

#[test]
fn resize_ignores_a_size_with_an_empty_side() {
    let mut e = SurfaceExtent::new(1280, 720);
    assert!(!e.resize(0, 480));
    assert_eq!((e.width(), e.height()), (1280, 720));
    assert!(!e.resize(640, 0));
    assert_eq!((e.width(), e.height()), (1280, 720));
    assert!(!e.resize(0, 0));
    assert_eq!((e.width(), e.height()), (1280, 720));
}

#[test]
fn resize_twice_to_one_size_is_resize_once() {
    let mut a = SurfaceExtent::new(10, 10);
    let mut b = SurfaceExtent::new(10, 10);
    a.resize(300, 200);
    b.resize(300, 200);
    b.resize(300, 200);
    assert_eq!((a.width(), a.height()), (b.width(), b.height()));
}

#[test]
fn resize_to_the_largest_size() {
    let mut e = SurfaceExtent::new(1, 1);
    assert!(e.resize(u32::MAX, u32::MAX));
    assert_eq!((e.width(), e.height()), (u32::MAX, u32::MAX));
}

#[test]
fn frame_is_drawn_only_on_success() {
    assert_eq!(frame_outcome(SurfaceStatus::Success), Ok(()));
}

#[test]
fn frame_errors_carry_their_messages() {
    assert_eq!(frame_outcome(SurfaceStatus::Timeout), Err("Surface timeout".to_string()));
    assert_eq!(frame_outcome(SurfaceStatus::Outdated), Err("Surface outdated".to_string()));
    assert_eq!(frame_outcome(SurfaceStatus::Lost), Err("Surface lost".to_string()));
    assert_eq!(frame_outcome(SurfaceStatus::Suboptimal), Err("Surface error occurred".to_string()));
    assert_eq!(frame_outcome(SurfaceStatus::Occluded), Err("Surface error occurred".to_string()));
    assert_eq!(frame_outcome(SurfaceStatus::Validation), Err("Surface error occurred".to_string()));
}
