use wgpu::TextureFormat;
use wgpu_shell::{choose_format_index, SurfaceConfig, SurfaceSize, SurfaceState};

#[test]
fn new_state_is_not_configured() {
    let s = SurfaceState::new(1, 800, 600);
    assert_eq!(s.config, SurfaceConfig { format_index: 1, width: 800, height: 600 });
    assert!(!s.is_surface_configured);
}

#[test]
fn resize_twice_is_idempotent() {
    let mut s = SurfaceState::new(0, 800, 600);
    assert!(s.resize(1024, 768));
    let once = s;
    assert!(s.resize(1024, 768));
    assert_eq!(s, once);
    assert_eq!(s.config.width, 1024);
    assert_eq!(s.config.height, 768);
    assert!(s.is_surface_configured);
    assert_eq!(s.size(), SurfaceSize { width: 1024, height: 768 });
}

#[test]
fn zero_size_resize_changes_nothing() {
    let mut s = SurfaceState::new(2, 640, 480);
    let before = s;
    assert!(!s.resize(0, 480));
    assert!(!s.resize(640, 0));
    assert!(!s.resize(0, 0));
    assert_eq!(s, before);
    assert!(!s.is_surface_configured);

    assert!(s.resize(320, 200));
    let configured = s;
    assert!(!s.resize(0, 100));
    assert_eq!(s, configured);
    assert!(s.is_surface_configured);
}

#[test]
fn resize_keeps_format() {
    let mut s = SurfaceState::new(3, 10, 10);
    s.resize(u32::MAX, 1);
    assert_eq!(s.config, SurfaceConfig { format_index: 3, width: u32::MAX, height: 1 });
}

#[test]
fn format_prefers_first_srgb() {
    assert_eq!(choose_format_index(&vec![false, false, true, true]), Some(2));
    assert_eq!(choose_format_index(&vec![true, false]), Some(0));
}

#[test]
fn format_falls_back_to_first() {
    assert_eq!(choose_format_index(&vec![false, false, false]), Some(0));
}

#[test]
fn format_none_when_nothing_reported() {
    assert_eq!(choose_format_index(&vec![]), None);
}

#[test]
fn surface_format_prefers_srgb() {
    let formats = vec![
        TextureFormat::Rgba8Unorm,
        TextureFormat::Bgra8UnormSrgb,
        TextureFormat::Rgba8UnormSrgb,
    ];
    assert_eq!(wgpu_shell::choose_surface_format(&formats), Some(1));
}

#[test]
fn surface_format_without_srgb_takes_first() {
    let formats = vec![TextureFormat::Bgra8Unorm, TextureFormat::Rgba8Unorm];
    assert_eq!(wgpu_shell::choose_surface_format(&formats), Some(0));
    assert_eq!(wgpu_shell::choose_surface_format(&vec![]), None);
}
