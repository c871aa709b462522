use scene_render::camera_controller::{movement_key, MovementKey, MovementKeys};
use scene_render::frame_loop::Key;
use scene_render::skybox::{get_skybox_path, SkyboxBackground, SkyboxHDREnvironment};
use scene_render::texture::checkerboard_rgba;

#[test]
fn skybox_is_the_newport_loft_panorama() {
    let (background, environment) = get_skybox_path();
    assert_eq!(
        background,
        SkyboxBackground::Equirectangular { image_path: "./src/textures/newport_loft/background.jpg" }
    );
    assert_eq!(
        environment,
        Some(SkyboxHDREnvironment::Equirectangular {
            image_path: "./src/textures/newport_loft/radiance.hdr"
        })
    );
}

#[test]
fn checkerboard_alternates_squares() {
    let w = 4u32;
    let bytes = checkerboard_rgba(w, 3, 2);
    assert_eq!(bytes.len(), 4 * 3 * 4);
    let level = |x: u32, y: u32| bytes[((y * w + x) * 4) as usize];
    assert_eq!(level(0, 0), 100);
    assert_eq!(level(1, 1), 100);
    assert_eq!(level(2, 0), 150);
    assert_eq!(level(0, 2), 150);
    assert_eq!(level(3, 2), 100);
    assert_eq!(&bytes[8..12], &[150, 150, 150, 150]);
    assert!(checkerboard_rgba(0, 5, 10).is_empty());
}

#[test]
fn movement_keys_hold_their_state() {
    assert_eq!(movement_key(Key::W), Some(MovementKey::Forward));
    assert_eq!(movement_key(Key::Down), Some(MovementKey::Backward));
    assert_eq!(movement_key(Key::A), Some(MovementKey::Left));
    assert_eq!(movement_key(Key::Right), Some(MovementKey::Right));
    assert_eq!(movement_key(Key::Space), Some(MovementKey::Up));
    assert_eq!(movement_key(Key::LControl), Some(MovementKey::Down));
    assert_eq!(movement_key(Key::Z), None);

    let mut keys = MovementKeys::new();
    assert_eq!(keys.axes(), (0, 0, 0));
    keys.set(MovementKey::Backward, true);
    keys.set(MovementKey::Left, true);
    assert_eq!(keys.axes(), (-1, -1, 0));
    keys.set(MovementKey::Forward, true);
    assert_eq!(keys.axes(), (1, -1, 0));
    keys.set(MovementKey::Forward, false);
    keys.set(MovementKey::Down, true);
    assert_eq!(keys.axes(), (-1, -1, -1));
}
