//! A scene-and-render core: scene graph, keyframe animation, skinning,
//! cube-map cameras, asset binding and frame planning, with contracts proved
//! by Verus.

pub mod animation;
pub mod binder;
pub mod camera;
pub mod camera_controller;
pub mod frame_loop;
pub mod render_scene;
pub mod renderer;
pub mod scene;
pub mod skinning;
pub mod skybox;
pub mod texture;
