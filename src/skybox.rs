//! Where the skybox and its environment lighting come from.
use vstd::prelude::*;

verus! {

/// Where the skybox background comes from.
#[derive(Clone, Copy, Debug, PartialEq, Eq)]
pub enum SkyboxBackground<'a> {
    /// Six face images, in cube-face order (+X, -X, +Y, -Y, +Z, -Z).
    Cube { face_image_paths: [&'a str; 6] },
    /// One equirectangular panorama.
    Equirectangular { image_path: &'a str },
}

/// Where the environment radiance for image-based lighting comes from.
#[derive(Clone, Copy, Debug, PartialEq, Eq)]
pub enum SkyboxHDREnvironment<'a> {
    Equirectangular { image_path: &'a str },
}

/// The skybox of the scene: the Newport Loft panorama as background and its
/// radiance map as HDR environment.
pub fn get_skybox_path() -> (r: (SkyboxBackground<'static>, Option<SkyboxHDREnvironment<'static>>))
    ensures
        r.0 matches SkyboxBackground::Equirectangular { image_path } && image_path@
            == "./src/textures/newport_loft/background.jpg"@,
        r.1 matches Some(SkyboxHDREnvironment::Equirectangular { image_path }) && image_path@
            == "./src/textures/newport_loft/radiance.hdr"@,
{
    let background = SkyboxBackground::Equirectangular {
        image_path: "./src/textures/newport_loft/background.jpg",
    };
    let environment = Some(
        SkyboxHDREnvironment::Equirectangular {
            image_path: "./src/textures/newport_loft/radiance.hdr",
        },
    );
    (background, environment)
}

} // verus!
