//! The frame renderer: runtime settings, the bloom ramp, sized attachments
//! and the fixed order of passes in a frame.
use vstd::prelude::*;
use crate::camera::{CubeFace, cube_face_order};

verus! {

/// Fixed-point unit of the runtime settings: a setting of 1000 means 1.0.
pub const UNIT_MILLI: u32 = 1000;

pub const INITIAL_RENDER_SCALE_MILLI: u32 = 1000;
pub const INITIAL_TONE_MAPPING_EXPOSURE_MILLI: u32 = 500;
pub const INITIAL_BLOOM_THRESHOLD_MILLI: u32 = 800;
pub const INITIAL_BLOOM_RAMP_SIZE_MILLI: u32 = 200;

pub const RENDER_SCALE_STEP_MILLI: u32 = 100;
pub const MIN_RENDER_SCALE_MILLI: u32 = 100;
pub const MAX_RENDER_SCALE_MILLI: u32 = 4000;

pub const EXPOSURE_STEP_MILLI: u32 = 50;
pub const MIN_EXPOSURE_MILLI: u32 = 50;
pub const MAX_EXPOSURE_MILLI: u32 = 20000;

pub const BLOOM_THRESHOLD_STEP_MILLI: u32 = 50;
pub const MIN_BLOOM_THRESHOLD_MILLI: u32 = 0;
pub const MAX_BLOOM_THRESHOLD_MILLI: u32 = 20000;

pub const MIN_BLOOM_RAMP_SIZE_MILLI: u32 = 10;
pub const MAX_BLOOM_RAMP_SIZE_MILLI: u32 = 10000;

/// Full bloom contribution.
pub const FULL_BLOOM_MILLI: u32 = 1000;

/// The renderer's runtime-tunable parameters, in thousandths, each kept
/// within its safe range. Passed explicitly into each frame.
#[derive(Clone, Copy, Debug, PartialEq, Eq, Structural)]
pub struct RenderSettings {
    pub render_scale_milli: u32,
    pub exposure_milli: u32,
    pub bloom_threshold_milli: u32,
    pub bloom_ramp_size_milli: u32,
    pub animations_enabled: bool,
}

/// A change of the settings asked for by input handling.
#[derive(Clone, Copy, Debug, PartialEq, Eq, Structural)]
pub enum RendererCommand {
    DecreaseRenderScale,
    IncreaseRenderScale,
    DecreaseExposure,
    IncreaseExposure,
    DecreaseBloomThreshold,
    IncreaseBloomThreshold,
    ToggleAnimations,
}

pub open spec fn clamp_spec(v: int, lo: int, hi: int) -> int {
    if v < lo {
        lo
    } else if v > hi {
        hi
    } else {
        v
    }
}

/// `value` moved one `step` up or down, then clamped into `[lo, hi]`.
pub open spec fn stepped(value: u32, step: u32, increase: bool, lo: u32, hi: u32) -> u32 {
    (if increase {
        clamp_spec(value + step, lo as int, hi as int)
    } else {
        clamp_spec(value - step, lo as int, hi as int)
    }) as u32
}

fn clamp_u32(v: u32, lo: u32, hi: u32) -> (r: u32)
    requires
        lo <= hi,
    ensures
        r == clamp_spec(v as int, lo as int, hi as int),
{
    if v < lo {
        lo
    } else if v > hi {
        hi
    } else {
        v
    }
}

fn step_u32(value: u32, step: u32, increase: bool, lo: u32, hi: u32) -> (r: u32)
    requires
        lo <= hi,
        hi as int + step as int <= u32::MAX,
        value <= hi,
    ensures
        r == stepped(value, step, increase, lo, hi),
{
    if increase {
        clamp_u32(value + step, lo, hi)
    } else if value < step {
        lo
    } else {
        clamp_u32(value - step, lo, hi)
    }
}

impl RenderSettings {
    pub open spec fn wf(&self) -> bool {
        &&& MIN_RENDER_SCALE_MILLI <= self.render_scale_milli <= MAX_RENDER_SCALE_MILLI
        &&& MIN_EXPOSURE_MILLI <= self.exposure_milli <= MAX_EXPOSURE_MILLI
        &&& MIN_BLOOM_THRESHOLD_MILLI <= self.bloom_threshold_milli <= MAX_BLOOM_THRESHOLD_MILLI
        &&& MIN_BLOOM_RAMP_SIZE_MILLI <= self.bloom_ramp_size_milli <= MAX_BLOOM_RAMP_SIZE_MILLI
    }

    /// The settings a renderer starts with: full render scale, exposure 0.5,
    /// bloom from luminance 0.8 over a ramp of 0.2, animations playing.
    pub fn new() -> (r: Self)
        ensures
            r.wf(),
            r.render_scale_milli == INITIAL_RENDER_SCALE_MILLI,
            r.exposure_milli == INITIAL_TONE_MAPPING_EXPOSURE_MILLI,
            r.bloom_threshold_milli == INITIAL_BLOOM_THRESHOLD_MILLI,
            r.bloom_ramp_size_milli == INITIAL_BLOOM_RAMP_SIZE_MILLI,
            r.animations_enabled,
    {
        RenderSettings {
            render_scale_milli: INITIAL_RENDER_SCALE_MILLI,
            exposure_milli: INITIAL_TONE_MAPPING_EXPOSURE_MILLI,
            bloom_threshold_milli: INITIAL_BLOOM_THRESHOLD_MILLI,
            bloom_ramp_size_milli: INITIAL_BLOOM_RAMP_SIZE_MILLI,
            animations_enabled: true,
        }
    }

    /// One step of render scale up or down, clamped to its range.
    pub fn increment_render_scale(&mut self, increase: bool)
        requires
            old(self).wf(),
        ensures
            final(self).wf(),
            *final(self) == (RenderSettings {
                render_scale_milli: stepped(
                    old(self).render_scale_milli,
                    RENDER_SCALE_STEP_MILLI,
                    increase,
                    MIN_RENDER_SCALE_MILLI,
                    MAX_RENDER_SCALE_MILLI,
                ),
                ..*old(self)
            }),
    {
        self.render_scale_milli = step_u32(
            self.render_scale_milli,
            RENDER_SCALE_STEP_MILLI,
            increase,
            MIN_RENDER_SCALE_MILLI,
            MAX_RENDER_SCALE_MILLI,
        );
    }

    /// One step of exposure up or down, clamped to its range.
    pub fn increment_exposure(&mut self, increase: bool)
        requires
            old(self).wf(),
        ensures
            final(self).wf(),
            *final(self) == (RenderSettings {
                exposure_milli: stepped(
                    old(self).exposure_milli,
                    EXPOSURE_STEP_MILLI,
                    increase,
                    MIN_EXPOSURE_MILLI,
                    MAX_EXPOSURE_MILLI,
                ),
                ..*old(self)
            }),
    {
        self.exposure_milli = step_u32(
            self.exposure_milli,
            EXPOSURE_STEP_MILLI,
            increase,
            MIN_EXPOSURE_MILLI,
            MAX_EXPOSURE_MILLI,
        );
    }

    /// One step of bloom threshold up or down, clamped to its range.
    pub fn increment_bloom_threshold(&mut self, increase: bool)
        requires
            old(self).wf(),
        ensures
            final(self).wf(),
            *final(self) == (RenderSettings {
                bloom_threshold_milli: stepped(
                    old(self).bloom_threshold_milli,
                    BLOOM_THRESHOLD_STEP_MILLI,
                    increase,
                    MIN_BLOOM_THRESHOLD_MILLI,
                    MAX_BLOOM_THRESHOLD_MILLI,
                ),
                ..*old(self)
            }),
    {
        self.bloom_threshold_milli = step_u32(
            self.bloom_threshold_milli,
            BLOOM_THRESHOLD_STEP_MILLI,
            increase,
            MIN_BLOOM_THRESHOLD_MILLI,
            MAX_BLOOM_THRESHOLD_MILLI,
        );
    }

    /// Sets the bloom ramp width, clamped to its range.
    pub fn set_bloom_ramp_size(&mut self, ramp_milli: u32)
        requires
            old(self).wf(),
        ensures
            final(self).wf(),
            *final(self) == (RenderSettings {
                bloom_ramp_size_milli: clamp_spec(
                    ramp_milli as int,
                    MIN_BLOOM_RAMP_SIZE_MILLI as int,
                    MAX_BLOOM_RAMP_SIZE_MILLI as int,
                ) as u32,
                ..*old(self)
            }),
    {
        self.bloom_ramp_size_milli = clamp_u32(
            ramp_milli,
            MIN_BLOOM_RAMP_SIZE_MILLI,
            MAX_BLOOM_RAMP_SIZE_MILLI,
        );
    }

    /// Switches animation playback on or off.
    pub fn toggle_animations(&mut self)
        ensures
            *final(self) == (RenderSettings {
                animations_enabled: !old(self).animations_enabled,
                ..*old(self)
            }),
    {
        self.animations_enabled = !self.animations_enabled;
    }

    /// Applies one command from input handling.
    pub fn apply(&mut self, command: RendererCommand)
        requires
            old(self).wf(),
        ensures
            final(self).wf(),
            *final(self) == apply_spec(*old(self), command),
    {
        match command {
            RendererCommand::DecreaseRenderScale => self.increment_render_scale(false),
            RendererCommand::IncreaseRenderScale => self.increment_render_scale(true),
            RendererCommand::DecreaseExposure => self.increment_exposure(false),
            RendererCommand::IncreaseExposure => self.increment_exposure(true),
            RendererCommand::DecreaseBloomThreshold => self.increment_bloom_threshold(false),
            RendererCommand::IncreaseBloomThreshold => self.increment_bloom_threshold(true),
            RendererCommand::ToggleAnimations => self.toggle_animations(),
        }
    }
}

/// The settings after one command.
pub open spec fn apply_spec(s: RenderSettings, command: RendererCommand) -> RenderSettings {
    match command {
        RendererCommand::DecreaseRenderScale => RenderSettings {
            render_scale_milli: stepped(
                s.render_scale_milli,
                RENDER_SCALE_STEP_MILLI,
                false,
                MIN_RENDER_SCALE_MILLI,
                MAX_RENDER_SCALE_MILLI,
            ),
            ..s
        },
        RendererCommand::IncreaseRenderScale => RenderSettings {
            render_scale_milli: stepped(
                s.render_scale_milli,
                RENDER_SCALE_STEP_MILLI,
                true,
                MIN_RENDER_SCALE_MILLI,
                MAX_RENDER_SCALE_MILLI,
            ),
            ..s
        },
        RendererCommand::DecreaseExposure => RenderSettings {
            exposure_milli: stepped(
                s.exposure_milli,
                EXPOSURE_STEP_MILLI,
                false,
                MIN_EXPOSURE_MILLI,
                MAX_EXPOSURE_MILLI,
            ),
            ..s
        },
        RendererCommand::IncreaseExposure => RenderSettings {
            exposure_milli: stepped(
                s.exposure_milli,
                EXPOSURE_STEP_MILLI,
                true,
                MIN_EXPOSURE_MILLI,
                MAX_EXPOSURE_MILLI,
            ),
            ..s
        },
        RendererCommand::DecreaseBloomThreshold => RenderSettings {
            bloom_threshold_milli: stepped(
                s.bloom_threshold_milli,
                BLOOM_THRESHOLD_STEP_MILLI,
                false,
                MIN_BLOOM_THRESHOLD_MILLI,
                MAX_BLOOM_THRESHOLD_MILLI,
            ),
            ..s
        },
        RendererCommand::IncreaseBloomThreshold => RenderSettings {
            bloom_threshold_milli: stepped(
                s.bloom_threshold_milli,
                BLOOM_THRESHOLD_STEP_MILLI,
                true,
                MIN_BLOOM_THRESHOLD_MILLI,
                MAX_BLOOM_THRESHOLD_MILLI,
            ),
            ..s
        },
        RendererCommand::ToggleAnimations => RenderSettings {
            animations_enabled: !s.animations_enabled,
            ..s
        },
    }
}

/// Bloom contribution, in thousandths, of a pixel of luminance `lum`: none
/// up to `threshold`, full from `threshold + ramp`, and rising linearly
/// (rounded down) in between. All values in thousandths.
pub open spec fn bloom_contribution_spec(lum: int, threshold: int, ramp: int) -> int {
    if lum <= threshold {
        0
    } else if lum >= threshold + ramp {
        FULL_BLOOM_MILLI as int
    } else {
        (lum - threshold) * FULL_BLOOM_MILLI as int / ramp
    }
}

/// The bloom contribution of a pixel of luminance `luminance_milli` under
/// the given threshold and ramp width (all in thousandths).
pub fn bloom_contribution(luminance_milli: u32, threshold_milli: u32, ramp_milli: u32) -> (r: u32)
    requires
        ramp_milli > 0,
    ensures
        r == bloom_contribution_spec(
            luminance_milli as int,
            threshold_milli as int,
            ramp_milli as int,
        ),
        r <= FULL_BLOOM_MILLI,
{
    if luminance_milli <= threshold_milli {
        0
    } else if luminance_milli as u64 >= threshold_milli as u64 + ramp_milli as u64 {
        FULL_BLOOM_MILLI
    } else {
        let above = (luminance_milli - threshold_milli) as u64;
        proof {
            assert(above * 1000 < ramp_milli * 1000) by (nonlinear_arith)
                requires above < ramp_milli;
            assert(above * 1000 / (ramp_milli as int) <= 1000) by (nonlinear_arith)
                requires above * 1000 < ramp_milli * 1000, ramp_milli > 0;
        }
        (above * FULL_BLOOM_MILLI as u64 / ramp_milli as u64) as u32
    }
}

/// The bloom ramp: no contribution at the threshold, full contribution at
/// threshold plus ramp, and in between the contribution `c` is linear in the
/// luminance up to rounding down: `c * ramp <= (lum - threshold) * 1000 <
/// (c + 1) * ramp`.
pub proof fn lemma_bloom_ramp(lum: int, threshold: int, ramp: int)
    requires
        ramp > 0,
    ensures
        bloom_contribution_spec(threshold, threshold, ramp) == 0,
        bloom_contribution_spec(threshold + ramp, threshold, ramp) == FULL_BLOOM_MILLI,
        threshold <= lum <= threshold + ramp ==> {
            let c = bloom_contribution_spec(lum, threshold, ramp);
            &&& c * ramp <= (lum - threshold) * 1000
            &&& (lum - threshold) * 1000 < (c + 1) * ramp
        },
{
    if threshold <= lum <= threshold + ramp {
        let c = bloom_contribution_spec(lum, threshold, ramp);
        let x = (lum - threshold) * 1000;
        if lum == threshold + ramp {
            assert(x == ramp * 1000) by (nonlinear_arith)
                requires x == (lum - threshold) * 1000, lum == threshold + ramp;
            assert(c * ramp <= x) by (nonlinear_arith)
                requires c == 1000, x == ramp * 1000;
            assert(x < (c + 1) * ramp) by (nonlinear_arith)
                requires c == 1000, x == ramp * 1000, ramp > 0;
        } else if lum > threshold {
            vstd::arithmetic::div_mod::lemma_fundamental_div_mod(x, ramp);
            vstd::arithmetic::div_mod::lemma_mod_bound(x, ramp);
            assert(c == x / ramp);
            assert(c * ramp <= x) by (nonlinear_arith)
                requires x == ramp * (x / ramp) + x % ramp, x % ramp >= 0, c == x / ramp;
            assert(x < (c + 1) * ramp) by (nonlinear_arith)
                requires x == ramp * (x / ramp) + x % ramp, x % ramp < ramp, c == x / ramp;
        } else {
            assert(c * ramp <= x && x < (c + 1) * ramp) by (nonlinear_arith)
                requires c == 0, x == (lum - threshold) * 1000, lum == threshold, ramp > 0;
        }
    }
}

/// A width and height in pixels.
#[derive(Clone, Copy, Debug, PartialEq, Eq, Structural)]
pub struct Extent {
    pub width: u32,
    pub height: u32,
}

/// One side scaled by a render scale in thousandths, rounded down, at least
/// one pixel (and at most the largest extent a `u32` holds).
pub open spec fn scaled_side(side: u32, scale_milli: u32) -> u32 {
    let s = side * scale_milli / 1000;
    (if s < 1 {
        1
    } else if s > u32::MAX {
        u32::MAX as int
    } else {
        s
    }) as u32
}

/// The internal render resolution for a surface and a render scale.
pub open spec fn render_extent_spec(surface: Extent, scale_milli: u32) -> Extent {
    Extent {
        width: scaled_side(surface.width, scale_milli),
        height: scaled_side(surface.height, scale_milli),
    }
}

fn scale_side(side: u32, scale_milli: u32) -> (r: u32)
    requires
        scale_milli <= MAX_RENDER_SCALE_MILLI,
    ensures
        r == scaled_side(side, scale_milli),
{
    proof {
        assert(side * scale_milli <= 0xffff_ffff * 4000) by (nonlinear_arith)
            requires
                scale_milli <= 4000,
                side <= 0xffff_ffff,
        ;
    }
    let s = side as u64 * scale_milli as u64 / 1000;
    if s < 1 {
        1
    } else if s > u32::MAX as u64 {
        // A scale above one can push a side past the largest extent; such an
        // extent is refused by every device, so this only keeps the type.
        u32::MAX
    } else {
        s as u32
    }
}

/// The surface size and render scale a frame was prepared for.
#[derive(Clone, Copy, Debug, PartialEq, Eq, Structural)]
pub struct PreparedFor {
    pub surface: Extent,
    pub render_scale_milli: u32,
}

/// The sized attachments the renderer currently holds (colour, bloom chain,
/// depth): the surface and scale they were created for, and their extent;
/// `None` before the first frame or after the surface was lost.
#[derive(Clone, Copy, Debug, PartialEq, Eq, Structural)]
pub struct AttachmentState {
    pub prepared: Option<PreparedFor>,
    pub extent: Option<Extent>,
}

/// After preparing a frame for a surface and render scale: the attachments
/// are created for them at the required extent, and they had to be recreated
/// exactly when the surface or the scale differs from the last prepared one.
pub open spec fn prepare_spec(s: AttachmentState, surface: Extent, scale_milli: u32) -> (
    AttachmentState,
    bool,
) {
    let target = PreparedFor { surface, render_scale_milli: scale_milli };
    (
        AttachmentState {
            prepared: Some(target),
            extent: Some(render_extent_spec(surface, scale_milli)),
        },
        s.prepared != Some(target),
    )
}

impl AttachmentState {
    /// No attachments yet.
    pub fn new() -> (r: Self)
        ensures
            r.prepared is None,
            r.extent is None,
    {
        AttachmentState { prepared: None, extent: None }
    }

    /// Forgets the attachments (the surface was lost): the next frame
    /// recreates them.
    pub fn invalidate(&mut self)
        ensures
            final(self).prepared is None,
            final(self).extent is None,
    {
        self.prepared = None;
        self.extent = None;
    }

    /// Brings the attachments to what a frame on `surface` at the current
    /// render scale needs; returns whether they must be recreated (the
    /// caller then recreates every sized attachment before any pass runs).
    pub fn prepare(&mut self, surface: Extent, settings: &RenderSettings) -> (r: bool)
        requires
            settings.wf(),
        ensures
            (*final(self), r) == prepare_spec(*old(self), surface, settings.render_scale_milli),
    {
        let target = PreparedFor { surface, render_scale_milli: settings.render_scale_milli };
        let recreate = match self.prepared {
            Some(previous) => previous != target,
            None => true,
        };
        let required = Extent {
            width: scale_side(surface.width, settings.render_scale_milli),
            height: scale_side(surface.height, settings.render_scale_milli),
        };
        self.prepared = Some(target);
        self.extent = Some(required);
        recreate
    }
}

/// A change of surface size or render scale recreates the attachments
/// exactly once: the first frame prepared after the change recreates them,
/// preparing again with the same surface and scale recreates nothing, and
/// afterwards the attachments always have the size the surface and scale
/// require.
pub proof fn lemma_recreate_exactly_once(
    s: AttachmentState,
    surface: Extent,
    scale_milli: u32,
)
    ensures
        ({
            let target = PreparedFor { surface, render_scale_milli: scale_milli };
            let (s1, first) = prepare_spec(s, surface, scale_milli);
            let (s2, second) = prepare_spec(s1, surface, scale_milli);
            &&& first <==> s.prepared != Some(target)
            &&& (s.prepared matches Some(p) && (p.surface != surface || p.render_scale_milli
                != scale_milli)) ==> first
            &&& !second
            &&& s2 == s1
            &&& s1.extent == Some(render_extent_spec(surface, scale_milli))
        }),
{
}

/// One step of a frame, in recording order.
#[derive(Clone, Copy, Debug, PartialEq, Eq, Structural)]
pub enum RenderPass {
    /// Depth of the opaque scene into one face of a point light's cube map.
    ShadowCubeFace { light: usize, face: CubeFace },
    /// Depth of the opaque scene into a directional light's shadow map.
    ShadowDirectional { light: usize },
    /// Opaque and masked meshes into the HDR colour attachment.
    Opaque,
    /// The over-threshold part of the HDR colour, along the bloom ramp.
    BloomExtract,
    /// Blur into bloom level `level` from the level above it.
    BloomDownsample { level: usize },
    /// Blur back up into bloom level `level` from the level below it.
    BloomUpsample { level: usize },
    /// HDR colour plus bloom, exposed and tone mapped onto the surface;
    /// resampled to the surface size where the render scale is not one.
    Composite { resample: bool },
}

/// The six cube-face shadow passes of point light `light`.
pub open spec fn cube_shadow_passes(light: usize) -> Seq<RenderPass> {
    cube_face_order().map_values(|face: CubeFace| RenderPass::ShadowCubeFace { light, face })
}

/// Shadow passes of the first `n` point lights, light by light.
pub open spec fn point_shadow_passes(n: nat) -> Seq<RenderPass>
    decreases n,
{
    if n == 0 {
        Seq::empty()
    } else {
        point_shadow_passes((n - 1) as nat) + cube_shadow_passes((n - 1) as usize)
    }
}

/// Shadow passes of `n` directional lights.
pub open spec fn directional_shadow_passes(n: nat) -> Seq<RenderPass> {
    Seq::new(n, |i: int| RenderPass::ShadowDirectional { light: i as usize })
}

/// Down the bloom chain, level 1 to `levels - 1`.
pub open spec fn bloom_down_passes(levels: nat) -> Seq<RenderPass> {
    Seq::new(
        (if levels > 0 { levels - 1 } else { 0 }) as nat,
        |i: int| RenderPass::BloomDownsample { level: (i + 1) as usize },
    )
}

/// Back up the bloom chain, level `levels - 2` to 0.
pub open spec fn bloom_up_passes(levels: nat) -> Seq<RenderPass> {
    Seq::new(
        (if levels > 0 { levels - 1 } else { 0 }) as nat,
        |i: int| RenderPass::BloomUpsample { level: (levels - 2 - i) as usize },
    )
}

/// The fixed pass order of a frame: shadows (point lights, then directional
/// lights), opaque, bloom extract, down and up the bloom chain, composite.
pub open spec fn frame_plan_spec(
    point_lights: nat,
    directional_lights: nat,
    bloom_levels: nat,
    render_scale_milli: u32,
) -> Seq<RenderPass> {
    point_shadow_passes(point_lights) + directional_shadow_passes(directional_lights) + seq![
        RenderPass::Opaque,
        RenderPass::BloomExtract,
    ] + bloom_down_passes(bloom_levels) + bloom_up_passes(bloom_levels) + seq![
        RenderPass::Composite { resample: render_scale_milli != UNIT_MILLI },
    ]
}

/// The passes of one frame, in the order they are recorded.
pub fn plan_frame(
    point_lights: usize,
    directional_lights: usize,
    bloom_levels: usize,
    settings: &RenderSettings,
) -> (r: Vec<RenderPass>)
    ensures
        r@ == frame_plan_spec(
            point_lights as nat,
            directional_lights as nat,
            bloom_levels as nat,
            settings.render_scale_milli,
        ),
{
    let mut passes: Vec<RenderPass> = Vec::new();
    let faces = crate::camera::cube_faces();
    let mut light: usize = 0;
    while light < point_lights
        invariant
            light <= point_lights,
            faces@ == cube_face_order(),
            passes@ == point_shadow_passes(light as nat),
        decreases point_lights - light,
    {
        let mut f: usize = 0;
        while f < faces.len()
            invariant
                light < point_lights,
                f <= faces@.len(),
                faces@ == cube_face_order(),
                passes@ == point_shadow_passes(light as nat) + cube_shadow_passes(light).take(
                    f as int,
                ),
            decreases faces@.len() - f,
        {
            passes.push(RenderPass::ShadowCubeFace { light, face: faces[f] });
            proof {
                assert(cube_shadow_passes(light).take(f + 1) =~= cube_shadow_passes(light).take(
                    f as int,
                ).push(RenderPass::ShadowCubeFace { light, face: faces@[f as int] }));
            }
            f += 1;
        }
        proof {
            assert(cube_shadow_passes(light).take(6) =~= cube_shadow_passes(light));
        }
        light += 1;
    }
    let ghost shadows = passes@;
    let mut d: usize = 0;
    while d < directional_lights
        invariant
            d <= directional_lights,
            passes@ == shadows + directional_shadow_passes(d as nat),
        decreases directional_lights - d,
    {
        passes.push(RenderPass::ShadowDirectional { light: d });
        proof {
            assert(directional_shadow_passes((d + 1) as nat) =~= directional_shadow_passes(
                d as nat,
            ).push(RenderPass::ShadowDirectional { light: d }));
        }
        d += 1;
    }
    passes.push(RenderPass::Opaque);
    passes.push(RenderPass::BloomExtract);
    let ghost before_bloom = passes@;
    proof {
        assert(before_bloom =~= point_shadow_passes(point_lights as nat)
            + directional_shadow_passes(directional_lights as nat) + seq![
            RenderPass::Opaque,
            RenderPass::BloomExtract,
        ]);
    }
    let steps: usize = if bloom_levels > 0 {
        bloom_levels - 1
    } else {
        0
    };
    let mut level: usize = 0;
    while level < steps
        invariant
            level <= steps,
            steps == (if bloom_levels > 0 { bloom_levels - 1 } else { 0 }),
            passes@ == before_bloom + bloom_down_passes(bloom_levels as nat).take(level as int),
        decreases steps - level,
    {
        passes.push(RenderPass::BloomDownsample { level: level + 1 });
        proof {
            assert(bloom_down_passes(bloom_levels as nat).take(level + 1) =~= bloom_down_passes(
                bloom_levels as nat,
            ).take(level as int).push(RenderPass::BloomDownsample { level: (level + 1) as usize }));
        }
        level += 1;
    }
    proof {
        assert(bloom_down_passes(bloom_levels as nat).take(steps as int) =~= bloom_down_passes(
            bloom_levels as nat,
        ));
    }
    let ghost after_down = passes@;
    let mut k: usize = 0;
    while k < steps
        invariant
            k <= steps,
            steps == (if bloom_levels > 0 { bloom_levels - 1 } else { 0 }),
            passes@ == after_down + bloom_up_passes(bloom_levels as nat).take(k as int),
        decreases steps - k,
    {
        passes.push(RenderPass::BloomUpsample { level: steps - 1 - k });
        proof {
            assert(bloom_up_passes(bloom_levels as nat).take(k + 1) =~= bloom_up_passes(
                bloom_levels as nat,
            ).take(k as int).push(RenderPass::BloomUpsample { level: (steps - 1 - k) as usize }));
        }
        k += 1;
    }
    proof {
        assert(bloom_up_passes(bloom_levels as nat).take(steps as int) =~= bloom_up_passes(
            bloom_levels as nat,
        ));
    }
    passes.push(RenderPass::Composite { resample: settings.render_scale_milli != UNIT_MILLI });
    proof {
        assert(passes@ =~= frame_plan_spec(
            point_lights as nat,
            directional_lights as nat,
            bloom_levels as nat,
            settings.render_scale_milli,
        ));
    }
    passes
}

} // verus!
