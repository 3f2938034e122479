use vstd::prelude::*;

use crate::bits::bit_of16;
use crate::graphics::layers::{bg_layer, obj_layer, BGPixel, LayerPixel, Layers, OBJPixel};
use crate::graphics::ppu_modes::hdraw::RGBComponents;
use crate::memory::io_handlers::{BLDALPHA, BLDCNT};
use crate::memory::memory::GBAMemory;
use crate::memory::oam::OBJMode;
use crate::memory::wrappers::blending::{coefficient, BldAlpha, BldCnt, BlendMode};

verus! {

/// The colour special effect that BLDCNT selects.
pub open spec fn spec_bld_mode(bldcnt: u16) -> BlendMode {
    let v = (bldcnt >> 5u16) & 0x3u16;
    if v == 0 {
        BlendMode::BldOff
    } else if v == 1 {
        BlendMode::BldAlpha
    } else if v == 2 {
        BlendMode::BldWhite
    } else {
        BlendMode::BldBlack
    }
}

/// The effect at a pixel: a semi-transparent object pixel is always alpha
/// blended; otherwise BLDCNT decides.
pub open spec fn spec_blend_mode(layers: Layers, bldcnt: u16) -> BlendMode {
    if layers.obj is Some && layers.obj->0.mode == OBJMode::SemiTransparent {
        BlendMode::BldAlpha
    } else {
        spec_bld_mode(bldcnt)
    }
}

/// The effect that applies at a pixel with these layers.
pub fn get_blend_mode(layers: &Layers, bldcnt: &BldCnt<'_>) -> (r: BlendMode)
    ensures
        r == spec_blend_mode(*layers, *bldcnt.0),
{
    if let Some(obj_pixel) = &layers.obj {
        if obj_pixel.mode == OBJMode::SemiTransparent {
            return BlendMode::BldAlpha;
        }
    }
    bldcnt.bld_mode()
}

/// The layers that take part in a blend as one of its two targets.
pub struct TargetLayer {
    pub bg0: Option<BGPixel>,
    pub bg1: Option<BGPixel>,
    pub bg2: Option<BGPixel>,
    pub bg3: Option<BGPixel>,
    pub obj: Option<OBJPixel>,
    pub bd: Option<BGPixel>,
}

impl Default for TargetLayer {
    fn default() -> (r: Self)
        ensures
            r.bg0 is None && r.bg1 is None && r.bg2 is None && r.bg3 is None && r.obj is None && r.bd is None,
    {
        TargetLayer { bg0: None, bg1: None, bg2: None, bg3: None, obj: None, bd: None }
    }
}

/// One step of the search for the first target: the first candidate is
/// taken, and a later one replaces it when its priority is not lower.
pub open spec fn over_target_a(top: Option<LayerPixel>, new: Option<LayerPixel>) -> Option<LayerPixel> {
    match top {
        None => new,
        Some(current) => match new {
            None => top,
            Some(pixel) => if pixel.spec_priority() <= current.spec_priority() {
                new
            } else {
                top
            },
        },
    }
}

/// One step of the search for the second target: only a candidate of lower
/// priority than the first target (a larger number) counts, and a later one
/// replaces the current when its priority is not lower.
pub open spec fn over_target_b(top: Option<LayerPixel>, new: Option<LayerPixel>, a_priority: u16) -> Option<
    LayerPixel,
> {
    match top {
        None => match new {
            Some(pixel) => if pixel.spec_priority() > a_priority {
                new
            } else {
                None
            },
            None => None,
        },
        Some(current) => match new {
            None => top,
            Some(pixel) => if pixel.spec_priority() <= current.spec_priority() && pixel.spec_priority()
                > a_priority {
                new
            } else {
                top
            },
        },
    }
}

impl TargetLayer {
    /// The first target: a semi-transparent object pixel if there is one;
    /// else the search over the backdrop, backgrounds 3 to 0 and the object.
    pub open spec fn spec_target_pixel_a(self) -> Option<LayerPixel> {
        if self.obj is Some && self.obj->0.mode == OBJMode::SemiTransparent {
            Some(LayerPixel::OBJ(self.obj->0))
        } else {
            over_target_a(
                over_target_a(
                    over_target_a(
                        over_target_a(over_target_a(bg_layer(self.bd), bg_layer(self.bg3)), bg_layer(self.bg2)),
                        bg_layer(self.bg1),
                    ),
                    bg_layer(self.bg0),
                ),
                obj_layer(self.obj),
            )
        }
    }

    /// The second target below a first target of priority `a_priority`.
    pub open spec fn spec_target_pixel_b(self, a_priority: u16) -> Option<LayerPixel> {
        over_target_b(
            over_target_b(
                over_target_b(
                    over_target_b(
                        over_target_b(over_target_b(None, bg_layer(self.bd), a_priority), bg_layer(self.bg3), a_priority),
                        bg_layer(self.bg2),
                        a_priority,
                    ),
                    bg_layer(self.bg1),
                    a_priority,
                ),
                bg_layer(self.bg0),
                a_priority,
            ),
            obj_layer(self.obj),
            a_priority,
        )
    }

    fn pick_a(top: Option<LayerPixel>, new: Option<LayerPixel>) -> (r: Option<LayerPixel>)
        ensures
            r == over_target_a(top, new),
    {
        match top {
            None => new,
            Some(current) => match new {
                None => top,
                Some(pixel) => {
                    if pixel.priority() <= current.priority() {
                        new
                    } else {
                        top
                    }
                },
            },
        }
    }

    fn pick_b(top: Option<LayerPixel>, new: Option<LayerPixel>, a_priority: u16) -> (r: Option<LayerPixel>)
        ensures
            r == over_target_b(top, new, a_priority),
    {
        match top {
            None => match new {
                Some(pixel) => {
                    if pixel.priority() > a_priority {
                        new
                    } else {
                        None
                    }
                },
                None => None,
            },
            Some(current) => match new {
                None => top,
                Some(pixel) => {
                    if pixel.priority() <= current.priority() && pixel.priority() > a_priority {
                        new
                    } else {
                        top
                    }
                },
            },
        }
    }

    fn as_layer(p: Option<BGPixel>) -> (r: Option<LayerPixel>)
        ensures
            r == bg_layer(p),
    {
        match p {
            Some(pixel) => Some(LayerPixel::BG(pixel)),
            None => None,
        }
    }

    fn as_obj_layer(p: Option<OBJPixel>) -> (r: Option<LayerPixel>)
        ensures
            r == obj_layer(p),
    {
        match p {
            Some(pixel) => Some(LayerPixel::OBJ(pixel)),
            None => None,
        }
    }

    pub fn get_target_pixel_a(&self) -> (r: Option<LayerPixel>)
        ensures
            r == self.spec_target_pixel_a(),
    {
        if let Some(obj) = self.obj {
            if obj.mode == OBJMode::SemiTransparent {
                return Some(LayerPixel::OBJ(obj));
            }
        }
        let mut top = Self::as_layer(self.bd);
        top = Self::pick_a(top, Self::as_layer(self.bg3));
        top = Self::pick_a(top, Self::as_layer(self.bg2));
        top = Self::pick_a(top, Self::as_layer(self.bg1));
        top = Self::pick_a(top, Self::as_layer(self.bg0));
        Self::pick_a(top, Self::as_obj_layer(self.obj))
    }

    pub fn get_target_pixel_b(&self, target_pixel_a: LayerPixel) -> (r: Option<LayerPixel>)
        ensures
            r == self.spec_target_pixel_b(target_pixel_a.spec_priority()),
    {
        let a_priority = target_pixel_a.priority();
        let mut top = Self::pick_b(None, Self::as_layer(self.bd), a_priority);
        top = Self::pick_b(top, Self::as_layer(self.bg3), a_priority);
        top = Self::pick_b(top, Self::as_layer(self.bg2), a_priority);
        top = Self::pick_b(top, Self::as_layer(self.bg1), a_priority);
        top = Self::pick_b(top, Self::as_layer(self.bg0), a_priority);
        Self::pick_b(top, Self::as_obj_layer(self.obj), a_priority)
    }

    /// The layers of the first target (BLDCNT bits 0-5) and of the second
    /// (bits 8-13), in the order bg0-bg3, object, backdrop.
    pub fn get_enabled_layers(layers: &Layers, bldcnt: &BldCnt) -> (r: (Self, Self))
        ensures
            r.0.bg0 == (if bit_of16(*bldcnt.0, 0) { layers.bg0 } else { None }),
            r.0.bg1 == (if bit_of16(*bldcnt.0, 1) { layers.bg1 } else { None }),
            r.0.bg2 == (if bit_of16(*bldcnt.0, 2) { layers.bg2 } else { None }),
            r.0.bg3 == (if bit_of16(*bldcnt.0, 3) { layers.bg3 } else { None }),
            r.0.obj == (if bit_of16(*bldcnt.0, 4) { layers.obj } else { None }),
            r.0.bd == (if bit_of16(*bldcnt.0, 5) { Some(layers.bd) } else { None }),
            r.1.bg0 == (if bit_of16(*bldcnt.0, 8) { layers.bg0 } else { None }),
            r.1.bg1 == (if bit_of16(*bldcnt.0, 9) { layers.bg1 } else { None }),
            r.1.bg2 == (if bit_of16(*bldcnt.0, 10) { layers.bg2 } else { None }),
            r.1.bg3 == (if bit_of16(*bldcnt.0, 11) { layers.bg3 } else { None }),
            r.1.obj == (if bit_of16(*bldcnt.0, 12) { layers.obj } else { None }),
            r.1.bd == (if bit_of16(*bldcnt.0, 13) { Some(layers.bd) } else { None }),
    {
        let mut target_layers_a = TargetLayer::default();
        let mut target_layers_b = TargetLayer::default();
        if bldcnt.target_a_bg0_enabled() {
            target_layers_a.bg0 = layers.bg0;
        }
        if bldcnt.target_a_bg1_enabled() {
            target_layers_a.bg1 = layers.bg1;
        }
        if bldcnt.target_a_bg2_enabled() {
            target_layers_a.bg2 = layers.bg2;
        }
        if bldcnt.target_a_bg3_enabled() {
            target_layers_a.bg3 = layers.bg3;
        }
        if bldcnt.target_a_obj_enabled() {
            target_layers_a.obj = layers.obj;
        }
        if bldcnt.target_a_bd_enabled() {
            target_layers_a.bd = Some(layers.bd);
        }
        if bldcnt.target_b_bg0_enabled() {
            target_layers_b.bg0 = layers.bg0;
        }
        if bldcnt.target_b_bg1_enabled() {
            target_layers_b.bg1 = layers.bg1;
        }
        if bldcnt.target_b_bg2_enabled() {
            target_layers_b.bg2 = layers.bg2;
        }
        if bldcnt.target_b_bg3_enabled() {
            target_layers_b.bg3 = layers.bg3;
        }
        if bldcnt.target_b_obj_enabled() {
            target_layers_b.obj = layers.obj;
        }
        if bldcnt.target_b_bd_enabled() {
            target_layers_b.bd = Some(layers.bd);
        }
        (target_layers_a, target_layers_b)
    }
}

/// The two target layers that BLDCNT selects from `layers`.
pub open spec fn spec_target_layers(layers: Layers, bldcnt: u16) -> (TargetLayer, TargetLayer) {
    (
        TargetLayer {
            bg0: if bit_of16(bldcnt, 0) { layers.bg0 } else { None },
            bg1: if bit_of16(bldcnt, 1) { layers.bg1 } else { None },
            bg2: if bit_of16(bldcnt, 2) { layers.bg2 } else { None },
            bg3: if bit_of16(bldcnt, 3) { layers.bg3 } else { None },
            obj: if bit_of16(bldcnt, 4) { layers.obj } else { None },
            bd: if bit_of16(bldcnt, 5) { Some(layers.bd) } else { None },
        },
        TargetLayer {
            bg0: if bit_of16(bldcnt, 8) { layers.bg0 } else { None },
            bg1: if bit_of16(bldcnt, 9) { layers.bg1 } else { None },
            bg2: if bit_of16(bldcnt, 10) { layers.bg2 } else { None },
            bg3: if bit_of16(bldcnt, 11) { layers.bg3 } else { None },
            obj: if bit_of16(bldcnt, 12) { layers.obj } else { None },
            bd: if bit_of16(bldcnt, 13) { Some(layers.bd) } else { None },
        },
    )
}

/// The colours that alpha blending mixes at a pixel, when it does: the
/// effect is alpha blending and both targets are found and have a colour.
pub open spec fn spec_blend_inputs(layers: Layers, bldcnt: u16) -> Option<(RGBComponents, RGBComponents)> {
    let targets = spec_target_layers(layers, bldcnt);
    if spec_blend_mode(layers, bldcnt) != BlendMode::BldAlpha {
        None
    } else {
        match targets.0.spec_target_pixel_a() {
            None => None,
            Some(a) => match targets.1.spec_target_pixel_b(a.spec_priority()) {
                None => None,
                Some(b) => if a.spec_pixel() is Some && b.spec_pixel() is Some {
                    Some((a.spec_pixel()->0, b.spec_pixel()->0))
                } else {
                    None
                },
            },
        }
    }
}

/// A component scaled by a coefficient in sixteenths, rounded down.
pub open spec fn scaled(component: u16, coefficient: u16) -> int {
    (component * coefficient) / 16
}

/// Whether the blend of `a` and `b` fits in the components.
pub open spec fn blend_fits(a: RGBComponents, b: RGBComponents, eva: u16, evb: u16) -> bool {
    &&& scaled(a.r, eva) + scaled(b.r, evb) <= u16::MAX
    &&& scaled(a.g, eva) + scaled(b.g, evb) <= u16::MAX
    &&& scaled(a.b, eva) + scaled(b.b, evb) <= u16::MAX
}

/// The alpha blend of `a` and `b` with coefficients `eva` and `evb`.
pub open spec fn spec_blend(a: RGBComponents, b: RGBComponents, eva: u16, evb: u16) -> RGBComponents {
    RGBComponents {
        r: (scaled(a.r, eva) + scaled(b.r, evb)) as u16,
        g: (scaled(a.g, eva) + scaled(b.g, evb)) as u16,
        b: (scaled(a.b, eva) + scaled(b.b, evb)) as u16,
    }
}

/// The colour at a pixel with these layers after the colour special
/// effects: the blend of the two targets' colours when alpha blending
/// applies to them; otherwise the colour of the top layer, or white when
/// that layer is transparent.
pub open spec fn spec_color_effects(layers: Layers, bldcnt: u16, bldalpha: u16) -> RGBComponents {
    match spec_blend_inputs(layers, bldcnt) {
        Some((a, b)) => spec_blend(a, b, coefficient(bldalpha & 0x1Fu16), coefficient((bldalpha >> 8u16) & 0x1Fu16)),
        None => match layers.spec_top_layer().spec_pixel() {
            Some(c) => c,
            None => RGBComponents { r: 0x1f, g: 0x1f, b: 0x1f },
        },
    }
}

/// Under alpha blending each component of the colour is
/// `floor(a * EVA / 16) + floor(b * EVB / 16)`, where `a` is the colour of
/// the first target (the top layer that BLDCNT's first-target bits select),
/// `b` that of the second target under it, `EVA` the coefficient in bits
/// 0-4 of BLDALPHA and `EVB` the one in bits 8-12, each capped at 16.
pub proof fn lemma_alpha_blend_weights(layers: Layers, bldcnt: u16, bldalpha: u16)
    requires
        spec_blend_mode(layers, bldcnt) == BlendMode::BldAlpha,
        spec_target_layers(layers, bldcnt).0.spec_target_pixel_a() is Some,
        spec_target_layers(layers, bldcnt).0.spec_target_pixel_a()->0.spec_pixel() is Some,
        spec_target_layers(layers, bldcnt).1.spec_target_pixel_b(
            spec_target_layers(layers, bldcnt).0.spec_target_pixel_a()->0.spec_priority(),
        ) is Some,
        spec_target_layers(layers, bldcnt).1.spec_target_pixel_b(
            spec_target_layers(layers, bldcnt).0.spec_target_pixel_a()->0.spec_priority(),
        )->0.spec_pixel() is Some,
        color_effects_ok(layers, bldcnt, bldalpha),
    ensures
        ({
            let targets = spec_target_layers(layers, bldcnt);
            let first = targets.0.spec_target_pixel_a()->0;
            let a = first.spec_pixel()->0;
            let b = targets.1.spec_target_pixel_b(first.spec_priority())->0.spec_pixel()->0;
            let eva: int = if bldalpha % 32 < 16 { (bldalpha % 32) as int } else { 16 };
            let evb: int = if (bldalpha / 256) % 32 < 16 { ((bldalpha / 256) % 32) as int } else { 16 };
            let out = spec_color_effects(layers, bldcnt, bldalpha);
            &&& out.r == (a.r * eva) / 16 + (b.r * evb) / 16
            &&& out.g == (a.g * eva) / 16 + (b.g * evb) / 16
            &&& out.b == (a.b * eva) / 16 + (b.b * evb) / 16
        }),
{
    assert(bldalpha & 0x1Fu16 == bldalpha % 32 && (bldalpha >> 8u16) & 0x1Fu16 == (bldalpha / 256) % 32)
        by (bit_vector);
}

/// Whether the colour special effects can be computed: a blend must fit
/// in the components.
pub open spec fn color_effects_ok(layers: Layers, bldcnt: u16, bldalpha: u16) -> bool {
    match spec_blend_inputs(layers, bldcnt) {
        Some((a, b)) => blend_fits(a, b, coefficient(bldalpha & 0x1Fu16), coefficient((bldalpha >> 8u16) & 0x1Fu16)),
        None => true,
    }
}

/// The colour of the top layer, or white when it is transparent.
fn top_color(layers: &Layers) -> (r: RGBComponents)
    ensures
        r == match layers.spec_top_layer().spec_pixel() {
            Some(c) => c,
            None => RGBComponents { r: 0x1f, g: 0x1f, b: 0x1f },
        },
{
    match layers.get_top_layer().pixel() {
        Some(c) => c,
        None => RGBComponents::backdrop(),
    }
}

/// One component scaled by a coefficient of at most 16, in sixteenths.
fn scale(component: u16, coefficient: u16) -> (r: u16)
    requires
        coefficient <= 16,
    ensures
        r == scaled(component, coefficient),
{
    assert(component * coefficient <= 0xFFFF * 16) by (nonlinear_arith)
        requires
            coefficient <= 16,
    ;
    ((component as u32 * coefficient as u32) / 16) as u16
}

/// The colour at a pixel after the colour special effects that BLDCNT and
/// BLDALPHA select. Alpha blending weighs each target's components by its
/// coefficient in sixteenths, rounding each product down.
pub fn color_effects_pipeline(memory: &GBAMemory, layers: Layers) -> (r: RGBComponents)
    requires
        color_effects_ok(layers, memory.io_value(BLDCNT), memory.io_value(BLDALPHA)),
    ensures
        r == spec_color_effects(layers, memory.io_value(BLDCNT), memory.io_value(BLDALPHA)),
{
    let binding = memory.io_load(BLDCNT);
    let bldcnt = BldCnt(&binding);
    let blend_mode = get_blend_mode(&layers, &bldcnt);
    match blend_mode {
        BlendMode::BldAlpha => {
            let (target_layers_a, target_layers_b) = TargetLayer::get_enabled_layers(&layers, &bldcnt);
            proof {
                let t = spec_target_layers(layers, binding);
                assert(target_layers_a.spec_target_pixel_a() == t.0.spec_target_pixel_a());
                assert(target_layers_b.spec_target_pixel_b(0) == t.1.spec_target_pixel_b(0));
            }
            let target_pixel_a = match target_layers_a.get_target_pixel_a() {
                Some(p) => p,
                None => return top_color(&layers),
            };
            let target_pixel_b = match target_layers_b.get_target_pixel_b(target_pixel_a) {
                Some(p) => p,
                None => return top_color(&layers),
            };
            let target_pixel_a = match target_pixel_a.pixel() {
                Some(c) => c,
                None => return top_color(&layers),
            };
            let target_pixel_b = match target_pixel_b.pixel() {
                Some(c) => c,
                None => return top_color(&layers),
            };
            let bldalpha = BldAlpha(memory.io_load(BLDALPHA));
            let eva = bldalpha.eva();
            let evb = bldalpha.evb();
            RGBComponents {
                r: scale(target_pixel_a.r, eva) + scale(target_pixel_b.r, evb),
                g: scale(target_pixel_a.g, eva) + scale(target_pixel_b.g, evb),
                b: scale(target_pixel_a.b, eva) + scale(target_pixel_b.b, evb),
            }
        },
        _ => top_color(&layers),
    }
}

} // verus!
