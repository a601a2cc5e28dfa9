//! Per-frame decision logic of the sky render node.
//!
//! The host render graph hands the node what it resolved this frame: whether
//! the named camera binding exists, whether the camera bind-group layout is
//! registered, and which texture fills the node's single color-attachment
//! slot. The node decides, without panicking, either to skip the frame
//! (leaving the attachment untouched) or to issue one clear-and-draw with
//! the packed push-constant block. The host performs the GPU calls.

use vstd::prelude::*;
use crate::pack::{pack, packed_bytes, DerivedCoefficients, PACKED_BYTE_LEN};
use crate::params::Sky;

verus! {

/// What a render-graph input slot carries.
#[derive(Clone, Copy, Debug, PartialEq, Eq, Structural)]
pub enum SlotResourceKind {
    Texture,
    Buffer,
    Sampler,
}

/// Declared metadata of one input slot.
pub struct SlotInfo {
    pub name: String,
    pub resource_kind: SlotResourceKind,
}

/// Raw bit patterns of the fixed clear color (an azure sky blue), in RGBA
/// order, applied before the draw so the node owns the attachment's
/// contents for the frame.
#[derive(Clone, Copy, Debug, PartialEq, Eq, Structural)]
pub struct ClearColorBits {
    pub r: u32,
    pub g: u32,
    pub b: u32,
    pub a: u32,
}

/// Red channel of the clear color (94 hundredths).
pub const CLEAR_COLOR_R_BITS: u32 = 0x3F70A3D7;
/// Green channel of the clear color (one).
pub const CLEAR_COLOR_G_BITS: u32 = 0x3F800000;
/// Blue channel of the clear color (one).
pub const CLEAR_COLOR_B_BITS: u32 = 0x3F800000;
/// Alpha channel of the clear color (one).
pub const CLEAR_COLOR_A_BITS: u32 = 0x3F800000;

/// The fixed sky-blue clear color.
pub open spec fn spec_clear_color() -> ClearColorBits {
    ClearColorBits {
        r: CLEAR_COLOR_R_BITS,
        g: CLEAR_COLOR_G_BITS,
        b: CLEAR_COLOR_B_BITS,
        a: CLEAR_COLOR_A_BITS,
    }
}

/// Why a frame's sky draw was skipped. Each skip is non-fatal: the node
/// leaves the attachment untouched and the graph continues.
#[derive(Clone, Copy, Debug, PartialEq, Eq, Structural)]
pub enum SkipReason {
    /// The configured camera name resolved to no binding.
    NoCameraBinding,
    /// The camera bind-group layout was never registered.
    NoBindGroupDescriptor,
    /// The color-attachment input slot holds no texture.
    NoColorAttachment,
}

/// Everything the host needs to issue the one sky draw: clear the given
/// attachment to the fixed color, bind the sky pipeline and camera group,
/// upload the block as fragment push constants, and draw the strip's
/// indices once.
pub struct DrawCommands {
    /// Texture id of the color attachment to render into.
    pub attachment: u64,
    pub clear_color: ClearColorBits,
    /// The attachment contents are kept after the pass.
    pub store: bool,
    /// The 128-byte push-constant block for the fragment stage.
    pub push_constants: Vec<u8>,
    pub first_index: u32,
    pub index_count: u32,
    pub instance_count: u32,
}

/// The node's verdict for one frame.
pub enum SkyAction {
    Skip(SkipReason),
    Draw(DrawCommands),
}

/// What the host resolved for the node this frame.
pub struct FrameInputs {
    /// Whether a binding was found under the node's camera name.
    pub camera_binding_present: bool,
    /// Whether the pipeline's camera bind-group layout is registered.
    pub bind_group_descriptor_registered: bool,
    /// The texture id in the color-attachment slot, if the slot holds one.
    pub color_attachment: Option<u64>,
}

/// The sky render node: one color-attachment input, no outputs.
pub struct SkyNode {
    pub camera_name: String,
    pub inputs: Vec<SlotInfo>,
}

/// Number of indices the sky draw issues.
pub const SKY_DRAW_INDEX_COUNT: u32 = 14;

/// Number of instances the sky draw issues.
pub const SKY_DRAW_INSTANCE_COUNT: u32 = 1;

impl SkyNode {
    /// A node that reads the camera with the given name and declares one
    /// texture slot for the color attachment.
    pub fn new(camera_name: String) -> (r: SkyNode)
        ensures
            r.camera_name@ == camera_name@,
            r.inputs@.len() == 1,
            r.inputs@[0].name@ == "color_attachment"@,
            r.inputs@[0].resource_kind == SlotResourceKind::Texture,
    {
        let slot = SlotInfo {
            name: String::from_str("color_attachment"),
            resource_kind: SlotResourceKind::Texture,
        };
        let inputs: Vec<SlotInfo> = vec![slot];
        SkyNode { camera_name, inputs }
    }

    /// The node's declared input slots.
    pub fn input(&self) -> (r: &Vec<SlotInfo>)
        ensures
            r@ == self.inputs@,
    {
        &self.inputs
    }

    /// Decides one frame. Never panics; on any missing resource it skips,
    /// in the order camera binding, bind-group layout, attachment; with
    /// everything present it issues exactly one clear-and-draw whose push
    /// constants are the packed block for the given parameters and
    /// coefficients.
    pub fn update(&self, frame: &FrameInputs, sky: &Sky, derived: &DerivedCoefficients) -> (r:
        SkyAction)
        ensures
            !frame.camera_binding_present ==> r == SkyAction::Skip(SkipReason::NoCameraBinding),
            frame.camera_binding_present && !frame.bind_group_descriptor_registered ==> r
                == SkyAction::Skip(SkipReason::NoBindGroupDescriptor),
            frame.camera_binding_present && frame.bind_group_descriptor_registered
                && frame.color_attachment is None ==> r == SkyAction::Skip(
                SkipReason::NoColorAttachment,
            ),
            frame.camera_binding_present && frame.bind_group_descriptor_registered
                && frame.color_attachment is Some ==> (r matches SkyAction::Draw(c)
                && c.attachment == frame.color_attachment->0 && c.clear_color == spec_clear_color()
                && c.store && c.push_constants@ == packed_bytes(*sky, *derived)
                && c.push_constants@.len() == PACKED_BYTE_LEN && c.first_index == 0
                && c.index_count == SKY_DRAW_INDEX_COUNT && c.instance_count
                == SKY_DRAW_INSTANCE_COUNT),
    {
        if !frame.camera_binding_present {
            return SkyAction::Skip(SkipReason::NoCameraBinding);
        }
        if !frame.bind_group_descriptor_registered {
            return SkyAction::Skip(SkipReason::NoBindGroupDescriptor);
        }
        let attachment: u64 = match frame.color_attachment {
            Some(id) => id,
            None => {
                return SkyAction::Skip(SkipReason::NoColorAttachment);
            },
        };
        let push_constants = pack(sky, derived);
        SkyAction::Draw(
            DrawCommands {
                attachment,
                clear_color: sky_clear_color(),
                store: true,
                push_constants,
                first_index: 0,
                index_count: SKY_DRAW_INDEX_COUNT,
                instance_count: SKY_DRAW_INSTANCE_COUNT,
            },
        )
    }
}

/// The fixed sky-blue clear color.
pub fn sky_clear_color() -> (c: ClearColorBits)
    ensures
        c == spec_clear_color(),
{
    ClearColorBits {
        r: CLEAR_COLOR_R_BITS,
        g: CLEAR_COLOR_G_BITS,
        b: CLEAR_COLOR_B_BITS,
        a: CLEAR_COLOR_A_BITS,
    }
}

} // verus!
