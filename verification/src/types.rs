//! Network-able versions of common host attributes, with their wire
//! codecs.
//!
//! Each type holds as plain values what the replication logic reads; the
//! host's own attribute types are converted at the boundary.  The codecs
//! are total on encoded values they produced, and decoding rejects
//! anything else.

use vstd::prelude::*;

verus! {

/// The network-able version of an entity name.
#[derive(Clone, Debug)]
pub struct NetName {
    /// The name itself.
    pub name: String,
}

impl NetName {
    /// Wraps a name for transmission.
    pub fn new(name: String) -> (r: NetName)
        ensures
            r.name@ == name@,
    {
        NetName { name }
    }

    /// The wrapped name.
    pub fn name(&self) -> (r: &String)
        ensures
            r@ == self.name@,
    {
        &self.name
    }
}

/// The network-able version of a visibility attribute.
#[derive(Clone, Copy, PartialEq, Eq, Structural, Debug)]
pub enum NetVisibility {
    /// Visibility follows the parent entity.
    Inherited,
    /// Never visible.
    Hidden,
    /// Always visible.
    Visible,
}

impl NetVisibility {
    /// The wire code of this visibility.
    pub open spec fn spec_encode(self) -> u8 {
        match self {
            NetVisibility::Inherited => 0u8,
            NetVisibility::Hidden => 1u8,
            NetVisibility::Visible => 2u8,
        }
    }

    /// The visibility a wire code stands for, if any.
    pub open spec fn spec_decode(code: u8) -> Option<NetVisibility> {
        if code == 0u8 {
            Option::Some(NetVisibility::Inherited)
        } else if code == 1u8 {
            Option::Some(NetVisibility::Hidden)
        } else if code == 2u8 {
            Option::Some(NetVisibility::Visible)
        } else {
            Option::None
        }
    }

    /// Encodes this visibility as its wire code.
    pub fn encode(&self) -> (r: u8)
        ensures
            r == self.spec_encode(),
    {
        match self {
            NetVisibility::Inherited => 0,
            NetVisibility::Hidden => 1,
            NetVisibility::Visible => 2,
        }
    }

    /// Decodes a wire code; codes this codec never produces are rejected.
    pub fn decode(code: u8) -> (r: Option<NetVisibility>)
        ensures
            r == NetVisibility::spec_decode(code),
    {
        if code == 0 {
            Option::Some(NetVisibility::Inherited)
        } else if code == 1 {
            Option::Some(NetVisibility::Hidden)
        } else if code == 2 {
            Option::Some(NetVisibility::Visible)
        } else {
            Option::None
        }
    }
}

/// The codec pair for visibilities is inverse: decoding an encoded
/// visibility yields it back.
pub proof fn lemma_visibility_codec_inverse(v: NetVisibility)
    ensures
        NetVisibility::spec_decode(v.spec_encode()) == Option::Some(v),
{
}

/// The network-able version of an alpha-blending mode.  The mask cutoff
/// is carried as the raw bits of the host's single-precision cutoff, so
/// the round trip over the wire is exact.
#[derive(Clone, Copy, PartialEq, Eq, Structural, Debug)]
pub enum NetAlphaMode {
    /// Fully opaque.
    Opaque,
    /// Cut off at the carried alpha value: at or above it fully opaque,
    /// below it fully transparent.
    Mask(u32),
    /// Ordinary alpha blending.
    Blend,
    /// Blending with premultiplied alpha.
    Premultiplied,
    /// Additive blending.
    Add,
    /// Multiplicative blending.
    Multiply,
}

impl NetAlphaMode {
    /// The wire code of this mode: a tag and the mask cutoff bits, zero
    /// for modes that carry none.
    pub open spec fn spec_encode(self) -> (u8, u32) {
        match self {
            NetAlphaMode::Opaque => (0u8, 0u32),
            NetAlphaMode::Mask(bits) => (1u8, bits),
            NetAlphaMode::Blend => (2u8, 0u32),
            NetAlphaMode::Premultiplied => (3u8, 0u32),
            NetAlphaMode::Add => (4u8, 0u32),
            NetAlphaMode::Multiply => (5u8, 0u32),
        }
    }

    /// The mode a wire code stands for, if any.
    pub open spec fn spec_decode(tag: u8, bits: u32) -> Option<NetAlphaMode> {
        if tag == 0u8 && bits == 0u32 {
            Option::Some(NetAlphaMode::Opaque)
        } else if tag == 1u8 {
            Option::Some(NetAlphaMode::Mask(bits))
        } else if tag == 2u8 && bits == 0u32 {
            Option::Some(NetAlphaMode::Blend)
        } else if tag == 3u8 && bits == 0u32 {
            Option::Some(NetAlphaMode::Premultiplied)
        } else if tag == 4u8 && bits == 0u32 {
            Option::Some(NetAlphaMode::Add)
        } else if tag == 5u8 && bits == 0u32 {
            Option::Some(NetAlphaMode::Multiply)
        } else {
            Option::None
        }
    }

    /// Encodes this mode as its wire code.
    pub fn encode(&self) -> (r: (u8, u32))
        ensures
            r == self.spec_encode(),
    {
        match self {
            NetAlphaMode::Opaque => (0, 0),
            NetAlphaMode::Mask(bits) => (1, *bits),
            NetAlphaMode::Blend => (2, 0),
            NetAlphaMode::Premultiplied => (3, 0),
            NetAlphaMode::Add => (4, 0),
            NetAlphaMode::Multiply => (5, 0),
        }
    }

    /// Decodes a wire code; codes this codec never produces are rejected.
    pub fn decode(tag: u8, bits: u32) -> (r: Option<NetAlphaMode>)
        ensures
            r == NetAlphaMode::spec_decode(tag, bits),
    {
        if tag == 0 && bits == 0 {
            Option::Some(NetAlphaMode::Opaque)
        } else if tag == 1 {
            Option::Some(NetAlphaMode::Mask(bits))
        } else if tag == 2 && bits == 0 {
            Option::Some(NetAlphaMode::Blend)
        } else if tag == 3 && bits == 0 {
            Option::Some(NetAlphaMode::Premultiplied)
        } else if tag == 4 && bits == 0 {
            Option::Some(NetAlphaMode::Add)
        } else if tag == 5 && bits == 0 {
            Option::Some(NetAlphaMode::Multiply)
        } else {
            Option::None
        }
    }
}

/// The codec pair for alpha modes is inverse: decoding an encoded mode
/// yields it back.
pub proof fn lemma_alpha_mode_codec_inverse(m: NetAlphaMode)
    ensures
        NetAlphaMode::spec_decode(m.spec_encode().0, m.spec_encode().1) == Option::Some(m),
{
}

/// The network-able version of an Euler-rotation order.
#[derive(Clone, Copy, PartialEq, Eq, Structural, Debug)]
pub enum NetEulerRot {
    /// Intrinsic three-axis rotation ZYX.
    ZYX,
    /// Intrinsic three-axis rotation ZXY.
    ZXY,
    /// Intrinsic three-axis rotation YXZ.
    YXZ,
    /// Intrinsic three-axis rotation YZX.
    YZX,
    /// Intrinsic three-axis rotation XYZ.
    XYZ,
    /// Intrinsic three-axis rotation XZY.
    XZY,
}

impl NetEulerRot {
    /// The wire code of this rotation order.
    pub open spec fn spec_encode(self) -> u8 {
        match self {
            NetEulerRot::ZYX => 0u8,
            NetEulerRot::ZXY => 1u8,
            NetEulerRot::YXZ => 2u8,
            NetEulerRot::YZX => 3u8,
            NetEulerRot::XYZ => 4u8,
            NetEulerRot::XZY => 5u8,
        }
    }

    /// The rotation order a wire code stands for, if any.
    pub open spec fn spec_decode(code: u8) -> Option<NetEulerRot> {
        if code == 0u8 {
            Option::Some(NetEulerRot::ZYX)
        } else if code == 1u8 {
            Option::Some(NetEulerRot::ZXY)
        } else if code == 2u8 {
            Option::Some(NetEulerRot::YXZ)
        } else if code == 3u8 {
            Option::Some(NetEulerRot::YZX)
        } else if code == 4u8 {
            Option::Some(NetEulerRot::XYZ)
        } else if code == 5u8 {
            Option::Some(NetEulerRot::XZY)
        } else {
            Option::None
        }
    }

    /// Encodes this rotation order as its wire code.
    pub fn encode(&self) -> (r: u8)
        ensures
            r == self.spec_encode(),
    {
        match self {
            NetEulerRot::ZYX => 0,
            NetEulerRot::ZXY => 1,
            NetEulerRot::YXZ => 2,
            NetEulerRot::YZX => 3,
            NetEulerRot::XYZ => 4,
            NetEulerRot::XZY => 5,
        }
    }

    /// Decodes a wire code; codes this codec never produces are rejected.
    pub fn decode(code: u8) -> (r: Option<NetEulerRot>)
        ensures
            r == NetEulerRot::spec_decode(code),
    {
        if code == 0 {
            Option::Some(NetEulerRot::ZYX)
        } else if code == 1 {
            Option::Some(NetEulerRot::ZXY)
        } else if code == 2 {
            Option::Some(NetEulerRot::YXZ)
        } else if code == 3 {
            Option::Some(NetEulerRot::YZX)
        } else if code == 4 {
            Option::Some(NetEulerRot::XYZ)
        } else if code == 5 {
            Option::Some(NetEulerRot::XZY)
        } else {
            Option::None
        }
    }
}

/// The codec pair for rotation orders is inverse: decoding an encoded
/// order yields it back.
pub proof fn lemma_euler_rot_codec_inverse(r: NetEulerRot)
    ensures
        NetEulerRot::spec_decode(r.spec_encode()) == Option::Some(r),
{
}

} // verus!
