use vstd::prelude::*;

verus! {

/// How a material treats the alpha channel of its colour.
#[derive(Debug, Clone, Copy, PartialEq, Eq, Structural)]
pub enum AlphaMode {
    Opaque,
    Mask,
    Blend,
    Premultiplied,
    Add,
    Multiply,
}

/// What the flags of a material depend on: which of its textures are set,
/// and its alpha mode.
#[derive(Debug, Clone, Copy, PartialEq, Eq, Structural)]
pub struct WorldMaterialShape {
    pub base_color_texture: bool,
    pub normal_texture: bool,
    pub emissive_texture: bool,
    pub lighting_texture: bool,
    pub alpha_mode: AlphaMode,
}

/// The bits that the shader reads from the flags of a material. The four
/// lowest bits say which textures are set; the three highest bits hold the
/// number of the alpha mode.
pub struct WorldMaterialFlags {}

pub const BASE_COLOR_TEXTURE: u32 = 0x0000_0001;

pub const NORMAL_TEXTURE: u32 = 0x0000_0002;

pub const EMISSIVE_TEXTURE: u32 = 0x0000_0004;

pub const LIGHTING_TEXTURE: u32 = 0x0000_0008;

pub const ALPHA_MODE_MASK_BITS: u32 = 0b111;

pub const ALPHA_MODE_SHIFT_BITS: u32 = 29;

pub const ALPHA_MODE_RESERVED_BITS: u32 = 0xE000_0000;

pub const ALPHA_MODE_OPAQUE: u32 = 0x0000_0000;

pub const ALPHA_MODE_MASK: u32 = 0x2000_0000;

pub const ALPHA_MODE_BLEND: u32 = 0x4000_0000;

pub const ALPHA_MODE_PREMULTIPLIED: u32 = 0x6000_0000;

pub const ALPHA_MODE_ADD: u32 = 0x8000_0000;

pub const ALPHA_MODE_MULTIPLY: u32 = 0xA000_0000;

pub const NONE: u32 = 0;

pub const UNINITIALIZED: u32 = 0xFFFF;

impl AlphaMode {
    /// The number that stands for the alpha mode in the flags.
    pub open spec fn number(self) -> nat {
        match self {
            AlphaMode::Opaque => 0,
            AlphaMode::Mask => 1,
            AlphaMode::Blend => 2,
            AlphaMode::Premultiplied => 3,
            AlphaMode::Add => 4,
            AlphaMode::Multiply => 5,
        }
    }
}

/// One if the condition holds, zero if not.
pub open spec fn bit(set: bool) -> nat {
    if set {
        1
    } else {
        0
    }
}

impl WorldMaterialShape {
    /// The flags as a number: one binary digit for each texture, from the
    /// lowest, and the number of the alpha mode from digit 29 on.
    pub open spec fn spec_flags(self) -> nat {
        bit(self.base_color_texture) + 2 * bit(self.normal_texture) + 4 * bit(
            self.emissive_texture,
        ) + 8 * bit(self.lighting_texture) + 0x2000_0000 * self.alpha_mode.number()
    }

    /// The flags of the material.
    pub fn flags(&self) -> (flags: u32)
        ensures
            flags == self.spec_flags(),
            (flags & BASE_COLOR_TEXTURE != 0) == self.base_color_texture,
            (flags & NORMAL_TEXTURE != 0) == self.normal_texture,
            (flags & EMISSIVE_TEXTURE != 0) == self.emissive_texture,
            (flags & LIGHTING_TEXTURE != 0) == self.lighting_texture,
            flags >> ALPHA_MODE_SHIFT_BITS == self.alpha_mode.number(),
    {
        let mut textures: u32 = NONE;
        if self.base_color_texture {
            textures |= BASE_COLOR_TEXTURE;
        }
        if self.normal_texture {
            textures |= NORMAL_TEXTURE;
        }
        if self.emissive_texture {
            textures |= EMISSIVE_TEXTURE;
        }
        if self.lighting_texture {
            textures |= LIGHTING_TEXTURE;
        }
        assert(textures == bit(self.base_color_texture) + 2 * bit(self.normal_texture) + 4 * bit(
            self.emissive_texture,
        ) + 8 * bit(self.lighting_texture)) by {
            assert(0u32 | 1u32 == 1u32) by (bit_vector);
            assert(forall|t: u32| t < 2 ==> t | 2u32 == t + 2) by (bit_vector);
            assert(forall|t: u32| t < 4 ==> t | 4u32 == t + 4) by (bit_vector);
            assert(forall|t: u32| t < 8 ==> t | 8u32 == t + 8) by (bit_vector);
        }
        let alpha: u32 = match self.alpha_mode {
            AlphaMode::Opaque => ALPHA_MODE_OPAQUE,
            AlphaMode::Mask => ALPHA_MODE_MASK,
            AlphaMode::Blend => ALPHA_MODE_BLEND,
            AlphaMode::Premultiplied => ALPHA_MODE_PREMULTIPLIED,
            AlphaMode::Add => ALPHA_MODE_ADD,
            AlphaMode::Multiply => ALPHA_MODE_MULTIPLY,
        };
        let flags = textures | alpha;
        assert(textures < 16);
        assert(alpha & 0x1FFF_FFFFu32 == 0 && alpha >> 29u32 == self.alpha_mode.number()) by {
            assert(0x0000_0000u32 & 0x1FFF_FFFFu32 == 0 && 0x0000_0000u32 >> 29u32 == 0)
                by (bit_vector);
            assert(0x2000_0000u32 & 0x1FFF_FFFFu32 == 0 && 0x2000_0000u32 >> 29u32 == 1)
                by (bit_vector);
            assert(0x4000_0000u32 & 0x1FFF_FFFFu32 == 0 && 0x4000_0000u32 >> 29u32 == 2)
                by (bit_vector);
            assert(0x6000_0000u32 & 0x1FFF_FFFFu32 == 0 && 0x6000_0000u32 >> 29u32 == 3)
                by (bit_vector);
            assert(0x8000_0000u32 & 0x1FFF_FFFFu32 == 0 && 0x8000_0000u32 >> 29u32 == 4)
                by (bit_vector);
            assert(0xA000_0000u32 & 0x1FFF_FFFFu32 == 0 && 0xA000_0000u32 >> 29u32 == 5)
                by (bit_vector);
        }
        assert(flags == textures + alpha && (flags & 1u32 != 0) == (textures & 1u32 != 0) && (flags
            & 2u32 != 0) == (textures & 2u32 != 0) && (flags & 4u32 != 0) == (textures & 4u32 != 0)
            && (flags & 8u32 != 0) == (textures & 8u32 != 0) && flags >> 29u32 == alpha
            >> 29u32) by (bit_vector)
            requires
                textures < 16,
                alpha & 0x1FFF_FFFFu32 == 0,
                flags == textures | alpha,
        ;
        assert((textures & 1u32 != 0) == self.base_color_texture && (textures & 2u32 != 0)
            == self.normal_texture && (textures & 4u32 != 0) == self.emissive_texture && (textures
            & 8u32 != 0) == self.lighting_texture) by {
            assert(forall|t: u32| t < 16 ==> ((t & 1u32 != 0) == (t % 2 == 1))) by (bit_vector);
            assert(forall|t: u32| t < 16 ==> ((t & 2u32 != 0) == ((t / 2) % 2 == 1)))
                by (bit_vector);
            assert(forall|t: u32| t < 16 ==> ((t & 4u32 != 0) == ((t / 4) % 2 == 1)))
                by (bit_vector);
            assert(forall|t: u32| t < 16 ==> ((t & 8u32 != 0) == ((t / 8) % 2 == 1)))
                by (bit_vector);
        }
        flags
    }
}

} // verus!
