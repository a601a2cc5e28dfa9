//! The atmosphere/sun parameter record and its default values.
//!
//! Every physical quantity is a single-precision value carried as its raw
//! 32-bit pattern, so the record is exactly the sequence of machine words
//! that the shader receives. The named constants below are the bit patterns
//! of the canonical defaults; the host layer checks them against its own
//! float constants.

use vstd::prelude::*;

verus! {

/// Raw bit patterns of a three-component single-precision vector.
#[derive(Clone, Copy, Debug, PartialEq, Eq, Structural)]
pub struct Vec3Bits {
    pub x: u32,
    pub y: u32,
    pub z: u32,
}

/// Atmosphere and sun state read once per frame by the sky pass.
///
/// Field order is the wire order: the packed push-constant block holds these
/// fields as consecutive 32-bit words exactly as declared here.
#[derive(Clone, Copy, Debug, PartialEq, Eq, Structural)]
pub struct Sky {
    /// Peak wavelengths for the red, green and blue channels, in meters.
    pub primaries: Vec3Bits,
    pub luminance: u32,
    pub mie_k_coefficient: Vec3Bits,
    pub mie_coefficient: u32,
    pub mie_directional_g: u32,
    /// Junge's exponent.
    pub mie_v: u32,
    pub mie_zenith_length: u32,
    /// Molecular density at sea level.
    pub num_molecules: u32,
    pub rayleigh: u32,
    pub rayleigh_zenith_length: u32,
    pub turbidity: u32,
    /// Index of refraction of air.
    pub refractive_index: u32,
    pub sun_position: Vec3Bits,
    pub sun_angular_diameter_degrees: u32,
    pub sun_intensity_factor: u32,
    pub sun_intensity_falloff_steepness: u32,
    pub tonemap_weighting: u32,
    /// Ratio of the internal electric field induced by the charges on the
    /// surface of a dielectric to the polarization of the dielectric.
    pub depolarization_factor: u32,
}

/// Wavelength of the red peak (680 nanometers).
pub const DEFAULT_PRIMARY_X_BITS: u32 = 0x3536893F;
/// Wavelength of the green peak (550 nanometers).
pub const DEFAULT_PRIMARY_Y_BITS: u32 = 0x3513A3B6;
/// Wavelength of the blue peak (450 nanometers).
pub const DEFAULT_PRIMARY_Z_BITS: u32 = 0x34F19787;
/// One.
pub const DEFAULT_LUMINANCE_BITS: u32 = 0x3F800000;
pub const DEFAULT_MIE_K_X_BITS: u32 = 0x3F2F9DB2;
pub const DEFAULT_MIE_K_Y_BITS: u32 = 0x3F2D9168;
pub const DEFAULT_MIE_K_Z_BITS: u32 = 0x3F2A7EFA;
pub const DEFAULT_MIE_COEFFICIENT_BITS: u32 = 0x3BA3D70A;
pub const DEFAULT_MIE_DIRECTIONAL_G_BITS: u32 = 0x3F4CCCCD;
/// Four.
pub const DEFAULT_MIE_V_BITS: u32 = 0x40800000;
/// 1250 meters.
pub const DEFAULT_MIE_ZENITH_LENGTH_BITS: u32 = 0x449C4000;
pub const DEFAULT_NUM_MOLECULES_BITS: u32 = 0x69A83728;
/// One.
pub const DEFAULT_RAYLEIGH_BITS: u32 = 0x3F800000;
/// 8400 meters.
pub const DEFAULT_RAYLEIGH_ZENITH_LENGTH_BITS: u32 = 0x46034000;
/// Two.
pub const DEFAULT_TURBIDITY_BITS: u32 = 0x40000000;
pub const DEFAULT_REFRACTIVE_INDEX_BITS: u32 = 0x3F800896;
/// 700000.
pub const DEFAULT_SUN_POSITION_X_BITS: u32 = 0x492AE600;
/// 50000.
pub const DEFAULT_SUN_POSITION_Y_BITS: u32 = 0x47435000;
/// Zero.
pub const DEFAULT_SUN_POSITION_Z_BITS: u32 = 0x00000000;
pub const DEFAULT_SUN_ANGULAR_DIAMETER_BITS: u32 = 0x3C18EAB3;
/// 1000.
pub const DEFAULT_SUN_INTENSITY_FACTOR_BITS: u32 = 0x447A0000;
pub const DEFAULT_SUN_INTENSITY_FALLOFF_BITS: u32 = 0x3FC00000;
pub const DEFAULT_TONEMAP_WEIGHTING_BITS: u32 = 0x41180000;
pub const DEFAULT_DEPOLARIZATION_FACTOR_BITS: u32 = 0x3D0F5C29;

/// The canonical default sky, as a single value.
pub open spec fn spec_default_sky() -> Sky {
    Sky {
        primaries: Vec3Bits {
            x: DEFAULT_PRIMARY_X_BITS,
            y: DEFAULT_PRIMARY_Y_BITS,
            z: DEFAULT_PRIMARY_Z_BITS,
        },
        luminance: DEFAULT_LUMINANCE_BITS,
        mie_k_coefficient: Vec3Bits {
            x: DEFAULT_MIE_K_X_BITS,
            y: DEFAULT_MIE_K_Y_BITS,
            z: DEFAULT_MIE_K_Z_BITS,
        },
        mie_coefficient: DEFAULT_MIE_COEFFICIENT_BITS,
        mie_directional_g: DEFAULT_MIE_DIRECTIONAL_G_BITS,
        mie_v: DEFAULT_MIE_V_BITS,
        mie_zenith_length: DEFAULT_MIE_ZENITH_LENGTH_BITS,
        num_molecules: DEFAULT_NUM_MOLECULES_BITS,
        rayleigh: DEFAULT_RAYLEIGH_BITS,
        rayleigh_zenith_length: DEFAULT_RAYLEIGH_ZENITH_LENGTH_BITS,
        turbidity: DEFAULT_TURBIDITY_BITS,
        refractive_index: DEFAULT_REFRACTIVE_INDEX_BITS,
        sun_position: Vec3Bits {
            x: DEFAULT_SUN_POSITION_X_BITS,
            y: DEFAULT_SUN_POSITION_Y_BITS,
            z: DEFAULT_SUN_POSITION_Z_BITS,
        },
        sun_angular_diameter_degrees: DEFAULT_SUN_ANGULAR_DIAMETER_BITS,
        sun_intensity_factor: DEFAULT_SUN_INTENSITY_FACTOR_BITS,
        sun_intensity_falloff_steepness: DEFAULT_SUN_INTENSITY_FALLOFF_BITS,
        tonemap_weighting: DEFAULT_TONEMAP_WEIGHTING_BITS,
        depolarization_factor: DEFAULT_DEPOLARIZATION_FACTOR_BITS,
    }
}

impl Default for Sky {
    /// The physically motivated default atmosphere.
    fn default() -> (r: Sky)
        ensures
            r == spec_default_sky(),
    {
        Sky {
            primaries: Vec3Bits {
                x: DEFAULT_PRIMARY_X_BITS,
                y: DEFAULT_PRIMARY_Y_BITS,
                z: DEFAULT_PRIMARY_Z_BITS,
            },
            luminance: DEFAULT_LUMINANCE_BITS,
            mie_k_coefficient: Vec3Bits {
                x: DEFAULT_MIE_K_X_BITS,
                y: DEFAULT_MIE_K_Y_BITS,
                z: DEFAULT_MIE_K_Z_BITS,
            },
            mie_coefficient: DEFAULT_MIE_COEFFICIENT_BITS,
            mie_directional_g: DEFAULT_MIE_DIRECTIONAL_G_BITS,
            mie_v: DEFAULT_MIE_V_BITS,
            mie_zenith_length: DEFAULT_MIE_ZENITH_LENGTH_BITS,
            num_molecules: DEFAULT_NUM_MOLECULES_BITS,
            rayleigh: DEFAULT_RAYLEIGH_BITS,
            rayleigh_zenith_length: DEFAULT_RAYLEIGH_ZENITH_LENGTH_BITS,
            turbidity: DEFAULT_TURBIDITY_BITS,
            refractive_index: DEFAULT_REFRACTIVE_INDEX_BITS,
            sun_position: Vec3Bits {
                x: DEFAULT_SUN_POSITION_X_BITS,
                y: DEFAULT_SUN_POSITION_Y_BITS,
                z: DEFAULT_SUN_POSITION_Z_BITS,
            },
            sun_angular_diameter_degrees: DEFAULT_SUN_ANGULAR_DIAMETER_BITS,
            sun_intensity_factor: DEFAULT_SUN_INTENSITY_FACTOR_BITS,
            sun_intensity_falloff_steepness: DEFAULT_SUN_INTENSITY_FALLOFF_BITS,
            tonemap_weighting: DEFAULT_TONEMAP_WEIGHTING_BITS,
            depolarization_factor: DEFAULT_DEPOLARIZATION_FACTOR_BITS,
        }
    }
}

} // verus!
