//! Catalog of the synthesizer's multi-effect (M-FX) programs.

use vstd::prelude::*;

verus! {

/// Symbolic identifier for one multi-effect program of the synthesizer's
/// catalog. Each variant maps to a fixed two-byte protocol value.
#[derive(Copy, Clone, Debug)]
pub enum MFXType {
    Thru,
    StereoEQ,
    Spectrum,
    Enhancer,
    Humanizer,
    Overdrive,
    Distortion,
    LoFi1,
    LoFi2,
}

/// The two-byte protocol value that selects an effect type on the wire.
pub open spec fn mfx_value(t: MFXType) -> Seq<u8> {
    match t {
        MFXType::Thru => seq![0x00u8, 0x00u8],
        MFXType::StereoEQ => seq![0x01u8, 0x00u8],
        MFXType::Spectrum => seq![0x01u8, 0x01u8],
        MFXType::Enhancer => seq![0x01u8, 0x02u8],
        MFXType::Humanizer => seq![0x01u8, 0x03u8],
        MFXType::Overdrive => seq![0x01u8, 0x10u8],
        MFXType::Distortion => seq![0x01u8, 0x11u8],
        MFXType::LoFi1 => seq![0x01u8, 0x72u8],
        MFXType::LoFi2 => seq![0x01u8, 0x73u8],
    }
}

impl MFXType {
    /// The two-byte value that selects this effect type on the wire.
    pub fn value(&self) -> (r: [u8; 2])
        ensures
            r@ == mfx_value(*self),
    {
        match *self {
            MFXType::Thru => [0x00, 0x00],
            MFXType::StereoEQ => [0x01, 0x00],
            MFXType::Spectrum => [0x01, 0x01],
            MFXType::Enhancer => [0x01, 0x02],
            MFXType::Humanizer => [0x01, 0x03],
            MFXType::Overdrive => [0x01, 0x10],
            MFXType::Distortion => [0x01, 0x11],
            MFXType::LoFi1 => [0x01, 0x72],
            MFXType::LoFi2 => [0x01, 0x73],
        }
    }
}

} // verus!
