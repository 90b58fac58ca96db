//! Force-directed layout: its parameters, the plan of the forces of a step,
//! and the state of a run.
//!
//! A step of the layout is computed in two halves. This crate decides which
//! forces act between which nodes and what a step may change; the caller
//! evaluates the forces in floating point and hands the resulting motions
//! back.

pub mod force;
pub mod simulation;

use crate::scalar::Scalar;
use vstd::prelude::*;

verus! {

/// The encoding of 1.0, the default start energy and strengths.
pub const DEFAULT_ALPHA_BITS: u64 = 0x3FF0_0000_0000_0000;

/// The encoding of 0.0228, the default decay of the energy per step.
pub const DEFAULT_ALPHA_DECAY_BITS: u64 = 0x3F97_58E2_1965_2BD4;

/// The encoding of 0.001, the default energy below which a run is over.
pub const DEFAULT_ALPHA_MIN_BITS: u64 = 0x3F50_624D_D2F1_A9FC;

/// The encoding of 0.6, the default damping of velocities.
pub const DEFAULT_VELOCITY_DECAY_BITS: u64 = 0x3FE3_3333_3333_3333;

/// The encoding of 30.0, the default length of a link at rest.
pub const DEFAULT_LINK_DISTANCE_BITS: u64 = 0x403E_0000_0000_0000;

/// The encoding of -30.0, the default charge; a negative charge repels.
pub const DEFAULT_CHARGE_STRENGTH_BITS: u64 = 0xC03E_0000_0000_0000;

/// The parameters of a force-directed layout.
#[derive(Debug, Clone, Copy, PartialEq)]
pub struct LayoutConfig {
    /// The energy a run starts with.
    pub alpha: Scalar,
    /// The fraction of the energy lost in each step.
    pub alpha_decay: Scalar,
    /// The energy below which a run is over.
    pub alpha_min: Scalar,
    /// The factor that damps velocities in each step.
    pub velocity_decay: Scalar,
    /// The length of a link at rest.
    pub link_distance: Scalar,
    /// The stiffness of links.
    pub link_strength: Scalar,
    /// The charge of nodes; a negative charge repels.
    pub charge_strength: Scalar,
    /// The strength of the pull towards the centre.
    pub center_strength: Scalar,
    /// The centre.
    pub center: (Scalar, Scalar),
}

impl LayoutConfig {
    /// The default parameters: energy 1.0 decaying by 0.0228 per step down
    /// to 0.001, damping 0.6, links of length 30.0 and strength 1.0, charge
    /// -30.0, and a pull of strength 1.0 towards the origin.
    pub open spec fn standard() -> LayoutConfig {
        LayoutConfig {
            alpha: Scalar { bits: DEFAULT_ALPHA_BITS },
            alpha_decay: Scalar { bits: DEFAULT_ALPHA_DECAY_BITS },
            alpha_min: Scalar { bits: DEFAULT_ALPHA_MIN_BITS },
            velocity_decay: Scalar { bits: DEFAULT_VELOCITY_DECAY_BITS },
            link_distance: Scalar { bits: DEFAULT_LINK_DISTANCE_BITS },
            link_strength: Scalar { bits: DEFAULT_ALPHA_BITS },
            charge_strength: Scalar { bits: DEFAULT_CHARGE_STRENGTH_BITS },
            center_strength: Scalar { bits: DEFAULT_ALPHA_BITS },
            center: (Scalar { bits: 0 }, Scalar { bits: 0 }),
        }
    }
}

impl Default for LayoutConfig {
    fn default() -> (c: LayoutConfig)
        ensures
            c == LayoutConfig::standard(),
    {
        LayoutConfig {
            alpha: Scalar::from_bits(DEFAULT_ALPHA_BITS),
            alpha_decay: Scalar::from_bits(DEFAULT_ALPHA_DECAY_BITS),
            alpha_min: Scalar::from_bits(DEFAULT_ALPHA_MIN_BITS),
            velocity_decay: Scalar::from_bits(DEFAULT_VELOCITY_DECAY_BITS),
            link_distance: Scalar::from_bits(DEFAULT_LINK_DISTANCE_BITS),
            link_strength: Scalar::from_bits(DEFAULT_ALPHA_BITS),
            charge_strength: Scalar::from_bits(DEFAULT_CHARGE_STRENGTH_BITS),
            center_strength: Scalar::from_bits(DEFAULT_ALPHA_BITS),
            center: (Scalar::from_bits(0), Scalar::from_bits(0)),
        }
    }
}

} // verus!
