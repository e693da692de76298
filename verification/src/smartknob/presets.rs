//! The haptic modes.
//!
//! Decimal settings are whole numbers of a small unit: angles in nanodegrees,
//! strengths and snap fractions in thousandths.

use vstd::prelude::*;

verus! {

/// One haptic mode, as the panel shows it and the loop plays it.
#[derive(Debug)]
pub struct KnobConfig {
    /// Logical position when the mode is entered.
    pub position: i32,
    pub min_position: i32,
    /// Below `min_position`: unbounded, free spin without endstops.
    pub max_position: i32,
    /// Angle between detents.
    pub position_width_nanodeg: u64,
    pub detent_strength_milli: i32,
    pub endstop_strength_milli: i32,
    /// Fraction of the width to pass before snapping; at least one half.
    pub snap_point_milli: i32,
    pub snap_point_bias_milli: i32,
    /// If not empty, only these positions have a detent (magnetic detents).
    pub detent_positions: Vec<i32>,
    /// Two-line label of the mode button.
    pub text: String,
    /// Hue (0 to 255) of the dial accent.
    pub led_hue: i32,
}

/// A haptic mode as a mathematical value.
#[verifier::ext_equal]
pub struct KnobFeel {
    pub position: i32,
    pub min_position: i32,
    pub max_position: i32,
    pub position_width_nanodeg: u64,
    pub detent_strength_milli: i32,
    pub endstop_strength_milli: i32,
    pub snap_point_milli: i32,
    pub snap_point_bias_milli: i32,
    pub detent_positions: Seq<i32>,
    pub text: Seq<char>,
    pub led_hue: i32,
}

impl View for KnobConfig {
    type V = KnobFeel;

    open spec fn view(&self) -> KnobFeel {
        KnobFeel {
            position: self.position,
            min_position: self.min_position,
            max_position: self.max_position,
            position_width_nanodeg: self.position_width_nanodeg,
            detent_strength_milli: self.detent_strength_milli,
            endstop_strength_milli: self.endstop_strength_milli,
            snap_point_milli: self.snap_point_milli,
            snap_point_bias_milli: self.snap_point_bias_milli,
            detent_positions: self.detent_positions@,
            text: self.text@,
            led_hue: self.led_hue,
        }
    }
}

impl Clone for KnobConfig {
    fn clone(&self) -> (r: Self)
        ensures
            r@ == self@,
    {
        let detent_positions: Vec<i32> = self.detent_positions.clone();
        assert(detent_positions@ =~= self.detent_positions@);
        KnobConfig {
            position: self.position,
            min_position: self.min_position,
            max_position: self.max_position,
            position_width_nanodeg: self.position_width_nanodeg,
            detent_strength_milli: self.detent_strength_milli,
            endstop_strength_milli: self.endstop_strength_milli,
            snap_point_milli: self.snap_point_milli,
            snap_point_bias_milli: self.snap_point_bias_milli,
            detent_positions,
            text: self.text.clone(),
            led_hue: self.led_hue,
        }
    }
}

impl KnobFeel {
    /// The position has endstops.
    pub open spec fn bounded(self) -> bool {
        self.min_position <= self.max_position
    }

    /// The position may be taken in this mode.
    pub open spec fn allows(self, position: int) -> bool {
        self.bounded() ==> self.min_position <= position <= self.max_position
    }

    /// How many positions there are; 0 stands for unbounded.
    pub open spec fn count(self) -> int {
        if self.bounded() {
            self.max_position - self.min_position + 1
        } else {
            0
        }
    }

    /// The number of positions fits its counter.
    pub open spec fn countable(self) -> bool {
        self.max_position - self.min_position + 1 <= i32::MAX
    }

    /// Where the mode is entered: its own position, held within its bounds.
    pub open spec fn entry(self) -> int {
        if !self.bounded() {
            self.position as int
        } else if self.position < self.min_position {
            self.min_position as int
        } else if self.position > self.max_position {
            self.max_position as int
        } else {
            self.position as int
        }
    }

    /// Detents only at listed positions.
    pub open spec fn magnetic(self) -> bool {
        self.detent_positions.len() > 0
    }
}

/// How many modes there are.
pub const PRESETS: usize = 11;

/// The modes, in the order of the panel's buttons.
pub open spec fn presets() -> Seq<KnobFeel> {
    seq![
        KnobFeel {
            position: 0,
            min_position: 0,
            max_position: -1i32,
            position_width_nanodeg: 10_000_000_000,
            detent_strength_milli: 0,
            endstop_strength_milli: 1000,
            snap_point_milli: 1100,
            snap_point_bias_milli: 0,
            detent_positions: seq![],
            text: "Unbounded\nNo detents"@,
            led_hue: 200,
        },
        KnobFeel {
            position: 0,
            min_position: 0,
            max_position: 10,
            position_width_nanodeg: 10_000_000_000,
            detent_strength_milli: 0,
            endstop_strength_milli: 1000,
            snap_point_milli: 1100,
            snap_point_bias_milli: 0,
            detent_positions: seq![],
            text: "Bounded 0-10\nNo detents"@,
            led_hue: 0,
        },
        KnobFeel {
            position: 0,
            min_position: 0,
            max_position: 72,
            position_width_nanodeg: 10_000_000_000,
            detent_strength_milli: 0,
            endstop_strength_milli: 1000,
            snap_point_milli: 1100,
            snap_point_bias_milli: 0,
            detent_positions: seq![],
            text: "Multi-rev\nNo detents"@,
            led_hue: 73,
        },
        KnobFeel {
            position: 0,
            min_position: 0,
            max_position: 1,
            position_width_nanodeg: 60_000_000_000,
            detent_strength_milli: 1000,
            endstop_strength_milli: 1000,
            snap_point_milli: 550,
            snap_point_bias_milli: 0,
            detent_positions: seq![],
            text: "On/off\nStrong detent"@,
            led_hue: 157,
        },
        KnobFeel {
            position: 0,
            min_position: 0,
            max_position: 0,
            position_width_nanodeg: 60_000_000_000,
            detent_strength_milli: 10,
            endstop_strength_milli: 600,
            snap_point_milli: 1100,
            snap_point_bias_milli: 0,
            detent_positions: seq![],
            text: "Return-to-center"@,
            led_hue: 45,
        },
        KnobFeel {
            position: 127,
            min_position: 0,
            max_position: 255,
            position_width_nanodeg: 1_000_000_000,
            detent_strength_milli: 0,
            endstop_strength_milli: 1000,
            snap_point_milli: 1100,
            snap_point_bias_milli: 0,
            detent_positions: seq![],
            text: "Fine values\nNo detents"@,
            led_hue: 219,
        },
        KnobFeel {
            position: 127,
            min_position: 0,
            max_position: 255,
            position_width_nanodeg: 1_000_000_000,
            detent_strength_milli: 1000,
            endstop_strength_milli: 1000,
            snap_point_milli: 1100,
            snap_point_bias_milli: 0,
            detent_positions: seq![],
            text: "Fine values\nWith detents"@,
            led_hue: 25,
        },
        KnobFeel {
            position: 0,
            min_position: 0,
            max_position: 31,
            position_width_nanodeg: 8_225_806_452,
            detent_strength_milli: 2000,
            endstop_strength_milli: 1000,
            snap_point_milli: 1100,
            snap_point_bias_milli: 0,
            detent_positions: seq![],
            text: "Coarse values\nStrong detents"@,
            led_hue: 200,
        },
        KnobFeel {
            position: 0,
            min_position: 0,
            max_position: 31,
            position_width_nanodeg: 8_225_806_452,
            detent_strength_milli: 200,
            endstop_strength_milli: 1000,
            snap_point_milli: 1100,
            snap_point_bias_milli: 0,
            detent_positions: seq![],
            text: "Coarse values\nWeak detents"@,
            led_hue: 0,
        },
        KnobFeel {
            position: 0,
            min_position: 0,
            max_position: 31,
            position_width_nanodeg: 7_000_000_000,
            detent_strength_milli: 2500,
            endstop_strength_milli: 1000,
            snap_point_milli: 700,
            snap_point_bias_milli: 0,
            detent_positions: seq![2i32, 10i32, 21i32, 22i32],
            text: "Magnetic detents"@,
            led_hue: 73,
        },
        KnobFeel {
            position: 0,
            min_position: -6i32,
            max_position: 6,
            position_width_nanodeg: 60_000_000_000,
            detent_strength_milli: 1000,
            endstop_strength_milli: 1000,
            snap_point_milli: 550,
            snap_point_bias_milli: 400,
            detent_positions: seq![],
            text: "Return-to-center\nwith detents"@,
            led_hue: 157,
        },
    ]
}

/// The mode that a requested index stands for: the last one for any beyond it.
pub open spec fn selected(index: usize) -> usize {
    if index < PRESETS {
        index
    } else {
        (PRESETS - 1) as usize
    }
}

/// Executable form of [`selected`].
pub fn select(index: usize) -> (r: usize)
    ensures
        r == selected(index),
        r < PRESETS,
{
    if index < PRESETS {
        index
    } else {
        PRESETS - 1
    }
}

/// All modes.
pub fn preset_configs() -> (r: Vec<KnobConfig>)
    ensures
        r@.len() == PRESETS,
        r@.map_values(|c: KnobConfig| c@) == presets(),
{
    let r: Vec<KnobConfig> = vec![
        KnobConfig {
            position: 0,
            min_position: 0,
            max_position: -1,
            position_width_nanodeg: 10_000_000_000,
            detent_strength_milli: 0,
            endstop_strength_milli: 1000,
            snap_point_milli: 1100,
            snap_point_bias_milli: 0,
            detent_positions: Vec::new(),
            text: "Unbounded\nNo detents".to_string(),
            led_hue: 200,
        },
        KnobConfig {
            position: 0,
            min_position: 0,
            max_position: 10,
            position_width_nanodeg: 10_000_000_000,
            detent_strength_milli: 0,
            endstop_strength_milli: 1000,
            snap_point_milli: 1100,
            snap_point_bias_milli: 0,
            detent_positions: Vec::new(),
            text: "Bounded 0-10\nNo detents".to_string(),
            led_hue: 0,
        },
        KnobConfig {
            position: 0,
            min_position: 0,
            max_position: 72,
            position_width_nanodeg: 10_000_000_000,
            detent_strength_milli: 0,
            endstop_strength_milli: 1000,
            snap_point_milli: 1100,
            snap_point_bias_milli: 0,
            detent_positions: Vec::new(),
            text: "Multi-rev\nNo detents".to_string(),
            led_hue: 73,
        },
        KnobConfig {
            position: 0,
            min_position: 0,
            max_position: 1,
            position_width_nanodeg: 60_000_000_000,
            detent_strength_milli: 1000,
            endstop_strength_milli: 1000,
            snap_point_milli: 550,
            snap_point_bias_milli: 0,
            detent_positions: Vec::new(),
            text: "On/off\nStrong detent".to_string(),
            led_hue: 157,
        },
        KnobConfig {
            position: 0,
            min_position: 0,
            max_position: 0,
            position_width_nanodeg: 60_000_000_000,
            detent_strength_milli: 10,
            endstop_strength_milli: 600,
            snap_point_milli: 1100,
            snap_point_bias_milli: 0,
            detent_positions: Vec::new(),
            text: "Return-to-center".to_string(),
            led_hue: 45,
        },
        KnobConfig {
            position: 127,
            min_position: 0,
            max_position: 255,
            position_width_nanodeg: 1_000_000_000,
            detent_strength_milli: 0,
            endstop_strength_milli: 1000,
            snap_point_milli: 1100,
            snap_point_bias_milli: 0,
            detent_positions: Vec::new(),
            text: "Fine values\nNo detents".to_string(),
            led_hue: 219,
        },
        KnobConfig {
            position: 127,
            min_position: 0,
            max_position: 255,
            position_width_nanodeg: 1_000_000_000,
            detent_strength_milli: 1000,
            endstop_strength_milli: 1000,
            snap_point_milli: 1100,
            snap_point_bias_milli: 0,
            detent_positions: Vec::new(),
            text: "Fine values\nWith detents".to_string(),
            led_hue: 25,
        },
        KnobConfig {
            position: 0,
            min_position: 0,
            max_position: 31,
            position_width_nanodeg: 8_225_806_452,
            detent_strength_milli: 2000,
            endstop_strength_milli: 1000,
            snap_point_milli: 1100,
            snap_point_bias_milli: 0,
            detent_positions: Vec::new(),
            text: "Coarse values\nStrong detents".to_string(),
            led_hue: 200,
        },
        KnobConfig {
            position: 0,
            min_position: 0,
            max_position: 31,
            position_width_nanodeg: 8_225_806_452,
            detent_strength_milli: 200,
            endstop_strength_milli: 1000,
            snap_point_milli: 1100,
            snap_point_bias_milli: 0,
            detent_positions: Vec::new(),
            text: "Coarse values\nWeak detents".to_string(),
            led_hue: 0,
        },
        KnobConfig {
            position: 0,
            min_position: 0,
            max_position: 31,
            position_width_nanodeg: 7_000_000_000,
            detent_strength_milli: 2500,
            endstop_strength_milli: 1000,
            snap_point_milli: 700,
            snap_point_bias_milli: 0,
            detent_positions: vec![2i32, 10i32, 21i32, 22i32],
            text: "Magnetic detents".to_string(),
            led_hue: 73,
        },
        KnobConfig {
            position: 0,
            min_position: -6,
            max_position: 6,
            position_width_nanodeg: 60_000_000_000,
            detent_strength_milli: 1000,
            endstop_strength_milli: 1000,
            snap_point_milli: 550,
            snap_point_bias_milli: 400,
            detent_positions: Vec::new(),
            text: "Return-to-center\nwith detents".to_string(),
            led_hue: 157,
        },
    ];
    proof {
        let s = r@.map_values(|c: KnobConfig| c@);
        assert forall|i: int| 0 <= i < PRESETS implies s[i] == presets()[i] by {
            assert(s[i].detent_positions =~= presets()[i].detent_positions);
        }
        assert(s =~= presets());
    }
    r
}

/// Every mode starts inside its own bounds, demands at least half a width to
/// snap, and has a width.
pub proof fn presets_are_sound(i: int)
    requires
        0 <= i < PRESETS,
    ensures
        ({
            let p = presets()[i];
            &&& p.allows(p.position as int)
            &&& p.entry() == p.position
            &&& p.countable()
            &&& p.snap_point_milli >= 500
            &&& p.snap_point_bias_milli >= 0
            &&& p.position_width_nanodeg > 0
        }),
{
}

} // verus!
