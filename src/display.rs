//! Panel variants: extents, graphics RAM offsets and the model-specific
//! initialisation sequence.

use crate::command::{
    wire_all, Command, DINVMode, Dbi, Dpi, GSMode, Gamma1, Gamma2, Gamma3, Gamma4, Logical, SSMode,
};
use crate::rotation::DisplayRotation;
use crate::wire::Step;
use vstd::prelude::*;

verus! {

/// The extents of a panel and where it sits in the controller's graphics RAM.
#[derive(Debug, Clone, Copy, PartialEq, Eq, Structural)]
pub struct Geometry {
    /// Visible pixels per native row.
    pub width: u16,
    /// Visible native rows.
    pub height: u16,
    /// First graphics RAM column of the visible area.
    pub offset_x: u16,
    /// First graphics RAM row of the visible area.
    pub offset_y: u16,
    /// Columns of the graphics RAM.
    pub cols: u16,
    /// Rows of the graphics RAM.
    pub rows: u16,
}

impl Geometry {
    /// A non-empty visible area that lies inside the graphics RAM.
    pub open spec fn wf(self) -> bool {
        &&& 0 < self.width
        &&& 0 < self.height
        &&& self.offset_x + self.width <= self.cols
        &&& self.offset_y + self.height <= self.rows
    }

    /// Number of pixels of the panel.
    pub open spec fn pixel_count(self) -> nat {
        (self.width * self.height) as nat
    }

    /// Logical extents `(x, y)` under `rotation`: a quarter turn swaps them.
    pub open spec fn extents(self, rotation: DisplayRotation) -> (u16, u16) {
        if rotation.swaps_axes() {
            (self.height, self.width)
        } else {
            (self.width, self.height)
        }
    }

    /// Graphics RAM column of logical column `0` under `rotation`: the scan
    /// direction decides which edge the offset is taken from.
    pub open spec fn column_offset(self, rotation: DisplayRotation) -> int {
        match rotation {
            DisplayRotation::Rotate0 | DisplayRotation::Rotate270 => self.offset_x as int,
            DisplayRotation::Rotate90 | DisplayRotation::Rotate180 => self.cols - self.width
                - self.offset_x,
        }
    }
}

/// A panel variant that the driver can run.
pub trait DisplayDefinition {
    /// Extents and offsets of this panel.
    spec fn spec_geometry(&self) -> Geometry;

    /// The steps of this panel's initialisation sequence.
    spec fn spec_configuration(&self) -> Seq<Step>;

    /// Extents and offsets of this panel.
    fn geometry(&self) -> (g: Geometry)
        ensures
            g == self.spec_geometry(),
            g.wf(),
    ;

    /// Appends this panel's initialisation sequence to `out`.
    fn configure(&self, out: &mut Vec<Step>)
        ensures
            final(out)@ == old(out)@ + self.spec_configuration(),
    ;
}

/// The round 240 x 240 panel.
#[derive(Debug, Copy, Clone)]
pub struct DisplayResolution240x240;

/// The gamma coefficients of the 240 x 240 panel, negative polarity, first group.
pub open spec fn gamma1_240() -> Gamma1 {
    Gamma1 {
        dig2j0_n: 0b1,
        vr1_n: 0b00_0101,
        dig2j1_n: 0b0,
        vr2_n: 0b00_1001,
        vr4_n: 0b1000,
        vr6_n: 0b1000,
        vr0_n: 0b10,
        vr13_n: 0b0110,
        vr20_n: 0b10_1010,
    }
}

/// The gamma coefficients of the 240 x 240 panel, negative polarity, second group.
pub open spec fn gamma2_240() -> Gamma2 {
    Gamma2 {
        vr43_n: 0b100_0011,
        vr27_n: 0b11,
        vr57_n: 0b1_0000,
        vr36_n: 0b11,
        vr59_n: 0b1_0010,
        vr61_n: 0b11_0110,
        vr62_n: 0b11_0111,
        vr50_n: 0b110,
        vr63_n: 0b1111,
    }
}

/// The gamma coefficients of the 240 x 240 panel, positive polarity, first group.
pub open spec fn gamma3_240() -> Gamma3 {
    Gamma3 {
        dig2j0_p: 0b1,
        vr1_p: 0b00_0101,
        dig2j1_p: 0b0,
        vr2_p: 0b00_1001,
        vr4_p: 0b1000,
        vr6_p: 0b1000,
        vr0_p: 0b10,
        vr13_p: 0b0110,
        vr20_p: 0b10_1010,
    }
}

/// The gamma coefficients of the 240 x 240 panel, positive polarity, second group.
pub open spec fn gamma4_240() -> Gamma4 {
    Gamma4 {
        vr43_p: 0b100_0011,
        vr27_p: 0b11,
        vr57_p: 0b1_0000,
        vr36_p: 0b11,
        vr59_p: 0b1_0010,
        vr61_p: 0b11_0110,
        vr62_p: 0b11_0111,
        vr50_p: 0b110,
        vr63_p: 0b1111,
    }
}

/// The register commands of the 240 x 240 panel's initialisation, in order;
/// the last one leaves sleep mode.
pub open spec fn init_commands_240() -> Seq<Command> {
    seq![
        Command::InnerRegisterEnable1,
        Command::InnerRegisterEnable2,
        Command::DispalyFunctionControl(GSMode::G1toG32, SSMode::S1toS360, 0, 0),
        Command::MemoryAccessControl(
            Logical::Off,
            Logical::Off,
            Logical::Off,
            Logical::On,
            Logical::On,
            Logical::Off,
        ),
        Command::PixelFormatSet(Dbi::Pixel16bits, Dpi::Pixel16bits),
        Command::Vreg1aVoltageControl(0x13),
        Command::Vreg1bVoltageControl(0x13),
        Command::Vreg2aVoltageControl(0x22),
        Command::SetGamma1(gamma1_240()),
        Command::SetGamma2(gamma2_240()),
        Command::SetGamma3(gamma3_240()),
        Command::SetGamma4(gamma4_240()),
        Command::FrameRate(DINVMode::Inversion8Dot),
        Command::DisplayInversion(Logical::On),
        Command::SetUndocumented066h,
        Command::SetUndocumented067h,
        Command::SetUndocumented074h,
        Command::SetUndocumented098h,
        Command::TearingEffectLine(Logical::On),
        Command::DisplayInversion(Logical::On),
        Command::SleepMode(Logical::Off),
    ]
}

impl DisplayDefinition for DisplayResolution240x240 {
    open spec fn spec_geometry(&self) -> Geometry {
        Geometry { width: 240, height: 240, offset_x: 0, offset_y: 0, cols: 240, rows: 240 }
    }

    /// The register commands, then the 120 ms the controller needs after
    /// leaving sleep mode.
    open spec fn spec_configuration(&self) -> Seq<Step> {
        wire_all(init_commands_240()).push(Step::DelayMs(120))
    }

    fn geometry(&self) -> (g: Geometry) {
        Geometry { width: 240, height: 240, offset_x: 0, offset_y: 0, cols: 240, rows: 240 }
    }

    fn configure(&self, out: &mut Vec<Step>) {
        let commands = vec![
            Command::InnerRegisterEnable1,
            Command::InnerRegisterEnable2,
            Command::DispalyFunctionControl(GSMode::G1toG32, SSMode::S1toS360, 0, 0),
            Command::MemoryAccessControl(
                Logical::Off,
                Logical::Off,
                Logical::Off,
                Logical::On,
                Logical::On,
                Logical::Off,
            ),
            Command::PixelFormatSet(Dbi::Pixel16bits, Dpi::Pixel16bits),
            Command::Vreg1aVoltageControl(0x13),
            Command::Vreg1bVoltageControl(0x13),
            Command::Vreg2aVoltageControl(0x22),
            Command::SetGamma1(
                Gamma1 {
                    dig2j0_n: 0b1,
                    vr1_n: 0b00_0101,
                    dig2j1_n: 0b0,
                    vr2_n: 0b00_1001,
                    vr4_n: 0b1000,
                    vr6_n: 0b1000,
                    vr0_n: 0b10,
                    vr13_n: 0b0110,
                    vr20_n: 0b10_1010,
                },
            ),
            Command::SetGamma2(
                Gamma2 {
                    vr43_n: 0b100_0011,
                    vr27_n: 0b11,
                    vr57_n: 0b1_0000,
                    vr36_n: 0b11,
                    vr59_n: 0b1_0010,
                    vr61_n: 0b11_0110,
                    vr62_n: 0b11_0111,
                    vr50_n: 0b110,
                    vr63_n: 0b1111,
                },
            ),
            Command::SetGamma3(
                Gamma3 {
                    dig2j0_p: 0b1,
                    vr1_p: 0b00_0101,
                    dig2j1_p: 0b0,
                    vr2_p: 0b00_1001,
                    vr4_p: 0b1000,
                    vr6_p: 0b1000,
                    vr0_p: 0b10,
                    vr13_p: 0b0110,
                    vr20_p: 0b10_1010,
                },
            ),
            Command::SetGamma4(
                Gamma4 {
                    vr43_p: 0b100_0011,
                    vr27_p: 0b11,
                    vr57_p: 0b1_0000,
                    vr36_p: 0b11,
                    vr59_p: 0b1_0010,
                    vr61_p: 0b11_0110,
                    vr62_p: 0b11_0111,
                    vr50_p: 0b110,
                    vr63_p: 0b1111,
                },
            ),
            Command::FrameRate(DINVMode::Inversion8Dot),
            Command::DisplayInversion(Logical::On),
            Command::SetUndocumented066h,
            Command::SetUndocumented067h,
            Command::SetUndocumented074h,
            Command::SetUndocumented098h,
            Command::TearingEffectLine(Logical::On),
            Command::DisplayInversion(Logical::On),
            Command::SleepMode(Logical::Off),
        ];
        assert(commands@ =~= init_commands_240());
        crate::command::send_all(commands.as_slice(), out);
        out.push(Step::DelayMs(120));
    }
}

} // verus!
