//! The controller's instruction set and its exact wire encoding.

mod params;

pub use params::{
    DEPolarity, DINVMode, DMMode, DOTClk, Data2EN, DataFormatMDT, Dbi, Dpi, GSMode, Logical,
    RCMMode, RIMMode, RMMode, SSMode, TEPolarity, VCIRe, VddAd, XSpl,
};

use crate::wire::{data_steps, Step};
use vstd::prelude::*;

verus! {

/// Gamma curve coefficients, negative polarity; each field is cut to the width the chip reads.
#[derive(Debug, Copy, Clone, PartialEq, Eq, Structural)]
pub struct Gamma1 {
    /// dig2gam_dig2j0_n
    pub dig2j0_n: u8,
    /// dig2gam_vr1_n
    pub vr1_n: u8,
    /// dig2gam_dig2j1_n
    pub dig2j1_n: u8,
    /// dig2gam_vr2_n
    pub vr2_n: u8,
    /// dig2gam_vr4_n
    pub vr4_n: u8,
    /// dig2gam_vr6_n
    pub vr6_n: u8,
    /// dig2gam_vr0_n
    pub vr0_n: u8,
    /// dig2gam_vr13_n
    pub vr13_n: u8,
    /// dig2gam_vr20_n
    pub vr20_n: u8,
}

/// Gamma curve coefficients, negative polarity; each field is cut to the width the chip reads.
#[derive(Debug, Copy, Clone, PartialEq, Eq, Structural)]
pub struct Gamma2 {
    /// dig2gam_vr43_n
    pub vr43_n: u8,
    /// dig2gam_vr27_n
    pub vr27_n: u8,
    /// dig2gam_vr57_n
    pub vr57_n: u8,
    /// dig2gam_vr36_n
    pub vr36_n: u8,
    /// dig2gam_vr59_n
    pub vr59_n: u8,
    /// dig2gam_vr61_n
    pub vr61_n: u8,
    /// dig2gam_vr62_n
    pub vr62_n: u8,
    /// dig2gam_vr50_n
    pub vr50_n: u8,
    /// dig2gam_vr63_n
    pub vr63_n: u8,
}

/// Gamma curve coefficients, positive polarity; each field is cut to the width the chip reads.
#[derive(Debug, Copy, Clone, PartialEq, Eq, Structural)]
pub struct Gamma3 {
    /// dig2gam_dig2j0_p
    pub dig2j0_p: u8,
    /// dig2gam_vr1_p
    pub vr1_p: u8,
    /// dig2gam_dig2j1_p
    pub dig2j1_p: u8,
    /// dig2gam_vr2_p
    pub vr2_p: u8,
    /// dig2gam_vr4_p
    pub vr4_p: u8,
    /// dig2gam_vr6_p
    pub vr6_p: u8,
    /// dig2gam_vr0_p
    pub vr0_p: u8,
    /// dig2gam_vr13_p
    pub vr13_p: u8,
    /// dig2gam_vr20_p
    pub vr20_p: u8,
}

/// Gamma curve coefficients, positive polarity; each field is cut to the width the chip reads.
#[derive(Debug, Copy, Clone, PartialEq, Eq, Structural)]
pub struct Gamma4 {
    /// dig2gam_vr43_p
    pub vr43_p: u8,
    /// dig2gam_vr27_p
    pub vr27_p: u8,
    /// dig2gam_vr57_p
    pub vr57_p: u8,
    /// dig2gam_vr36_p
    pub vr36_p: u8,
    /// dig2gam_vr59_p
    pub vr59_p: u8,
    /// dig2gam_vr61_p
    pub vr61_p: u8,
    /// dig2gam_vr62_p
    pub vr62_p: u8,
    /// dig2gam_vr50_p
    pub vr50_p: u8,
    /// dig2gam_vr63_p
    pub vr63_p: u8,
}

/// One instruction of the controller with its typed parameters.
#[derive(Debug, Copy, Clone, PartialEq, Eq, Structural)]
pub enum Command {
    /// Sleep in (`10h`) for `On`, sleep out (`11h`) for `Off`.
///
    /// Wait 5 ms after sleep in and 120 ms after sleep out before the next command.
    SleepMode(Logical),
    /// Partial mode on (`12h`).
    PartialMode,
    /// Normal display mode on (`13h`), which ends partial mode.
    NormalDisplayMode,
    /// Display inversion off (`20h`) or on (`21h`).
    DisplayInversion(Logical),
    /// Display off (`28h`) or on (`29h`).
    DisplayState(Logical),
    /// Column address set (`2Ah`): start and end column, inclusive, big-endian.
    ColumnAddressSet(u16, u16),
    /// Row address set (`2Bh`): start and end row, inclusive, big-endian.
    RowAddressSet(u16, u16),
    /// Vertical scrolling definition (`33h`): top fixed area and scrolling area height.
    VertialScrollDef(u16, u16),
    /// Tearing effect line off (`34h`) or on (`35h`).
    TearingEffectLine(Logical),
    /// Memory access control (`36h`): row order, column order, row/column exchange,
    /// vertical refresh order, BGR order and horizontal refresh order, packed from
    /// bit 7 down to bit 2.
    MemoryAccessControl(Logical, Logical, Logical, Logical, Logical, Logical),
    /// Vertical scrolling start address (`37h`), big-endian.
    VerticalScrollStartAddresss(u16),
    /// Idle mode off (`38h`) or on (`39h`).
    IdleMode(Logical),
    /// Pixel format set (`3Ah`): the RGB interface format in the high nibble, the
    /// MCU interface format in the low one.
    PixelFormatSet(Dbi, Dpi),
    /// Set tear scanline (`44h`): the line `sts + 8` as bit 8 and the low byte.
    SetTearScanline(u16),
    /// Write display brightness (`51h`).
    DisplayBrightness(u8),
    /// Write CTRL display (`53h`): brightness control block (bit 5), display
    /// dimming (bit 3) and backlight (bit 2).
    CtrlDisplay(Logical, Logical, Logical),
    /// RGB interface signal control (`B0h`): DE polarity, DOTCLK polarity, HSYNC
    /// and VSYNC polarity in bits 0 to 3, interface selection in bits 5 and 6.
    RGBInterfaceSignalCtrl(DEPolarity, DOTClk, XSpl, XSpl, RCMMode),
    /// Blanking porch control (`B5h`): vertical front porch, vertical back porch
    /// (7 bits) and horizontal back porch (5 bits).
    BlankingPorchControl(u8, u8, u8),
    /// Display function control (`B6h`): gate scan direction (bit 6), source
    /// shift direction (bit 5), gate pin arrangement (bit 4), then the number of
    /// lines (5 bits).
    DispalyFunctionControl(GSMode, SSMode, u8, u8),
    /// TE control (`BAh`): pulse polarity in bit 7, pulse width in 7 bits.
    TEControl(TEPolarity, u8),
    /// Interface control (`F6h`): operation mode (bits 2 and 3), RAM access
    /// interface (bit 1) and RGB interface mode (bit 0).
    Interface(DMMode, RMMode, RIMMode),
    /// Power criterion control (`C1h`): reference voltage source in bit 1.
    PowerCriterioControl(VCIRe),
    /// VCORE voltage control (`A7h`): bit 6 set, the level in the low nibble.
    VCoreVoltageControl(VddAd),
    /// VREG1A voltage control (`C3h`).
    Vreg1aVoltageControl(u8),
    /// VREG1B voltage control (`C4h`).
    Vreg1bVoltageControl(u8),
    /// VREG2A voltage control (`C9h`).
    Vreg2aVoltageControl(u8),
    /// Frame rate (`E8h`): the inversion mode in bits 4 to 6.
    FrameRate(DINVMode),
    /// SPI two data line control (`E9h`): enable in bit 3, the format in bits 0
    /// to 2, then a zero byte.
    Spi2dataControl(Data2EN, DataFormatMDT),
    /// Charge pump frequency control (`ECh`): AVDD and AVEE clocks (3 bits
    /// each) in one byte, VCL clock (3 bits), VGH and VGL clocks (4 bits each).
    ChargePumpFrequentControl(u8, u8, u8, u8, u8),
    /// Inner register enable 1 (`FEh`); with enable 2 right after, it opens the
    /// inner commands until the next reset.
    InnerRegisterEnable1,
    /// Inner register enable 2 (`EFh`).
    InnerRegisterEnable2,
    /// Set gamma 1 (`F0h`): negative polarity curve, each field cut to its width.
    SetGamma1(Gamma1),
    /// Set gamma 2 (`F1h`): negative polarity curve, each field cut to its width.
    SetGamma2(Gamma2),
    /// Set gamma 3 (`F2h`): positive polarity curve, each field cut to its width.
    SetGamma3(Gamma3),
    /// Set gamma 4 (`F3h`): positive polarity curve, each field cut to its width.
    SetGamma4(Gamma4),
    /// Vendor register `BEh` with its fixed calibration payload.
    SetUndocumented0BEh,
    /// Vendor register `BCh` with its fixed calibration payload.
    SetUndocumented0BCh,
    /// Vendor register `BDh` with its fixed calibration payload.
    SetUndocumented0BDh,
    /// Vendor register `E1h` with its fixed calibration payload.
    SetUndocumented0E1h,
    /// Vendor register `DFh` with its fixed calibration payload.
    SetUndocumented0DFh,
    /// Vendor register `EDh` with its fixed calibration payload.
    SetUndocumented0EDh,
    /// Vendor register `AEh` with its fixed calibration payload.
    SetUndocumented0AEh,
    /// Vendor register `CDh` with its fixed calibration payload.
    SetUndocumented0CDh,
    /// Vendor register `70h` with its fixed calibration payload.
    SetUndocumented070h,
    /// Vendor register `FFh` with its fixed calibration payload.
    SetUndocumented0FFh,
    /// Vendor register `90h` with its fixed calibration payload.
    SetUndocumented090h,
    /// Vendor register `62h` with its fixed calibration payload.
    SetUndocumented062h,
    /// Vendor register `63h` with its fixed calibration payload.
    SetUndocumented063h,
    /// Vendor register `64h` with its fixed calibration payload.
    SetUndocumented064h,
    /// Vendor register `66h` with its fixed calibration payload.
    SetUndocumented066h,
    /// Vendor register `67h` with its fixed calibration payload.
    SetUndocumented067h,
    /// Vendor register `74h` with its fixed calibration payload.
    SetUndocumented074h,
    /// Vendor register `98h` with its fixed calibration payload.
    SetUndocumented098h,
    /// Vendor register `EBh` with one configurable byte.
    SetUndocumented0EBh(u8),
    /// Vendor register `84h` with one configurable byte.
    SetUndocumented084h(u8),
    /// Vendor register `85h` with one configurable byte.
    SetUndocumented085h(u8),
    /// Vendor register `86h` with one configurable byte.
    SetUndocumented086h(u8),
    /// Vendor register `87h` with one configurable byte.
    SetUndocumented087h(u8),
    /// Vendor register `88h` with one configurable byte.
    SetUndocumented088h(u8),
    /// Vendor register `89h` with one configurable byte.
    SetUndocumented089h(u8),
    /// Vendor register `8Ah` with one configurable byte.
    SetUndocumented08Ah(u8),
    /// Vendor register `8Bh` with one configurable byte.
    SetUndocumented08Bh(u8),
    /// Vendor register `8Ch` with one configurable byte.
    SetUndocumented08Ch(u8),
    /// Vendor register `8Dh` with one configurable byte.
    SetUndocumented08Dh(u8),
    /// Vendor register `8Eh` with one configurable byte.
    SetUndocumented08Eh(u8),
    /// Vendor register `8Fh` with one configurable byte.
    SetUndocumented08Fh(u8),
    /// Memory write (`2Ch`): the pixel data that follows fills the address window
    /// from its start.
    MemoryWrite,
    /// Memory write continue (`3Ch`): the pixel data that follows continues after
    /// the last pixel written.
    MemoryWriteContinue,
}

/// `v` as two bytes, most significant first.
fn be16(v: u16) -> (r: Vec<u8>)
    ensures
        r@ == seq![(v / 256) as u8, (v % 256) as u8],
{
    let hi = (v >> 8) as u8;
    let lo = (v & 0xFF) as u8;
    assert(hi == (v / 256) as u8 && lo == (v % 256) as u8) by (bit_vector)
        requires
            hi == (v >> 8) as u8,
            lo == (v & 0xFF) as u8,
    ;
    vec![hi, lo]
}

/// `a` then `b`, each as two bytes, most significant first.
fn be16_pair(a: u16, b: u16) -> (r: Vec<u8>)
    ensures
        r@ == seq![(a / 256) as u8, (a % 256) as u8, (b / 256) as u8, (b % 256) as u8],
{
    let mut r = be16(a);
    let mut tail = be16(b);
    r.append(&mut tail);
    r
}

/// The tear line `sts + 8`: its bit 8, then its low byte.
fn tear_scanline(sts: u16) -> (r: Vec<u8>)
    ensures
        r@ == seq![((sts as u32 + 8) / 256 % 2) as u8, ((sts as u32 + 8) % 256) as u8],
{
    let line = sts as u32 + 8;
    let hi = ((line & 0x100) >> 8) as u8;
    let lo = (line & 0xFF) as u8;
    assert(hi == (line / 256 % 2) as u8 && lo == (line % 256) as u8) by (bit_vector)
        requires
            hi == ((line & 0x100) >> 8) as u8,
            lo == (line & 0xFF) as u8,
    ;
    vec![hi, lo]
}

impl Command {
    /// The opcode and the parameter bytes of this command, as the datasheet
    /// lays them out.
    pub open spec fn encoding(self) -> (u8, Seq<u8>) {
        match self {
            Command::SleepMode(level) => (
                match level { Logical::Off => 0x11u8, Logical::On => 0x10u8 },
                Seq::empty(),
            ),
            Command::PartialMode => (0x12, Seq::empty()),
            Command::NormalDisplayMode => (0x13, Seq::empty()),
            Command::DisplayInversion(level) => ((0x20 + level.bits()) as u8, Seq::empty()),
            Command::DisplayState(level) => ((0x28 + level.bits()) as u8, Seq::empty()),
            Command::ColumnAddressSet(sc, ec) => (
                0x2A,
                seq![(sc / 256) as u8, (sc % 256) as u8, (ec / 256) as u8, (ec % 256) as u8],
            ),
            Command::RowAddressSet(sp, ep) => (
                0x2B,
                seq![(sp / 256) as u8, (sp % 256) as u8, (ep / 256) as u8, (ep % 256) as u8],
            ),
            Command::VertialScrollDef(tfa, vsa) => (
                0x33,
                seq![(tfa / 256) as u8, (tfa % 256) as u8, (vsa / 256) as u8, (vsa % 256) as u8],
            ),
            Command::TearingEffectLine(mode) => ((0x34 + mode.bits()) as u8, Seq::empty()),
            Command::MemoryAccessControl(my, mx, mv, ml, bgr, mh) => (
                0x36,
                seq![
                    (my.bits() * 128 + mx.bits() * 64 + mv.bits() * 32 + ml.bits() * 16
                        + bgr.bits() * 8
                        + mh.bits() * 4) as u8,
                ],
            ),
            Command::VerticalScrollStartAddresss(vsp) => (
                0x37,
                seq![(vsp / 256) as u8, (vsp % 256) as u8],
            ),
            Command::IdleMode(mode) => ((0x38 + mode.bits()) as u8, Seq::empty()),
            Command::PixelFormatSet(dbi, dpi) => (0x3A, seq![(dpi.bits() * 16 + dbi.bits()) as u8]),
            Command::SetTearScanline(sts) => (
                0x44,
                seq![((sts as u32 + 8) / 256 % 2) as u8, ((sts as u32 + 8) % 256) as u8],
            ),
            Command::DisplayBrightness(dbv) => (0x51, seq![dbv]),
            Command::CtrlDisplay(bctrl, dd, bl) => (
                0x53,
                seq![(bctrl.bits() * 32 + dd.bits() * 8 + bl.bits() * 4) as u8],
            ),
            Command::RGBInterfaceSignalCtrl(epl, dpl, hsp, vsp, rcm) => (
                0xB0,
                seq![
                    (epl.bits() + dpl.bits() * 2 + hsp.bits() * 4 + vsp.bits() * 8
                        + rcm.bits() * 32) as u8,
                ],
            ),
            Command::BlankingPorchControl(vfp, vbp, hbp) => (
                0xB5,
                seq![vfp, (vbp % 128) as u8, (hbp % 32) as u8],
            ),
            Command::DispalyFunctionControl(gs, ss, sm, nl) => (
                0xB6,
                seq![(gs.bits() * 64 + ss.bits() * 32 + sm % 2 * 16) as u8, (nl % 32) as u8],
            ),
            Command::TEControl(te_pol, te_width) => (
                0xBA,
                seq![(te_pol.bits() * 128 + te_width % 128) as u8],
            ),
            Command::Interface(dm, rm, rim) => (
                0xF6,
                seq![(dm.bits() * 4 + rm.bits() * 2 + rim.bits()) as u8],
            ),
            Command::PowerCriterioControl(vcire) => (0xC1, seq![(vcire.bits() * 2) as u8]),
            Command::VCoreVoltageControl(vddad) => (0xA7, seq![(0x40 + vddad.bits()) as u8]),
            Command::Vreg1aVoltageControl(value) => (0xC3, seq![value]),
            Command::Vreg1bVoltageControl(value) => (0xC4, seq![value]),
            Command::Vreg2aVoltageControl(value) => (0xC9, seq![value]),
            Command::FrameRate(dinv) => (0xE8, seq![(dinv.bits() * 16) as u8]),
            Command::Spi2dataControl(data2_en, data_format) => (
                0xE9,
                seq![(data2_en.bits() * 8 + data_format.bits()) as u8, 0],
            ),
            Command::ChargePumpFrequentControl(avdd, avee, vcl, vgh, vgl) => (
                0xEC,
                seq![
                    (avdd % 8 * 16 + avee % 8) as u8,
                    (vcl % 8) as u8,
                    (vgh % 16 * 16 + vgl % 16) as u8,
                ],
            ),
            Command::InnerRegisterEnable1 => (0xFE, Seq::empty()),
            Command::InnerRegisterEnable2 => (0xEF, Seq::empty()),
            Command::SetGamma1(g) => (
                0xF0,
                seq![
                    (g.dig2j0_n % 4 * 64 + g.vr1_n % 64) as u8,
                    (g.dig2j1_n % 4 * 64 + g.vr2_n % 64) as u8,
                    (g.vr4_n % 32) as u8,
                    (g.vr6_n % 32) as u8,
                    (g.vr0_n % 16 * 16 + g.vr13_n % 16) as u8,
                    (g.vr20_n % 128) as u8,
                ],
            ),
            Command::SetGamma2(g) => (
                0xF1,
                seq![
                    (g.vr43_n % 128) as u8,
                    (g.vr27_n % 8 * 32 + g.vr57_n % 32) as u8,
                    (g.vr36_n % 8 * 32 + g.vr59_n % 32) as u8,
                    (g.vr61_n % 64) as u8,
                    (g.vr62_n % 64) as u8,
                    (g.vr50_n % 16 * 16 + g.vr63_n % 16) as u8,
                ],
            ),
            Command::SetGamma3(g) => (
                0xF2,
                seq![
                    (g.dig2j0_p % 4 * 64 + g.vr1_p % 64) as u8,
                    (g.dig2j1_p % 4 * 64 + g.vr2_p % 64) as u8,
                    (g.vr4_p % 32) as u8,
                    (g.vr6_p % 32) as u8,
                    (g.vr0_p % 16 * 16 + g.vr13_p % 16) as u8,
                    (g.vr20_p % 128) as u8,
                ],
            ),
            Command::SetGamma4(g) => (
                0xF3,
                seq![
                    (g.vr43_p % 128) as u8,
                    (g.vr27_p % 8 * 32 + g.vr57_p % 32) as u8,
                    (g.vr36_p % 8 * 32 + g.vr59_p % 32) as u8,
                    (g.vr61_p % 64) as u8,
                    (g.vr62_p % 64) as u8,
                    (g.vr50_p % 16 * 16 + g.vr63_p % 16) as u8,
                ],
            ),
            Command::SetUndocumented0BEh => (0xBE, seq![0x11]),
            Command::SetUndocumented0BCh => (0xBC, seq![0x00]),
            Command::SetUndocumented0BDh => (0xBD, seq![0x06]),
            Command::SetUndocumented0E1h => (0xE1, seq![0x10, 0x0E]),
            Command::SetUndocumented0DFh => (0xDF, seq![0x21, 0x0C, 0x02]),
            Command::SetUndocumented0EDh => (0xED, seq![0x1B, 0x0B]),
            Command::SetUndocumented0AEh => (0xAE, seq![0x77]),
            Command::SetUndocumented0CDh => (0xCD, seq![0x63]),
            Command::SetUndocumented070h => (
                0x70,
                seq![0x07, 0x07, 0x04, 0x0E, 0x0F, 0x09, 0x07, 0x08, 0x03],
            ),
            Command::SetUndocumented0FFh => (0xFF, seq![0x60, 0x01, 0x04]),
            Command::SetUndocumented090h => (0x90, seq![0x08, 0x08, 0x08, 0x08]),
            Command::SetUndocumented062h => (
                0x62,
                seq![0x18, 0x0D, 0x71, 0xED, 0x70, 0x70, 0x18, 0x0F, 0x71, 0xEF, 0x70, 0x70],
            ),
            Command::SetUndocumented063h => (
                0x63,
                seq![0x18, 0x11, 0x71, 0xF1, 0x70, 0x70, 0x18, 0x13, 0x71, 0xF3, 0x70, 0x70],
            ),
            Command::SetUndocumented064h => (0x64, seq![0x28, 0x29, 0xF1, 0x01, 0xF1, 0x00, 0x07]),
            Command::SetUndocumented066h => (
                0x66,
                seq![0x3C, 0x00, 0xCD, 0x67, 0x45, 0x45, 0x10, 0x00, 0x00, 0x00],
            ),
            Command::SetUndocumented067h => (
                0x67,
                seq![0x00, 0x3C, 0x00, 0x00, 0x00, 0x01, 0x54, 0x10, 0x32, 0x98],
            ),
            Command::SetUndocumented074h => (0x74, seq![0x10, 0x85, 0x80, 0x00, 0x00, 0x4E, 0x00]),
            Command::SetUndocumented098h => (0x98, seq![0x3E, 0x07]),
            Command::SetUndocumented0EBh(value) => (0xEB, seq![value]),
            Command::SetUndocumented084h(value) => (0x84, seq![value]),
            Command::SetUndocumented085h(value) => (0x85, seq![value]),
            Command::SetUndocumented086h(value) => (0x86, seq![value]),
            Command::SetUndocumented087h(value) => (0x87, seq![value]),
            Command::SetUndocumented088h(value) => (0x88, seq![value]),
            Command::SetUndocumented089h(value) => (0x89, seq![value]),
            Command::SetUndocumented08Ah(value) => (0x8A, seq![value]),
            Command::SetUndocumented08Bh(value) => (0x8B, seq![value]),
            Command::SetUndocumented08Ch(value) => (0x8C, seq![value]),
            Command::SetUndocumented08Dh(value) => (0x8D, seq![value]),
            Command::SetUndocumented08Eh(value) => (0x8E, seq![value]),
            Command::SetUndocumented08Fh(value) => (0x8F, seq![value]),
            Command::MemoryWrite => (0x2C, Seq::empty()),
            Command::MemoryWriteContinue => (0x3C, Seq::empty()),
        }
    }

    /// The steps that carry this command: the opcode on the command channel,
    /// then its parameter bytes, if any, on the data channel.
    pub open spec fn wire(self) -> Seq<Step> {
        seq![Step::Command(self.encoding().0)] + data_steps(self.encoding().1)
    }

    /// Whether this is one of the display control and addressing commands.
    spec fn is_control_command(self) -> bool {
        self is SleepMode
        || self is PartialMode
        || self is NormalDisplayMode
        || self is DisplayInversion
        || self is DisplayState
        || self is ColumnAddressSet
        || self is RowAddressSet
        || self is VertialScrollDef
        || self is TearingEffectLine
        || self is VerticalScrollStartAddresss
        || self is IdleMode
        || self is SetTearScanline
        || self is DisplayBrightness
    }

    /// Whether this is one of the commands with packed flag bits.
    spec fn is_packed_command(self) -> bool {
        self is MemoryAccessControl
        || self is PixelFormatSet
        || self is CtrlDisplay
        || self is RGBInterfaceSignalCtrl
    }

    /// Whether this is one of the panel timing, voltage and gamma commands.
    spec fn is_panel_command(self) -> bool {
        self is BlankingPorchControl
        || self is DispalyFunctionControl
        || self is TEControl
        || self is Interface
        || self is PowerCriterioControl
        || self is VCoreVoltageControl
        || self is Vreg1aVoltageControl
        || self is Vreg1bVoltageControl
        || self is Vreg2aVoltageControl
        || self is FrameRate
        || self is Spi2dataControl
        || self is ChargePumpFrequentControl
        || self is InnerRegisterEnable1
        || self is InnerRegisterEnable2
        || self is SetGamma1
        || self is SetGamma2
        || self is SetGamma3
    }

    /// Whether this is one of the gamma and fixed calibration commands.
    spec fn is_calibration_command(self) -> bool {
        self is SetGamma4
        || self is SetUndocumented0BEh
        || self is SetUndocumented0BCh
        || self is SetUndocumented0BDh
        || self is SetUndocumented0E1h
        || self is SetUndocumented0DFh
        || self is SetUndocumented0EDh
        || self is SetUndocumented0AEh
        || self is SetUndocumented0CDh
        || self is SetUndocumented070h
        || self is SetUndocumented0FFh
        || self is SetUndocumented090h
        || self is SetUndocumented062h
        || self is SetUndocumented063h
        || self is SetUndocumented064h
        || self is SetUndocumented066h
        || self is SetUndocumented067h
    }

    /// Whether this is one of the single-byte register and memory write commands.
    spec fn is_register_command(self) -> bool {
        self is SetUndocumented074h
        || self is SetUndocumented098h
        || self is SetUndocumented0EBh
        || self is SetUndocumented084h
        || self is SetUndocumented085h
        || self is SetUndocumented086h
        || self is SetUndocumented087h
        || self is SetUndocumented088h
        || self is SetUndocumented089h
        || self is SetUndocumented08Ah
        || self is SetUndocumented08Bh
        || self is SetUndocumented08Ch
        || self is SetUndocumented08Dh
        || self is SetUndocumented08Eh
        || self is SetUndocumented08Fh
        || self is MemoryWrite
        || self is MemoryWriteContinue
    }

    /// The opcode and the parameter bytes of this command.
    pub fn serialize(&self) -> (r: (u8, Vec<u8>))
        ensures
            r.0 == self.encoding().0,
            r.1@ == self.encoding().1,
    {
        match *self {
            Command::SleepMode(_)
            | Command::PartialMode
            | Command::NormalDisplayMode
            | Command::DisplayInversion(_)
            | Command::DisplayState(_)
            | Command::ColumnAddressSet(_, _)
            | Command::RowAddressSet(_, _)
            | Command::VertialScrollDef(_, _)
            | Command::TearingEffectLine(_)
            | Command::VerticalScrollStartAddresss(_)
            | Command::IdleMode(_)
            | Command::SetTearScanline(_)
            | Command::DisplayBrightness(_) => self.serialize_control(),
            Command::MemoryAccessControl(_, _, _, _, _, _)
            | Command::PixelFormatSet(_, _)
            | Command::CtrlDisplay(_, _, _)
            | Command::RGBInterfaceSignalCtrl(_, _, _, _, _) => self.serialize_packed(),
            Command::BlankingPorchControl(_, _, _)
            | Command::DispalyFunctionControl(_, _, _, _)
            | Command::TEControl(_, _)
            | Command::Interface(_, _, _)
            | Command::PowerCriterioControl(_)
            | Command::VCoreVoltageControl(_)
            | Command::Vreg1aVoltageControl(_)
            | Command::Vreg1bVoltageControl(_)
            | Command::Vreg2aVoltageControl(_)
            | Command::FrameRate(_)
            | Command::Spi2dataControl(_, _)
            | Command::ChargePumpFrequentControl(_, _, _, _, _)
            | Command::InnerRegisterEnable1
            | Command::InnerRegisterEnable2
            | Command::SetGamma1(_)
            | Command::SetGamma2(_)
            | Command::SetGamma3(_) => self.serialize_panel(),
            Command::SetGamma4(_)
            | Command::SetUndocumented0BEh
            | Command::SetUndocumented0BCh
            | Command::SetUndocumented0BDh
            | Command::SetUndocumented0E1h
            | Command::SetUndocumented0DFh
            | Command::SetUndocumented0EDh
            | Command::SetUndocumented0AEh
            | Command::SetUndocumented0CDh
            | Command::SetUndocumented070h
            | Command::SetUndocumented0FFh
            | Command::SetUndocumented090h
            | Command::SetUndocumented062h
            | Command::SetUndocumented063h
            | Command::SetUndocumented064h
            | Command::SetUndocumented066h
            | Command::SetUndocumented067h => self.serialize_calibration(),
            Command::SetUndocumented074h
            | Command::SetUndocumented098h
            | Command::SetUndocumented0EBh(_)
            | Command::SetUndocumented084h(_)
            | Command::SetUndocumented085h(_)
            | Command::SetUndocumented086h(_)
            | Command::SetUndocumented087h(_)
            | Command::SetUndocumented088h(_)
            | Command::SetUndocumented089h(_)
            | Command::SetUndocumented08Ah(_)
            | Command::SetUndocumented08Bh(_)
            | Command::SetUndocumented08Ch(_)
            | Command::SetUndocumented08Dh(_)
            | Command::SetUndocumented08Eh(_)
            | Command::SetUndocumented08Fh(_)
            | Command::MemoryWrite
            | Command::MemoryWriteContinue => self.serialize_register(),
        }
    }

    fn serialize_control(&self) -> (r: (u8, Vec<u8>))
        requires
            self.is_control_command(),
        ensures
            r.0 == self.encoding().0,
            r.1@ == self.encoding().1,
    {
        match *self {
            Command::SleepMode(level) => (
                match level { Logical::Off => 0x11u8, Logical::On => 0x10u8 },
                Vec::new(),
            ),
            Command::PartialMode => (0x12, Vec::new()),
            Command::NormalDisplayMode => (0x13, Vec::new()),
            Command::DisplayInversion(level) => ((0x20 + level.bits()) as u8, Vec::new()),
            Command::DisplayState(level) => ((0x28 + level.bits()) as u8, Vec::new()),
            Command::ColumnAddressSet(sc, ec) => (0x2A, be16_pair(sc, ec)),
            Command::RowAddressSet(sp, ep) => (0x2B, be16_pair(sp, ep)),
            Command::VertialScrollDef(tfa, vsa) => (0x33, be16_pair(tfa, vsa)),
            Command::TearingEffectLine(mode) => ((0x34 + mode.bits()) as u8, Vec::new()),
            Command::VerticalScrollStartAddresss(vsp) => (0x37, be16(vsp)),
            Command::IdleMode(mode) => ((0x38 + mode.bits()) as u8, Vec::new()),
            Command::SetTearScanline(sts) => (0x44, tear_scanline(sts)),
            Command::DisplayBrightness(dbv) => (0x51, vec![dbv]),
            _ => {
                proof {
                    assert(false);
                }
                (0, Vec::new())
            },
        }
    }

    fn serialize_packed(&self) -> (r: (u8, Vec<u8>))
        requires
            self.is_packed_command(),
        ensures
            r.0 == self.encoding().0,
            r.1@ == self.encoding().1,
    {
        match *self {
            Command::MemoryAccessControl(my, mx, mv, ml, bgr, mh) => (
                0x36,
                vec![
                    (my.bits() * 128 + mx.bits() * 64 + mv.bits() * 32 + ml.bits() * 16
                        + bgr.bits() * 8
                        + mh.bits() * 4) as u8,
                ],
            ),
            Command::PixelFormatSet(dbi, dpi) => (0x3A, vec![(dpi.bits() * 16 + dbi.bits()) as u8]),
            Command::CtrlDisplay(bctrl, dd, bl) => (
                0x53,
                vec![(bctrl.bits() * 32 + dd.bits() * 8 + bl.bits() * 4) as u8],
            ),
            Command::RGBInterfaceSignalCtrl(epl, dpl, hsp, vsp, rcm) => (
                0xB0,
                vec![
                    (epl.bits() + dpl.bits() * 2 + hsp.bits() * 4 + vsp.bits() * 8
                        + rcm.bits() * 32) as u8,
                ],
            ),
            _ => {
                proof {
                    assert(false);
                }
                (0, Vec::new())
            },
        }
    }

    fn serialize_panel(&self) -> (r: (u8, Vec<u8>))
        requires
            self.is_panel_command(),
        ensures
            r.0 == self.encoding().0,
            r.1@ == self.encoding().1,
    {
        match *self {
            Command::BlankingPorchControl(vfp, vbp, hbp) => (
                0xB5,
                vec![vfp, (vbp % 128) as u8, (hbp % 32) as u8],
            ),
            Command::DispalyFunctionControl(gs, ss, sm, nl) => (
                0xB6,
                vec![(gs.bits() * 64 + ss.bits() * 32 + sm % 2 * 16) as u8, (nl % 32) as u8],
            ),
            Command::TEControl(te_pol, te_width) => (
                0xBA,
                vec![(te_pol.bits() * 128 + te_width % 128) as u8],
            ),
            Command::Interface(dm, rm, rim) => (
                0xF6,
                vec![(dm.bits() * 4 + rm.bits() * 2 + rim.bits()) as u8],
            ),
            Command::PowerCriterioControl(vcire) => (0xC1, vec![(vcire.bits() * 2) as u8]),
            Command::VCoreVoltageControl(vddad) => (0xA7, vec![(0x40 + vddad.bits()) as u8]),
            Command::Vreg1aVoltageControl(value) => (0xC3, vec![value]),
            Command::Vreg1bVoltageControl(value) => (0xC4, vec![value]),
            Command::Vreg2aVoltageControl(value) => (0xC9, vec![value]),
            Command::FrameRate(dinv) => (0xE8, vec![(dinv.bits() * 16) as u8]),
            Command::Spi2dataControl(data2_en, data_format) => (
                0xE9,
                vec![(data2_en.bits() * 8 + data_format.bits()) as u8, 0],
            ),
            Command::ChargePumpFrequentControl(avdd, avee, vcl, vgh, vgl) => (
                0xEC,
                vec![
                    (avdd % 8 * 16 + avee % 8) as u8,
                    (vcl % 8) as u8,
                    (vgh % 16 * 16 + vgl % 16) as u8,
                ],
            ),
            Command::InnerRegisterEnable1 => (0xFE, Vec::new()),
            Command::InnerRegisterEnable2 => (0xEF, Vec::new()),
            Command::SetGamma1(g) => (
                0xF0,
                vec![
                    (g.dig2j0_n % 4 * 64 + g.vr1_n % 64) as u8,
                    (g.dig2j1_n % 4 * 64 + g.vr2_n % 64) as u8,
                    (g.vr4_n % 32) as u8,
                    (g.vr6_n % 32) as u8,
                    (g.vr0_n % 16 * 16 + g.vr13_n % 16) as u8,
                    (g.vr20_n % 128) as u8,
                ],
            ),
            Command::SetGamma2(g) => (
                0xF1,
                vec![
                    (g.vr43_n % 128) as u8,
                    (g.vr27_n % 8 * 32 + g.vr57_n % 32) as u8,
                    (g.vr36_n % 8 * 32 + g.vr59_n % 32) as u8,
                    (g.vr61_n % 64) as u8,
                    (g.vr62_n % 64) as u8,
                    (g.vr50_n % 16 * 16 + g.vr63_n % 16) as u8,
                ],
            ),
            Command::SetGamma3(g) => (
                0xF2,
                vec![
                    (g.dig2j0_p % 4 * 64 + g.vr1_p % 64) as u8,
                    (g.dig2j1_p % 4 * 64 + g.vr2_p % 64) as u8,
                    (g.vr4_p % 32) as u8,
                    (g.vr6_p % 32) as u8,
                    (g.vr0_p % 16 * 16 + g.vr13_p % 16) as u8,
                    (g.vr20_p % 128) as u8,
                ],
            ),
            _ => {
                proof {
                    assert(false);
                }
                (0, Vec::new())
            },
        }
    }

    fn serialize_calibration(&self) -> (r: (u8, Vec<u8>))
        requires
            self.is_calibration_command(),
        ensures
            r.0 == self.encoding().0,
            r.1@ == self.encoding().1,
    {
        match *self {
            Command::SetGamma4(g) => (
                0xF3,
                vec![
                    (g.vr43_p % 128) as u8,
                    (g.vr27_p % 8 * 32 + g.vr57_p % 32) as u8,
                    (g.vr36_p % 8 * 32 + g.vr59_p % 32) as u8,
                    (g.vr61_p % 64) as u8,
                    (g.vr62_p % 64) as u8,
                    (g.vr50_p % 16 * 16 + g.vr63_p % 16) as u8,
                ],
            ),
            Command::SetUndocumented0BEh => (0xBE, vec![0x11]),
            Command::SetUndocumented0BCh => (0xBC, vec![0x00]),
            Command::SetUndocumented0BDh => (0xBD, vec![0x06]),
            Command::SetUndocumented0E1h => (0xE1, vec![0x10, 0x0E]),
            Command::SetUndocumented0DFh => (0xDF, vec![0x21, 0x0C, 0x02]),
            Command::SetUndocumented0EDh => (0xED, vec![0x1B, 0x0B]),
            Command::SetUndocumented0AEh => (0xAE, vec![0x77]),
            Command::SetUndocumented0CDh => (0xCD, vec![0x63]),
            Command::SetUndocumented070h => (
                0x70,
                vec![0x07, 0x07, 0x04, 0x0E, 0x0F, 0x09, 0x07, 0x08, 0x03],
            ),
            Command::SetUndocumented0FFh => (0xFF, vec![0x60, 0x01, 0x04]),
            Command::SetUndocumented090h => (0x90, vec![0x08, 0x08, 0x08, 0x08]),
            Command::SetUndocumented062h => (
                0x62,
                vec![0x18, 0x0D, 0x71, 0xED, 0x70, 0x70, 0x18, 0x0F, 0x71, 0xEF, 0x70, 0x70],
            ),
            Command::SetUndocumented063h => (
                0x63,
                vec![0x18, 0x11, 0x71, 0xF1, 0x70, 0x70, 0x18, 0x13, 0x71, 0xF3, 0x70, 0x70],
            ),
            Command::SetUndocumented064h => (0x64, vec![0x28, 0x29, 0xF1, 0x01, 0xF1, 0x00, 0x07]),
            Command::SetUndocumented066h => (
                0x66,
                vec![0x3C, 0x00, 0xCD, 0x67, 0x45, 0x45, 0x10, 0x00, 0x00, 0x00],
            ),
            Command::SetUndocumented067h => (
                0x67,
                vec![0x00, 0x3C, 0x00, 0x00, 0x00, 0x01, 0x54, 0x10, 0x32, 0x98],
            ),
            _ => {
                proof {
                    assert(false);
                }
                (0, Vec::new())
            },
        }
    }

    fn serialize_register(&self) -> (r: (u8, Vec<u8>))
        requires
            self.is_register_command(),
        ensures
            r.0 == self.encoding().0,
            r.1@ == self.encoding().1,
    {
        match *self {
            Command::SetUndocumented074h => (0x74, vec![0x10, 0x85, 0x80, 0x00, 0x00, 0x4E, 0x00]),
            Command::SetUndocumented098h => (0x98, vec![0x3E, 0x07]),
            Command::SetUndocumented0EBh(value) => (0xEB, vec![value]),
            Command::SetUndocumented084h(value) => (0x84, vec![value]),
            Command::SetUndocumented085h(value) => (0x85, vec![value]),
            Command::SetUndocumented086h(value) => (0x86, vec![value]),
            Command::SetUndocumented087h(value) => (0x87, vec![value]),
            Command::SetUndocumented088h(value) => (0x88, vec![value]),
            Command::SetUndocumented089h(value) => (0x89, vec![value]),
            Command::SetUndocumented08Ah(value) => (0x8A, vec![value]),
            Command::SetUndocumented08Bh(value) => (0x8B, vec![value]),
            Command::SetUndocumented08Ch(value) => (0x8C, vec![value]),
            Command::SetUndocumented08Dh(value) => (0x8D, vec![value]),
            Command::SetUndocumented08Eh(value) => (0x8E, vec![value]),
            Command::SetUndocumented08Fh(value) => (0x8F, vec![value]),
            Command::MemoryWrite => (0x2C, Vec::new()),
            Command::MemoryWriteContinue => (0x3C, Vec::new()),
            _ => {
                proof {
                    assert(false);
                }
                (0, Vec::new())
            },
        }
    }

    /// Appends the steps that carry this command to `out`.
    pub fn send(self, out: &mut Vec<Step>)
        ensures
            final(out)@ == old(out)@ + self.wire(),
    {
        let (opcode, params) = self.serialize();
        let ghost start = out@;
        out.push(Step::Command(opcode));
        let n = params.len();
        for i in 0..n
            invariant
                n == params@.len(),
                params@ == self.encoding().1,
                out@ == start + seq![Step::Command(opcode)] + data_steps(
                    params@.subrange(0, i as int),
                ),
        {
            out.push(Step::Data(params[i]));
            assert(params@.subrange(0, i + 1) =~= params@.subrange(0, i as int).push(
                params@[i as int],
            ));
            assert(data_steps(params@.subrange(0, i + 1)) =~= data_steps(
                params@.subrange(0, i as int),
            ).push(Step::Data(params@[i as int])));
        }
        assert(params@.subrange(0, n as int) =~= params@);
    }
}

/// Every command is its opcode on the command channel followed by at most
/// twelve parameter bytes on the data channel; a command without
/// parameters sends nothing on the data channel.
pub proof fn lemma_wire_shape(c: Command)
    ensures
        c.encoding().1.len() <= 12,
        c.wire().len() == c.encoding().1.len() + 1,
        c.wire()[0] == Step::Command(c.encoding().0),
        forall|i: int|
            1 <= i < c.wire().len() ==> #[trigger] c.wire()[i] == Step::Data(c.encoding().1[i - 1]),
{
}

/// The steps that carry `commands`, one after the other.
pub open spec fn wire_all(commands: Seq<Command>) -> Seq<Step>
    decreases commands.len(),
{
    if commands.len() == 0 {
        Seq::empty()
    } else {
        wire_all(commands.drop_last()) + commands.last().wire()
    }
}

/// Appends the steps that carry `commands`, in order, to `out`.
pub fn send_all(commands: &[Command], out: &mut Vec<Step>)
    ensures
        final(out)@ == old(out)@ + wire_all(commands@),
{
    let ghost start = out@;
    let n = commands.len();
    for i in 0..n
        invariant
            n == commands@.len(),
            out@ == start + wire_all(commands@.subrange(0, i as int)),
    {
        commands[i].send(out);
        assert(commands@.subrange(0, i + 1).drop_last() =~= commands@.subrange(0, i as int));
    }
    assert(commands@.subrange(0, n as int) =~= commands@);
}

} // verus!
