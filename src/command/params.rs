//! Settings carried by the commands: small closed sets of named values.

use vstd::prelude::*;

verus! {

/// Logical on/off.
#[derive(Debug, Copy, Clone, PartialEq, Eq, Structural)]
pub enum Logical {
    /// Off.
    Off,
    /// On.
    On,
}

impl Logical {
    /// The value the chip reads for this setting.
    pub open spec fn spec_bits(self) -> u8 {
        match self {
            Logical::Off => 0,
            Logical::On => 1,
        }
    }

    /// The value the chip reads for this setting.
    #[verifier::when_used_as_spec(spec_bits)]
    pub fn bits(self) -> (r: u8)
        ensures
            r == self.spec_bits(),
            r <= 1,
    {
        match self {
            Logical::Off => 0,
            Logical::On => 1,
        }
    }
}

impl From<bool> for Logical {
    fn from(val: bool) -> Logical {
        if val {
            Logical::On
        } else {
            Logical::Off
        }
    }
}

impl vstd::std_specs::convert::FromSpecImpl<bool> for Logical {
    open spec fn obeys_from_spec() -> bool {
        true
    }

    open spec fn from_spec(v: bool) -> Logical {
        if v {
            Logical::On
        } else {
            Logical::Off
        }
    }
}

impl From<u8> for Logical {
    fn from(val: u8) -> Logical {
        match val {
            0 => Logical::Off,
            _ => Logical::On,
        }
    }
}

impl vstd::std_specs::convert::FromSpecImpl<u8> for Logical {
    open spec fn obeys_from_spec() -> bool {
        true
    }

    open spec fn from_spec(v: u8) -> Logical {
        match v {
            0 => Logical::Off,
            _ => Logical::On,
        }
    }
}

/// Data enable polarity of the RGB interface.
#[derive(Debug, Copy, Clone, PartialEq, Eq, Structural)]
pub enum DEPolarity {
    /// High enable for RGB interface.
    HighEnableForRGB,
    /// Low enable for RGB interface.
    LowEnableForRGB,
}

impl DEPolarity {
    /// The value the chip reads for this setting.
    pub open spec fn spec_bits(self) -> u8 {
        match self {
            DEPolarity::HighEnableForRGB => 0,
            DEPolarity::LowEnableForRGB => 1,
        }
    }

    /// The value the chip reads for this setting.
    #[verifier::when_used_as_spec(spec_bits)]
    pub fn bits(self) -> (r: u8)
        ensures
            r == self.spec_bits(),
            r <= 1,
    {
        match self {
            DEPolarity::HighEnableForRGB => 0,
            DEPolarity::LowEnableForRGB => 1,
        }
    }
}

impl From<bool> for DEPolarity {
    fn from(val: bool) -> DEPolarity {
        if val {
            DEPolarity::HighEnableForRGB
        } else {
            DEPolarity::LowEnableForRGB
        }
    }
}

impl vstd::std_specs::convert::FromSpecImpl<bool> for DEPolarity {
    open spec fn obeys_from_spec() -> bool {
        true
    }

    open spec fn from_spec(v: bool) -> DEPolarity {
        if v {
            DEPolarity::HighEnableForRGB
        } else {
            DEPolarity::LowEnableForRGB
        }
    }
}

impl From<u8> for DEPolarity {
    fn from(val: u8) -> DEPolarity {
        match val {
            0 => DEPolarity::HighEnableForRGB,
            _ => DEPolarity::LowEnableForRGB,
        }
    }
}

impl vstd::std_specs::convert::FromSpecImpl<u8> for DEPolarity {
    open spec fn obeys_from_spec() -> bool {
        true
    }

    open spec fn from_spec(v: u8) -> DEPolarity {
        match v {
            0 => DEPolarity::HighEnableForRGB,
            _ => DEPolarity::LowEnableForRGB,
        }
    }
}

/// Pulse polarity of the tearing effect output.
#[derive(Debug, Copy, Clone, PartialEq, Eq, Structural)]
pub enum TEPolarity {
    /// Positive pulse.
    PositivePulse,
    /// Negative pulse.
    NegativePulse,
}

impl TEPolarity {
    /// The value the chip reads for this setting.
    pub open spec fn spec_bits(self) -> u8 {
        match self {
            TEPolarity::PositivePulse => 0,
            TEPolarity::NegativePulse => 1,
        }
    }

    /// The value the chip reads for this setting.
    #[verifier::when_used_as_spec(spec_bits)]
    pub fn bits(self) -> (r: u8)
        ensures
            r == self.spec_bits(),
            r <= 1,
    {
        match self {
            TEPolarity::PositivePulse => 0,
            TEPolarity::NegativePulse => 1,
        }
    }
}

impl From<bool> for TEPolarity {
    fn from(val: bool) -> TEPolarity {
        if val {
            TEPolarity::PositivePulse
        } else {
            TEPolarity::NegativePulse
        }
    }
}

impl vstd::std_specs::convert::FromSpecImpl<bool> for TEPolarity {
    open spec fn obeys_from_spec() -> bool {
        true
    }

    open spec fn from_spec(v: bool) -> TEPolarity {
        if v {
            TEPolarity::PositivePulse
        } else {
            TEPolarity::NegativePulse
        }
    }
}

impl From<u8> for TEPolarity {
    fn from(val: u8) -> TEPolarity {
        match val {
            0 => TEPolarity::PositivePulse,
            _ => TEPolarity::NegativePulse,
        }
    }
}

impl vstd::std_specs::convert::FromSpecImpl<u8> for TEPolarity {
    open spec fn obeys_from_spec() -> bool {
        true
    }

    open spec fn from_spec(v: u8) -> TEPolarity {
        match v {
            0 => TEPolarity::PositivePulse,
            _ => TEPolarity::NegativePulse,
        }
    }
}

/// Dot clock polarity.
#[derive(Debug, Copy, Clone, PartialEq, Eq, Structural)]
pub enum DOTClk {
    /// Data fetched at the rising time.
    FetchOnRising,
    /// Data fetched at the falling time.
    FetchOnFalling,
}

impl DOTClk {
    /// The value the chip reads for this setting.
    pub open spec fn spec_bits(self) -> u8 {
        match self {
            DOTClk::FetchOnRising => 0,
            DOTClk::FetchOnFalling => 1,
        }
    }

    /// The value the chip reads for this setting.
    #[verifier::when_used_as_spec(spec_bits)]
    pub fn bits(self) -> (r: u8)
        ensures
            r == self.spec_bits(),
            r <= 1,
    {
        match self {
            DOTClk::FetchOnRising => 0,
            DOTClk::FetchOnFalling => 1,
        }
    }
}

impl From<bool> for DOTClk {
    fn from(val: bool) -> DOTClk {
        if val {
            DOTClk::FetchOnRising
        } else {
            DOTClk::FetchOnFalling
        }
    }
}

impl vstd::std_specs::convert::FromSpecImpl<bool> for DOTClk {
    open spec fn obeys_from_spec() -> bool {
        true
    }

    open spec fn from_spec(v: bool) -> DOTClk {
        if v {
            DOTClk::FetchOnRising
        } else {
            DOTClk::FetchOnFalling
        }
    }
}

impl From<u8> for DOTClk {
    fn from(val: u8) -> DOTClk {
        match val {
            0 => DOTClk::FetchOnRising,
            _ => DOTClk::FetchOnFalling,
        }
    }
}

impl vstd::std_specs::convert::FromSpecImpl<u8> for DOTClk {
    open spec fn obeys_from_spec() -> bool {
        true
    }

    open spec fn from_spec(v: u8) -> DOTClk {
        match v {
            0 => DOTClk::FetchOnRising,
            _ => DOTClk::FetchOnFalling,
        }
    }
}

/// Polarity of a sync clock.
#[derive(Debug, Copy, Clone, PartialEq, Eq, Structural)]
pub enum XSpl {
    /// Low level sync clock.
    LowSyncClock,
    /// High level sync clock.
    HighSyncClock,
}

impl XSpl {
    /// The value the chip reads for this setting.
    pub open spec fn spec_bits(self) -> u8 {
        match self {
            XSpl::LowSyncClock => 0,
            XSpl::HighSyncClock => 1,
        }
    }

    /// The value the chip reads for this setting.
    #[verifier::when_used_as_spec(spec_bits)]
    pub fn bits(self) -> (r: u8)
        ensures
            r == self.spec_bits(),
            r <= 1,
    {
        match self {
            XSpl::LowSyncClock => 0,
            XSpl::HighSyncClock => 1,
        }
    }
}

impl From<bool> for XSpl {
    fn from(val: bool) -> XSpl {
        if val {
            XSpl::LowSyncClock
        } else {
            XSpl::HighSyncClock
        }
    }
}

impl vstd::std_specs::convert::FromSpecImpl<bool> for XSpl {
    open spec fn obeys_from_spec() -> bool {
        true
    }

    open spec fn from_spec(v: bool) -> XSpl {
        if v {
            XSpl::LowSyncClock
        } else {
            XSpl::HighSyncClock
        }
    }
}

impl From<u8> for XSpl {
    fn from(val: u8) -> XSpl {
        match val {
            0 => XSpl::LowSyncClock,
            _ => XSpl::HighSyncClock,
        }
    }
}

impl vstd::std_specs::convert::FromSpecImpl<u8> for XSpl {
    open spec fn obeys_from_spec() -> bool {
        true
    }

    open spec fn from_spec(v: u8) -> XSpl {
        match v {
            0 => XSpl::LowSyncClock,
            _ => XSpl::HighSyncClock,
        }
    }
}

/// RGB interface selection.
#[derive(Debug, Copy, Clone, PartialEq, Eq, Structural)]
pub enum RCMMode {
    /// Valid data is determined by the DE signal.
    DEMode,
    /// The DE signal is ignored; blanking porch is set by the blanking porch command.
    SyncMode,
}

impl RCMMode {
    /// The value the chip reads for this setting.
    pub open spec fn spec_bits(self) -> u8 {
        match self {
            RCMMode::DEMode => 2,
            RCMMode::SyncMode => 3,
        }
    }

    /// The value the chip reads for this setting.
    #[verifier::when_used_as_spec(spec_bits)]
    pub fn bits(self) -> (r: u8)
        ensures
            r == self.spec_bits(),
            r <= 3,
    {
        match self {
            RCMMode::DEMode => 2,
            RCMMode::SyncMode => 3,
        }
    }
}

impl From<u8> for RCMMode {
    fn from(val: u8) -> RCMMode {
        match val {
            2 => RCMMode::DEMode,
            _ => RCMMode::SyncMode,
        }
    }
}

impl vstd::std_specs::convert::FromSpecImpl<u8> for RCMMode {
    open spec fn obeys_from_spec() -> bool {
        true
    }

    open spec fn from_spec(v: u8) -> RCMMode {
        match v {
            2 => RCMMode::DEMode,
            _ => RCMMode::SyncMode,
        }
    }
}

/// Output scan direction of the source driver.
#[derive(Debug, Copy, Clone, PartialEq, Eq, Structural)]
pub enum SSMode {
    /// R, G, B dots from S1 to S360.
    S1toS360,
    /// R, G, B dots from S360 to S1.
    S360toS1,
}

impl SSMode {
    /// The value the chip reads for this setting.
    pub open spec fn spec_bits(self) -> u8 {
        match self {
            SSMode::S1toS360 => 0,
            SSMode::S360toS1 => 1,
        }
    }

    /// The value the chip reads for this setting.
    #[verifier::when_used_as_spec(spec_bits)]
    pub fn bits(self) -> (r: u8)
        ensures
            r == self.spec_bits(),
            r <= 1,
    {
        match self {
            SSMode::S1toS360 => 0,
            SSMode::S360toS1 => 1,
        }
    }
}

impl From<u8> for SSMode {
    fn from(val: u8) -> SSMode {
        match val {
            0 => SSMode::S1toS360,
            _ => SSMode::S1toS360,
        }
    }
}

impl vstd::std_specs::convert::FromSpecImpl<u8> for SSMode {
    open spec fn obeys_from_spec() -> bool {
        true
    }

    open spec fn from_spec(v: u8) -> SSMode {
        match v {
            0 => SSMode::S1toS360,
            _ => SSMode::S1toS360,
        }
    }
}

/// Display operation mode.
#[derive(Debug, Copy, Clone, PartialEq, Eq, Structural)]
pub enum DMMode {
    /// Internal clock operation.
    InternalClockOperation,
    /// RGB interface mode.
    RGBInterfaceMode,
    /// VSYNC interface mode.
    VSYNCInterfaceMode,
    /// Setting disabled.
    SettingDisabled,
}

impl DMMode {
    /// The value the chip reads for this setting.
    pub open spec fn spec_bits(self) -> u8 {
        match self {
            DMMode::InternalClockOperation => 0,
            DMMode::RGBInterfaceMode => 1,
            DMMode::VSYNCInterfaceMode => 2,
            DMMode::SettingDisabled => 3,
        }
    }

    /// The value the chip reads for this setting.
    #[verifier::when_used_as_spec(spec_bits)]
    pub fn bits(self) -> (r: u8)
        ensures
            r == self.spec_bits(),
            r <= 3,
    {
        match self {
            DMMode::InternalClockOperation => 0,
            DMMode::RGBInterfaceMode => 1,
            DMMode::VSYNCInterfaceMode => 2,
            DMMode::SettingDisabled => 3,
        }
    }
}

impl From<u8> for DMMode {
    fn from(val: u8) -> DMMode {
        match val {
            0 => DMMode::InternalClockOperation,
            1 => DMMode::RGBInterfaceMode,
            2 => DMMode::VSYNCInterfaceMode,
            _ => DMMode::SettingDisabled,
        }
    }
}

impl vstd::std_specs::convert::FromSpecImpl<u8> for DMMode {
    open spec fn obeys_from_spec() -> bool {
        true
    }

    open spec fn from_spec(v: u8) -> DMMode {
        match v {
            0 => DMMode::InternalClockOperation,
            1 => DMMode::RGBInterfaceMode,
            2 => DMMode::VSYNCInterfaceMode,
            _ => DMMode::SettingDisabled,
        }
    }
}

/// Interface used to write the graphics RAM.
#[derive(Debug, Copy, Clone, PartialEq, Eq, Structural)]
pub enum RMMode {
    /// System or VSYNC interface.
    SystemOrVSyncInterface,
    /// RGB interface.
    RGBInterface,
}

impl RMMode {
    /// The value the chip reads for this setting.
    pub open spec fn spec_bits(self) -> u8 {
        match self {
            RMMode::SystemOrVSyncInterface => 0,
            RMMode::RGBInterface => 1,
        }
    }

    /// The value the chip reads for this setting.
    #[verifier::when_used_as_spec(spec_bits)]
    pub fn bits(self) -> (r: u8)
        ensures
            r == self.spec_bits(),
            r <= 1,
    {
        match self {
            RMMode::SystemOrVSyncInterface => 0,
            RMMode::RGBInterface => 1,
        }
    }
}

impl From<u8> for RMMode {
    fn from(val: u8) -> RMMode {
        match val {
            0 => RMMode::SystemOrVSyncInterface,
            _ => RMMode::RGBInterface,
        }
    }
}

impl vstd::std_specs::convert::FromSpecImpl<u8> for RMMode {
    open spec fn obeys_from_spec() -> bool {
        true
    }

    open spec fn from_spec(v: u8) -> RMMode {
        match v {
            0 => RMMode::SystemOrVSyncInterface,
            _ => RMMode::RGBInterface,
        }
    }
}

/// RGB interface transfer mode.
#[derive(Debug, Copy, Clone, PartialEq, Eq, Structural)]
pub enum RIMMode {
    /// 18- or 16-bit RGB interface, one transfer per pixel.
    TransferPerPixel1,
    /// 6-bit RGB interface, three transfers per pixel.
    TransferPerPixel3,
}

impl RIMMode {
    /// The value the chip reads for this setting.
    pub open spec fn spec_bits(self) -> u8 {
        match self {
            RIMMode::TransferPerPixel1 => 0,
            RIMMode::TransferPerPixel3 => 1,
        }
    }

    /// The value the chip reads for this setting.
    #[verifier::when_used_as_spec(spec_bits)]
    pub fn bits(self) -> (r: u8)
        ensures
            r == self.spec_bits(),
            r <= 1,
    {
        match self {
            RIMMode::TransferPerPixel1 => 0,
            RIMMode::TransferPerPixel3 => 1,
        }
    }
}

impl From<u8> for RIMMode {
    fn from(val: u8) -> RIMMode {
        match val {
            0 => RIMMode::TransferPerPixel1,
            _ => RIMMode::TransferPerPixel3,
        }
    }
}

impl vstd::std_specs::convert::FromSpecImpl<u8> for RIMMode {
    open spec fn obeys_from_spec() -> bool {
        true
    }

    open spec fn from_spec(v: u8) -> RIMMode {
        match v {
            0 => RIMMode::TransferPerPixel1,
            _ => RIMMode::TransferPerPixel3,
        }
    }
}

/// Display inversion mode.
#[derive(Debug, Copy, Clone, PartialEq, Eq, Structural)]
pub enum DINVMode {
    /// Column inversion.
    ColumnInversion,
    /// 1 dot inversion.
    Inversion1Dot,
    /// 2 dot inversion.
    Inversion2Dot,
    /// 4 dot inversion.
    Inversion4Dot,
    /// 8 dot inversion.
    Inversion8Dot,
}

impl DINVMode {
    /// The value the chip reads for this setting.
    pub open spec fn spec_bits(self) -> u8 {
        match self {
            DINVMode::ColumnInversion => 0,
            DINVMode::Inversion1Dot => 1,
            DINVMode::Inversion2Dot => 2,
            DINVMode::Inversion4Dot => 3,
            DINVMode::Inversion8Dot => 4,
        }
    }

    /// The value the chip reads for this setting.
    #[verifier::when_used_as_spec(spec_bits)]
    pub fn bits(self) -> (r: u8)
        ensures
            r == self.spec_bits(),
            r <= 4,
    {
        match self {
            DINVMode::ColumnInversion => 0,
            DINVMode::Inversion1Dot => 1,
            DINVMode::Inversion2Dot => 2,
            DINVMode::Inversion4Dot => 3,
            DINVMode::Inversion8Dot => 4,
        }
    }
}

impl From<u8> for DINVMode {
    fn from(val: u8) -> DINVMode {
        match val {
            0 => DINVMode::ColumnInversion,
            1 => DINVMode::Inversion1Dot,
            2 => DINVMode::Inversion2Dot,
            3 => DINVMode::Inversion4Dot,
            _ => DINVMode::Inversion8Dot,
        }
    }
}

impl vstd::std_specs::convert::FromSpecImpl<u8> for DINVMode {
    open spec fn obeys_from_spec() -> bool {
        true
    }

    open spec fn from_spec(v: u8) -> DINVMode {
        match v {
            0 => DINVMode::ColumnInversion,
            1 => DINVMode::Inversion1Dot,
            2 => DINVMode::Inversion2Dot,
            3 => DINVMode::Inversion4Dot,
            _ => DINVMode::Inversion8Dot,
        }
    }
}

/// Two data line mode of the serial interface.
#[derive(Debug, Copy, Clone, PartialEq, Eq, Structural)]
pub enum Data2EN {
    /// 3-wire SPI.
    Data3Wire,
    /// 4-wire SPI.
    Data4Wire,
}

impl Data2EN {
    /// The value the chip reads for this setting.
    pub open spec fn spec_bits(self) -> u8 {
        match self {
            Data2EN::Data3Wire => 0,
            Data2EN::Data4Wire => 1,
        }
    }

    /// The value the chip reads for this setting.
    #[verifier::when_used_as_spec(spec_bits)]
    pub fn bits(self) -> (r: u8)
        ensures
            r == self.spec_bits(),
            r <= 1,
    {
        match self {
            Data2EN::Data3Wire => 0,
            Data2EN::Data4Wire => 1,
        }
    }
}

impl From<u8> for Data2EN {
    fn from(val: u8) -> Data2EN {
        match val {
            0 => Data2EN::Data3Wire,
            _ => Data2EN::Data4Wire,
        }
    }
}

impl vstd::std_specs::convert::FromSpecImpl<u8> for Data2EN {
    open spec fn obeys_from_spec() -> bool {
        true
    }

    open spec fn from_spec(v: u8) -> Data2EN {
        match v {
            0 => Data2EN::Data3Wire,
            _ => Data2EN::Data4Wire,
        }
    }
}

/// Pixel data format in two data line mode.
#[derive(Debug, Copy, Clone, PartialEq, Eq, Structural)]
pub enum DataFormatMDT {
    /// 65K color, 1 pixel per transition.
    Color65k1PixelPerTransition,
    /// 262K color, 1 pixel per transition.
    Color262k1PixelPerTransition,
    /// 262K color, 2/3 pixel per transition.
    Color262k2Or3PixelPerTransition,
    /// 4M color, 1 pixel per transition.
    Color4Mk1PixelPerTransition,
    /// 4M color, 2/3 pixel per transition.
    Color4M2Or3PixelPerTransition,
}

impl DataFormatMDT {
    /// The value the chip reads for this setting.
    pub open spec fn spec_bits(self) -> u8 {
        match self {
            DataFormatMDT::Color65k1PixelPerTransition => 0,
            DataFormatMDT::Color262k1PixelPerTransition => 1,
            DataFormatMDT::Color262k2Or3PixelPerTransition => 2,
            DataFormatMDT::Color4Mk1PixelPerTransition => 4,
            DataFormatMDT::Color4M2Or3PixelPerTransition => 5,
        }
    }

    /// The value the chip reads for this setting.
    #[verifier::when_used_as_spec(spec_bits)]
    pub fn bits(self) -> (r: u8)
        ensures
            r == self.spec_bits(),
            r <= 5,
    {
        match self {
            DataFormatMDT::Color65k1PixelPerTransition => 0,
            DataFormatMDT::Color262k1PixelPerTransition => 1,
            DataFormatMDT::Color262k2Or3PixelPerTransition => 2,
            DataFormatMDT::Color4Mk1PixelPerTransition => 4,
            DataFormatMDT::Color4M2Or3PixelPerTransition => 5,
        }
    }
}

impl From<u8> for DataFormatMDT {
    fn from(val: u8) -> DataFormatMDT {
        match val {
            0 => DataFormatMDT::Color65k1PixelPerTransition,
            1 => DataFormatMDT::Color262k1PixelPerTransition,
            2 => DataFormatMDT::Color262k2Or3PixelPerTransition,
            3 => DataFormatMDT::Color4Mk1PixelPerTransition,
            _ => DataFormatMDT::Color4M2Or3PixelPerTransition,
        }
    }
}

impl vstd::std_specs::convert::FromSpecImpl<u8> for DataFormatMDT {
    open spec fn obeys_from_spec() -> bool {
        true
    }

    open spec fn from_spec(v: u8) -> DataFormatMDT {
        match v {
            0 => DataFormatMDT::Color65k1PixelPerTransition,
            1 => DataFormatMDT::Color262k1PixelPerTransition,
            2 => DataFormatMDT::Color262k2Or3PixelPerTransition,
            3 => DataFormatMDT::Color4Mk1PixelPerTransition,
            _ => DataFormatMDT::Color4M2Or3PixelPerTransition,
        }
    }
}

/// Reference voltage source.
#[derive(Debug, Copy, Clone, PartialEq, Eq, Structural)]
pub enum VCIRe {
    /// Internal reference voltage 2.5V, the default.
    Internal,
    /// External reference voltage Vci.
    External,
}

impl VCIRe {
    /// The value the chip reads for this setting.
    pub open spec fn spec_bits(self) -> u8 {
        match self {
            VCIRe::Internal => 0,
            VCIRe::External => 1,
        }
    }

    /// The value the chip reads for this setting.
    #[verifier::when_used_as_spec(spec_bits)]
    pub fn bits(self) -> (r: u8)
        ensures
            r == self.spec_bits(),
            r <= 1,
    {
        match self {
            VCIRe::Internal => 0,
            VCIRe::External => 1,
        }
    }
}

impl From<u8> for VCIRe {
    fn from(val: u8) -> VCIRe {
        match val {
            0 => VCIRe::Internal,
            _ => VCIRe::External,
        }
    }
}

impl vstd::std_specs::convert::FromSpecImpl<u8> for VCIRe {
    open spec fn obeys_from_spec() -> bool {
        true
    }

    open spec fn from_spec(v: u8) -> VCIRe {
        match v {
            0 => VCIRe::Internal,
            _ => VCIRe::External,
        }
    }
}

/// Voltage level of the VCORE output.
#[derive(Debug, Copy, Clone, PartialEq, Eq, Structural)]
pub enum VddAd {
    /// Level `0x00`.
    VCore1_483V,
    /// Level `0x01`.
    VCore1_545V,
    /// Level `0x02`.
    VCore1_590V,
    /// Level `0x03`.
    VCore1_638V,
    /// Level `0x04`.
    VCore1_714V,
    /// Level `0x05`.
    VCore1_279V,
    /// Level `0x06`.
    VCore1_859V,
    /// Level `0x07`.
    VCore1_925V,
    /// Level `0x08`.
    VCore1_994V,
    /// Level `0x09`.
    VCore2_109V,
    /// Level `0x0a`.
    VCore2_193V,
    /// Level `0x0b`.
    VCore2_286V,
    /// Level `0x0c`.
    VCore2_385V,
    /// Level `0x0d`.
    VCore1_713V,
    /// Level `0x0e`.
    VCore1_713Ve,
    /// Level `0x0f`.
    VCore1_713Vf,
}

impl VddAd {
    /// The value the chip reads for this setting.
    pub open spec fn spec_bits(self) -> u8 {
        match self {
            VddAd::VCore1_483V => 0,
            VddAd::VCore1_545V => 1,
            VddAd::VCore1_590V => 2,
            VddAd::VCore1_638V => 3,
            VddAd::VCore1_714V => 4,
            VddAd::VCore1_279V => 5,
            VddAd::VCore1_859V => 6,
            VddAd::VCore1_925V => 7,
            VddAd::VCore1_994V => 8,
            VddAd::VCore2_109V => 9,
            VddAd::VCore2_193V => 10,
            VddAd::VCore2_286V => 11,
            VddAd::VCore2_385V => 12,
            VddAd::VCore1_713V => 13,
            VddAd::VCore1_713Ve => 14,
            VddAd::VCore1_713Vf => 15,
        }
    }

    /// The value the chip reads for this setting.
    #[verifier::when_used_as_spec(spec_bits)]
    pub fn bits(self) -> (r: u8)
        ensures
            r == self.spec_bits(),
            r <= 15,
    {
        match self {
            VddAd::VCore1_483V => 0,
            VddAd::VCore1_545V => 1,
            VddAd::VCore1_590V => 2,
            VddAd::VCore1_638V => 3,
            VddAd::VCore1_714V => 4,
            VddAd::VCore1_279V => 5,
            VddAd::VCore1_859V => 6,
            VddAd::VCore1_925V => 7,
            VddAd::VCore1_994V => 8,
            VddAd::VCore2_109V => 9,
            VddAd::VCore2_193V => 10,
            VddAd::VCore2_286V => 11,
            VddAd::VCore2_385V => 12,
            VddAd::VCore1_713V => 13,
            VddAd::VCore1_713Ve => 14,
            VddAd::VCore1_713Vf => 15,
        }
    }
}

impl From<u8> for VddAd {
    fn from(val: u8) -> VddAd {
        match val {
            0 => VddAd::VCore1_483V,
            1 => VddAd::VCore1_545V,
            2 => VddAd::VCore1_590V,
            3 => VddAd::VCore1_638V,
            4 => VddAd::VCore1_714V,
            5 => VddAd::VCore1_279V,
            6 => VddAd::VCore1_859V,
            7 => VddAd::VCore1_925V,
            8 => VddAd::VCore1_994V,
            9 => VddAd::VCore2_109V,
            10 => VddAd::VCore2_193V,
            11 => VddAd::VCore2_286V,
            12 => VddAd::VCore2_385V,
            13 => VddAd::VCore1_713V,
            14 => VddAd::VCore1_713Ve,
            _ => VddAd::VCore1_713Vf,
        }
    }
}

impl vstd::std_specs::convert::FromSpecImpl<u8> for VddAd {
    open spec fn obeys_from_spec() -> bool {
        true
    }

    open spec fn from_spec(v: u8) -> VddAd {
        match v {
            0 => VddAd::VCore1_483V,
            1 => VddAd::VCore1_545V,
            2 => VddAd::VCore1_590V,
            3 => VddAd::VCore1_638V,
            4 => VddAd::VCore1_714V,
            5 => VddAd::VCore1_279V,
            6 => VddAd::VCore1_859V,
            7 => VddAd::VCore1_925V,
            8 => VddAd::VCore1_994V,
            9 => VddAd::VCore2_109V,
            10 => VddAd::VCore2_193V,
            11 => VddAd::VCore2_286V,
            12 => VddAd::VCore2_385V,
            13 => VddAd::VCore1_713V,
            14 => VddAd::VCore1_713Ve,
            _ => VddAd::VCore1_713Vf,
        }
    }
}

/// Gate output scan direction.
#[derive(Debug, Copy, Clone, PartialEq, Eq, Structural)]
pub enum GSMode {
    /// From G1 to G32.
    G1toG32,
    /// From G32 to G1.
    G32toG1,
}

impl GSMode {
    /// The value the chip reads for this setting.
    pub open spec fn spec_bits(self) -> u8 {
        match self {
            GSMode::G1toG32 => 0,
            GSMode::G32toG1 => 1,
        }
    }

    /// The value the chip reads for this setting.
    #[verifier::when_used_as_spec(spec_bits)]
    pub fn bits(self) -> (r: u8)
        ensures
            r == self.spec_bits(),
            r <= 1,
    {
        match self {
            GSMode::G1toG32 => 0,
            GSMode::G32toG1 => 1,
        }
    }
}

impl From<u8> for GSMode {
    fn from(val: u8) -> GSMode {
        match val {
            0 => GSMode::G1toG32,
            _ => GSMode::G32toG1,
        }
    }
}

impl vstd::std_specs::convert::FromSpecImpl<u8> for GSMode {
    open spec fn obeys_from_spec() -> bool {
        true
    }

    open spec fn from_spec(v: u8) -> GSMode {
        match v {
            0 => GSMode::G1toG32,
            _ => GSMode::G32toG1,
        }
    }
}

/// Pixel format of the RGB interface.
#[derive(Debug, Copy, Clone, PartialEq, Eq, Structural)]
pub enum Dpi {
    /// 16 bits per pixel.
    Pixel16bits,
    /// 18 bits per pixel.
    Pixel18bits,
}

impl Dpi {
    /// The value the chip reads for this setting.
    pub open spec fn spec_bits(self) -> u8 {
        match self {
            Dpi::Pixel16bits => 5,
            Dpi::Pixel18bits => 6,
        }
    }

    /// The value the chip reads for this setting.
    #[verifier::when_used_as_spec(spec_bits)]
    pub fn bits(self) -> (r: u8)
        ensures
            r == self.spec_bits(),
            r <= 6,
    {
        match self {
            Dpi::Pixel16bits => 5,
            Dpi::Pixel18bits => 6,
        }
    }
}

/// Pixel format of the MCU interface.
#[derive(Debug, Copy, Clone, PartialEq, Eq, Structural)]
pub enum Dbi {
    /// 12 bits per pixel.
    Pixel12bits,
    /// 16 bits per pixel.
    Pixel16bits,
    /// 18 bits per pixel.
    Pixel18bits,
}

impl Dbi {
    /// The value the chip reads for this setting.
    pub open spec fn spec_bits(self) -> u8 {
        match self {
            Dbi::Pixel12bits => 3,
            Dbi::Pixel16bits => 5,
            Dbi::Pixel18bits => 6,
        }
    }

    /// The value the chip reads for this setting.
    #[verifier::when_used_as_spec(spec_bits)]
    pub fn bits(self) -> (r: u8)
        ensures
            r == self.spec_bits(),
            r <= 6,
    {
        match self {
            Dbi::Pixel12bits => 3,
            Dbi::Pixel16bits => 5,
            Dbi::Pixel18bits => 6,
        }
    }
}

} // verus!
