//! The clock tree of the F1 family: the dividers and multipliers that can be
//! configured, what each does to a frequency, which value each stands for in
//! its register field, and the frequencies that a configuration yields.
//!
//! Nothing here touches the hardware. A configuration is checked and worked
//! out; whoever owns the registers writes what comes out of it.

use vstd::prelude::*;
use vstd::arithmetic::div_mod::lemma_div_nonincreasing;
use vstd::std_specs::convert::FromSpecImpl;
use vstd::std_specs::ops::{DivSpecImpl, MulSpecImpl};

verus! {

/// The frequency of the internal oscillator.
pub const HSI: u32 = 8_000_000;

/// The highest system clock that the family runs at.
pub const SYSCLK_MAX: u32 = 72_000_000;

/// The highest clock of the first peripheral bus.
pub const APB1_MAX: u32 = 36_000_000;

/// A frequency in hertz.
#[derive(Clone, Copy, Debug, PartialEq, Eq, Structural)]
pub struct Hertz(pub u32);

/// Enum for configuring PREDIV1 and PREDIV2
#[derive(Clone, Copy, Debug, PartialEq, Eq, Structural)]
pub enum Prediv {
    NotDivided,
    Div2,
    Div3,
    Div4,
    Div5,
    Div6,
    Div7,
    Div8,
    Div9,
    Div10,
    Div11,
    Div12,
    Div13,
    Div14,
    Div15,
    Div16,
}

impl Prediv {
    /// The number that the divider divides by.
    pub open spec fn divisor(self) -> u32 {
        match self {
            Prediv::NotDivided => 1,
            Prediv::Div2 => 2,
            Prediv::Div3 => 3,
            Prediv::Div4 => 4,
            Prediv::Div5 => 5,
            Prediv::Div6 => 6,
            Prediv::Div7 => 7,
            Prediv::Div8 => 8,
            Prediv::Div9 => 9,
            Prediv::Div10 => 10,
            Prediv::Div11 => 11,
            Prediv::Div12 => 12,
            Prediv::Div13 => 13,
            Prediv::Div14 => 14,
            Prediv::Div15 => 15,
            Prediv::Div16 => 16,
        }
    }
}

impl core::ops::Div<Prediv> for Hertz {
    type Output = Hertz;

    /// The frequency behind the divider: the quotient, rounded down.
    fn div(self, rhs: Prediv) -> (out: Hertz) {
        let divisor: u32 = match rhs {
            Prediv::NotDivided => 1,
            Prediv::Div2 => 2,
            Prediv::Div3 => 3,
            Prediv::Div4 => 4,
            Prediv::Div5 => 5,
            Prediv::Div6 => 6,
            Prediv::Div7 => 7,
            Prediv::Div8 => 8,
            Prediv::Div9 => 9,
            Prediv::Div10 => 10,
            Prediv::Div11 => 11,
            Prediv::Div12 => 12,
            Prediv::Div13 => 13,
            Prediv::Div14 => 14,
            Prediv::Div15 => 15,
            Prediv::Div16 => 16,
        };
        Hertz(self.0 / divisor)
    }
}

impl DivSpecImpl<Prediv> for Hertz {
    open spec fn obeys_div_spec() -> bool {
        true
    }

    open spec fn div_req(self, rhs: Prediv) -> bool {
        true
    }

    open spec fn div_spec(self, rhs: Prediv) -> Hertz {
        Hertz(self.0 / rhs.divisor())
    }
}

/// What the PREDIV1 and PREDIV2 fields hold.
#[derive(Clone, Copy, Debug, PartialEq, Eq, Structural)]
pub enum Prediv1 {
    DIV1,
    DIV2,
    DIV3,
    DIV4,
    DIV5,
    DIV6,
    DIV7,
    DIV8,
    DIV9,
    DIV10,
    DIV11,
    DIV12,
    DIV13,
    DIV14,
    DIV15,
    DIV16,
}

impl core::convert::From<Prediv> for Prediv1 {
    /// The field value that divides by the same number.
    fn from(value: Prediv) -> (field: Prediv1) {
        match value {
            Prediv::NotDivided => Prediv1::DIV1,
            Prediv::Div2 => Prediv1::DIV2,
            Prediv::Div3 => Prediv1::DIV3,
            Prediv::Div4 => Prediv1::DIV4,
            Prediv::Div5 => Prediv1::DIV5,
            Prediv::Div6 => Prediv1::DIV6,
            Prediv::Div7 => Prediv1::DIV7,
            Prediv::Div8 => Prediv1::DIV8,
            Prediv::Div9 => Prediv1::DIV9,
            Prediv::Div10 => Prediv1::DIV10,
            Prediv::Div11 => Prediv1::DIV11,
            Prediv::Div12 => Prediv1::DIV12,
            Prediv::Div13 => Prediv1::DIV13,
            Prediv::Div14 => Prediv1::DIV14,
            Prediv::Div15 => Prediv1::DIV15,
            Prediv::Div16 => Prediv1::DIV16,
        }
    }
}

impl FromSpecImpl<Prediv> for Prediv1 {
    open spec fn obeys_from_spec() -> bool {
        true
    }

    open spec fn from_spec(value: Prediv) -> Prediv1 {
        match value {
            Prediv::NotDivided => Prediv1::DIV1,
            Prediv::Div2 => Prediv1::DIV2,
            Prediv::Div3 => Prediv1::DIV3,
            Prediv::Div4 => Prediv1::DIV4,
            Prediv::Div5 => Prediv1::DIV5,
            Prediv::Div6 => Prediv1::DIV6,
            Prediv::Div7 => Prediv1::DIV7,
            Prediv::Div8 => Prediv1::DIV8,
            Prediv::Div9 => Prediv1::DIV9,
            Prediv::Div10 => Prediv1::DIV10,
            Prediv::Div11 => Prediv1::DIV11,
            Prediv::Div12 => Prediv1::DIV12,
            Prediv::Div13 => Prediv1::DIV13,
            Prediv::Div14 => Prediv1::DIV14,
            Prediv::Div15 => Prediv1::DIV15,
            Prediv::Div16 => Prediv1::DIV16,
        }
    }
}

/// The factors of the main PLL.
#[allow(non_camel_case_types)]
#[derive(Clone, Copy, Debug, PartialEq, Eq, Structural)]
pub enum PllMul {
    Mul4,
    Mul5,
    Mul6,
    Mul7,
    Mul8,
    Mul9,
    Mul6_5,
}

impl PllMul {
    /// What the frequency is multiplied by, before it is divided by the denominator.
    pub open spec fn numerator(self) -> u32 {
        match self {
            PllMul::Mul4 => 4,
            PllMul::Mul5 => 5,
            PllMul::Mul6 => 6,
            PllMul::Mul7 => 7,
            PllMul::Mul8 => 8,
            PllMul::Mul9 => 9,
            PllMul::Mul6_5 => 13,
        }
    }

    /// What the product is divided by: two for the factor six and a half, else one.
    pub open spec fn denominator(self) -> u32 {
        match self {
            PllMul::Mul4 => 1,
            PllMul::Mul5 => 1,
            PllMul::Mul6 => 1,
            PllMul::Mul7 => 1,
            PllMul::Mul8 => 1,
            PllMul::Mul9 => 1,
            PllMul::Mul6_5 => 2,
        }
    }
}

impl core::ops::Mul<PllMul> for Hertz {
    type Output = Hertz;

    /// The frequency behind the PLL, rounded down.
    fn mul(self, rhs: PllMul) -> (out: Hertz) {
        let factors: (u32, u32) = match rhs {
            PllMul::Mul4 => (4, 1),
            PllMul::Mul5 => (5, 1),
            PllMul::Mul6 => (6, 1),
            PllMul::Mul7 => (7, 1),
            PllMul::Mul8 => (8, 1),
            PllMul::Mul9 => (9, 1),
            PllMul::Mul6_5 => (13, 2),
        };
        Hertz(self.0 * factors.0 / factors.1)
    }
}

impl MulSpecImpl<PllMul> for Hertz {
    open spec fn obeys_mul_spec() -> bool {
        true
    }

    open spec fn mul_req(self, rhs: PllMul) -> bool {
        self.0 * rhs.numerator() <= u32::MAX
    }

    open spec fn mul_spec(self, rhs: PllMul) -> Hertz {
        Hertz((self.0 * rhs.numerator() / (rhs.denominator() as int)) as u32)
    }
}

/// What the PLLMUL field holds.
#[derive(Clone, Copy, Debug, PartialEq, Eq, Structural)]
pub enum Pllmul {
    MUL4,
    MUL5,
    MUL6,
    MUL7,
    MUL8,
    MUL9,
    MUL15,
}

impl core::convert::From<PllMul> for Pllmul {
    /// The field value of the factor. The factor six and a half shares its value with the factor fifteen of the parts that have no such factor.
    fn from(value: PllMul) -> (field: Pllmul) {
        match value {
            PllMul::Mul4 => Pllmul::MUL4,
            PllMul::Mul5 => Pllmul::MUL5,
            PllMul::Mul6 => Pllmul::MUL6,
            PllMul::Mul7 => Pllmul::MUL7,
            PllMul::Mul8 => Pllmul::MUL8,
            PllMul::Mul9 => Pllmul::MUL9,
            PllMul::Mul6_5 => Pllmul::MUL15,
        }
    }
}

impl FromSpecImpl<PllMul> for Pllmul {
    open spec fn obeys_from_spec() -> bool {
        true
    }

    open spec fn from_spec(value: PllMul) -> Pllmul {
        match value {
            PllMul::Mul4 => Pllmul::MUL4,
            PllMul::Mul5 => Pllmul::MUL5,
            PllMul::Mul6 => Pllmul::MUL6,
            PllMul::Mul7 => Pllmul::MUL7,
            PllMul::Mul8 => Pllmul::MUL8,
            PllMul::Mul9 => Pllmul::MUL9,
            PllMul::Mul6_5 => Pllmul::MUL15,
        }
    }
}

/// Enum for configuring PLL2 and PLL3 multiplication factors.
#[derive(Clone, Copy, Debug, PartialEq, Eq, Structural)]
pub enum Pll2Mul {
    Mul8,
    Mul9,
    Mul10,
    Mul11,
    Mul12,
    Mul13,
    Mul14,
    Mul16,
    Mul20,
}

impl Pll2Mul {
    /// What the frequency is multiplied by.
    pub open spec fn factor(self) -> u32 {
        match self {
            Pll2Mul::Mul8 => 8,
            Pll2Mul::Mul9 => 9,
            Pll2Mul::Mul10 => 10,
            Pll2Mul::Mul11 => 11,
            Pll2Mul::Mul12 => 12,
            Pll2Mul::Mul13 => 13,
            Pll2Mul::Mul14 => 14,
            Pll2Mul::Mul16 => 16,
            Pll2Mul::Mul20 => 20,
        }
    }
}

impl core::ops::Mul<Pll2Mul> for Hertz {
    type Output = Hertz;

    /// The frequency behind the PLL.
    fn mul(self, rhs: Pll2Mul) -> (out: Hertz) {
        let factor: u32 = match rhs {
            Pll2Mul::Mul8 => 8,
            Pll2Mul::Mul9 => 9,
            Pll2Mul::Mul10 => 10,
            Pll2Mul::Mul11 => 11,
            Pll2Mul::Mul12 => 12,
            Pll2Mul::Mul13 => 13,
            Pll2Mul::Mul14 => 14,
            Pll2Mul::Mul16 => 16,
            Pll2Mul::Mul20 => 20,
        };
        Hertz(self.0 * factor)
    }
}

impl MulSpecImpl<Pll2Mul> for Hertz {
    open spec fn obeys_mul_spec() -> bool {
        true
    }

    open spec fn mul_req(self, rhs: Pll2Mul) -> bool {
        self.0 * rhs.factor() <= u32::MAX
    }

    open spec fn mul_spec(self, rhs: Pll2Mul) -> Hertz {
        Hertz((self.0 * rhs.factor()) as u32)
    }
}

/// What the PLL2MUL and PLL3MUL fields hold.
#[derive(Clone, Copy, Debug, PartialEq, Eq, Structural)]
pub enum Pll2mul {
    MUL8,
    MUL9,
    MUL10,
    MUL11,
    MUL12,
    MUL13,
    MUL14,
    MUL16,
    MUL20,
}

impl core::convert::From<Pll2Mul> for Pll2mul {
    /// The field value of the same factor.
    fn from(value: Pll2Mul) -> (field: Pll2mul) {
        match value {
            Pll2Mul::Mul8 => Pll2mul::MUL8,
            Pll2Mul::Mul9 => Pll2mul::MUL9,
            Pll2Mul::Mul10 => Pll2mul::MUL10,
            Pll2Mul::Mul11 => Pll2mul::MUL11,
            Pll2Mul::Mul12 => Pll2mul::MUL12,
            Pll2Mul::Mul13 => Pll2mul::MUL13,
            Pll2Mul::Mul14 => Pll2mul::MUL14,
            Pll2Mul::Mul16 => Pll2mul::MUL16,
            Pll2Mul::Mul20 => Pll2mul::MUL20,
        }
    }
}

impl FromSpecImpl<Pll2Mul> for Pll2mul {
    open spec fn obeys_from_spec() -> bool {
        true
    }

    open spec fn from_spec(value: Pll2Mul) -> Pll2mul {
        match value {
            Pll2Mul::Mul8 => Pll2mul::MUL8,
            Pll2Mul::Mul9 => Pll2mul::MUL9,
            Pll2Mul::Mul10 => Pll2mul::MUL10,
            Pll2Mul::Mul11 => Pll2mul::MUL11,
            Pll2Mul::Mul12 => Pll2mul::MUL12,
            Pll2Mul::Mul13 => Pll2mul::MUL13,
            Pll2Mul::Mul14 => Pll2mul::MUL14,
            Pll2Mul::Mul16 => Pll2mul::MUL16,
            Pll2Mul::Mul20 => Pll2mul::MUL20,
        }
    }
}

/// Where PREDIV1 takes its input from.
#[derive(Clone, Copy, Debug, PartialEq, Eq, Structural)]
pub enum Prediv1Src {
    Hse,
    Pll2,
}

/// What the PREDIV1SRC field holds.
#[derive(Clone, Copy, Debug, PartialEq, Eq, Structural)]
pub enum Prediv1src {
    HSE,
    PLL2,
}

impl core::convert::From<Prediv1Src> for Prediv1src {
    /// The field value of the same source.
    fn from(value: Prediv1Src) -> (field: Prediv1src) {
        match value {
            Prediv1Src::Hse => Prediv1src::HSE,
            Prediv1Src::Pll2 => Prediv1src::PLL2,
        }
    }
}

impl FromSpecImpl<Prediv1Src> for Prediv1src {
    open spec fn obeys_from_spec() -> bool {
        true
    }

    open spec fn from_spec(value: Prediv1Src) -> Prediv1src {
        match value {
            Prediv1Src::Hse => Prediv1src::HSE,
            Prediv1Src::Pll2 => Prediv1src::PLL2,
        }
    }
}

/// Where the main PLL takes its input from.
#[derive(Clone, Copy, Debug, PartialEq, Eq, Structural)]
pub enum PllSrc {
    HsiDiv2,
    Prediv1,
}

/// What the PLLSRC field holds.
#[allow(non_camel_case_types)]
#[derive(Clone, Copy, Debug, PartialEq, Eq, Structural)]
pub enum Pllsrc {
    HSI_DIV2,
    HSE_DIV_PREDIV,
}

impl core::convert::From<PllSrc> for Pllsrc {
    /// The field value of the same source.
    fn from(value: PllSrc) -> (field: Pllsrc) {
        match value {
            PllSrc::HsiDiv2 => Pllsrc::HSI_DIV2,
            PllSrc::Prediv1 => Pllsrc::HSE_DIV_PREDIV,
        }
    }
}

impl FromSpecImpl<PllSrc> for Pllsrc {
    open spec fn obeys_from_spec() -> bool {
        true
    }

    open spec fn from_spec(value: PllSrc) -> Pllsrc {
        match value {
            PllSrc::HsiDiv2 => Pllsrc::HSI_DIV2,
            PllSrc::Prediv1 => Pllsrc::HSE_DIV_PREDIV,
        }
    }
}

/// What drives the system clock.
#[derive(Clone, Copy, Debug, PartialEq, Eq, Structural)]
pub enum SysclockSrc {
    Hsi,
    Hse,
    Pll,
}

/// What the SW field holds.
#[derive(Clone, Copy, Debug, PartialEq, Eq, Structural)]
pub enum Sw {
    HSI,
    HSE,
    PLL,
}

impl core::convert::From<SysclockSrc> for Sw {
    /// The field value of the same source.
    fn from(value: SysclockSrc) -> (field: Sw) {
        match value {
            SysclockSrc::Hsi => Sw::HSI,
            SysclockSrc::Hse => Sw::HSE,
            SysclockSrc::Pll => Sw::PLL,
        }
    }
}

impl FromSpecImpl<SysclockSrc> for Sw {
    open spec fn obeys_from_spec() -> bool {
        true
    }

    open spec fn from_spec(value: SysclockSrc) -> Sw {
        match value {
            SysclockSrc::Hsi => Sw::HSI,
            SysclockSrc::Hse => Sw::HSE,
            SysclockSrc::Pll => Sw::PLL,
        }
    }
}

/// What is put out on the clock output pin.
#[derive(Clone, Copy, Debug, PartialEq, Eq, Structural)]
pub enum McoSrc {
    Hse,
    Hsi,
    Sysclk,
    PllClkDiv2,
    Pll2Clk,
    Pll3ClkDiv3,
    Pll3Clk,
    Xt1,
}

/// What the MCO field holds.
#[derive(Clone, Copy, Debug, PartialEq, Eq, Structural)]
pub enum Mco {
    NOMCO,
    SYSCLK,
    HSI,
    HSE,
    PLL,
}

impl core::convert::From<McoSrc> for Mco {
    /// The field value of the source, for the four sources that every part has; no output for the others.
    fn from(value: McoSrc) -> (field: Mco) {
        match value {
            McoSrc::Hse => Mco::HSE,
            McoSrc::Hsi => Mco::HSI,
            McoSrc::Sysclk => Mco::SYSCLK,
            McoSrc::PllClkDiv2 => Mco::PLL,
            _ => Mco::NOMCO,
        }
    }
}

impl FromSpecImpl<McoSrc> for Mco {
    open spec fn obeys_from_spec() -> bool {
        true
    }

    open spec fn from_spec(value: McoSrc) -> Mco {
        match value {
            McoSrc::Hse => Mco::HSE,
            McoSrc::Hsi => Mco::HSI,
            McoSrc::Sysclk => Mco::SYSCLK,
            McoSrc::PllClkDiv2 => Mco::PLL,
            _ => Mco::NOMCO,
        }
    }
}

/// The divider between the system clock and the AHB clock.
#[derive(Clone, Copy, Debug, PartialEq, Eq, Structural)]
pub enum AHBPrescaler {
    NotDivided,
    Div2,
    Div4,
    Div8,
    Div16,
    Div64,
    Div128,
    Div256,
    Div512,
}

impl AHBPrescaler {
    /// The number that the divider divides by.
    pub open spec fn divisor(self) -> u32 {
        match self {
            AHBPrescaler::NotDivided => 1,
            AHBPrescaler::Div2 => 2,
            AHBPrescaler::Div4 => 4,
            AHBPrescaler::Div8 => 8,
            AHBPrescaler::Div16 => 16,
            AHBPrescaler::Div64 => 64,
            AHBPrescaler::Div128 => 128,
            AHBPrescaler::Div256 => 256,
            AHBPrescaler::Div512 => 512,
        }
    }
}

impl core::ops::Div<AHBPrescaler> for Hertz {
    type Output = Hertz;

    /// The frequency behind the divider: the quotient, rounded down.
    fn div(self, rhs: AHBPrescaler) -> (out: Hertz) {
        let divisor: u32 = match rhs {
            AHBPrescaler::NotDivided => 1,
            AHBPrescaler::Div2 => 2,
            AHBPrescaler::Div4 => 4,
            AHBPrescaler::Div8 => 8,
            AHBPrescaler::Div16 => 16,
            AHBPrescaler::Div64 => 64,
            AHBPrescaler::Div128 => 128,
            AHBPrescaler::Div256 => 256,
            AHBPrescaler::Div512 => 512,
        };
        Hertz(self.0 / divisor)
    }
}

impl DivSpecImpl<AHBPrescaler> for Hertz {
    open spec fn obeys_div_spec() -> bool {
        true
    }

    open spec fn div_req(self, rhs: AHBPrescaler) -> bool {
        true
    }

    open spec fn div_spec(self, rhs: AHBPrescaler) -> Hertz {
        Hertz(self.0 / rhs.divisor())
    }
}

/// What the HPRE field holds.
#[derive(Clone, Copy, Debug, PartialEq, Eq, Structural)]
pub enum Hpre {
    DIV1,
    DIV2,
    DIV4,
    DIV8,
    DIV16,
    DIV64,
    DIV128,
    DIV256,
    DIV512,
}

impl core::convert::From<AHBPrescaler> for Hpre {
    /// The field value that divides by the same number.
    fn from(value: AHBPrescaler) -> (field: Hpre) {
        match value {
            AHBPrescaler::NotDivided => Hpre::DIV1,
            AHBPrescaler::Div2 => Hpre::DIV2,
            AHBPrescaler::Div4 => Hpre::DIV4,
            AHBPrescaler::Div8 => Hpre::DIV8,
            AHBPrescaler::Div16 => Hpre::DIV16,
            AHBPrescaler::Div64 => Hpre::DIV64,
            AHBPrescaler::Div128 => Hpre::DIV128,
            AHBPrescaler::Div256 => Hpre::DIV256,
            AHBPrescaler::Div512 => Hpre::DIV512,
        }
    }
}

impl FromSpecImpl<AHBPrescaler> for Hpre {
    open spec fn obeys_from_spec() -> bool {
        true
    }

    open spec fn from_spec(value: AHBPrescaler) -> Hpre {
        match value {
            AHBPrescaler::NotDivided => Hpre::DIV1,
            AHBPrescaler::Div2 => Hpre::DIV2,
            AHBPrescaler::Div4 => Hpre::DIV4,
            AHBPrescaler::Div8 => Hpre::DIV8,
            AHBPrescaler::Div16 => Hpre::DIV16,
            AHBPrescaler::Div64 => Hpre::DIV64,
            AHBPrescaler::Div128 => Hpre::DIV128,
            AHBPrescaler::Div256 => Hpre::DIV256,
            AHBPrescaler::Div512 => Hpre::DIV512,
        }
    }
}

/// The divider between the AHB clock and a peripheral bus clock.
#[derive(Clone, Copy, Debug, PartialEq, Eq, Structural)]
pub enum APBPrescaler {
    NotDivided,
    Div2,
    Div4,
    Div8,
    Div16,
}

impl APBPrescaler {
    /// The number that the divider divides by.
    pub open spec fn divisor(self) -> u32 {
        match self {
            APBPrescaler::NotDivided => 1,
            APBPrescaler::Div2 => 2,
            APBPrescaler::Div4 => 4,
            APBPrescaler::Div8 => 8,
            APBPrescaler::Div16 => 16,
        }
    }

    /// What the timers of the bus multiply its clock by: two where the bus
    /// is divided, else one.
    pub open spec fn timer_factor(self) -> u32 {
        if self == APBPrescaler::NotDivided {
            1
        } else {
            2
        }
    }
}

impl core::ops::Div<APBPrescaler> for Hertz {
    type Output = Hertz;

    /// The frequency behind the divider: the quotient, rounded down.
    fn div(self, rhs: APBPrescaler) -> (out: Hertz) {
        let divisor: u32 = match rhs {
            APBPrescaler::NotDivided => 1,
            APBPrescaler::Div2 => 2,
            APBPrescaler::Div4 => 4,
            APBPrescaler::Div8 => 8,
            APBPrescaler::Div16 => 16,
        };
        Hertz(self.0 / divisor)
    }
}

impl DivSpecImpl<APBPrescaler> for Hertz {
    open spec fn obeys_div_spec() -> bool {
        true
    }

    open spec fn div_req(self, rhs: APBPrescaler) -> bool {
        true
    }

    open spec fn div_spec(self, rhs: APBPrescaler) -> Hertz {
        Hertz(self.0 / rhs.divisor())
    }
}

/// What the PPRE1 and PPRE2 fields hold.
#[derive(Clone, Copy, Debug, PartialEq, Eq, Structural)]
pub enum Ppre1 {
    DIV1,
    DIV2,
    DIV4,
    DIV8,
    DIV16,
}

impl core::convert::From<APBPrescaler> for Ppre1 {
    /// The field value that divides by the same number.
    fn from(value: APBPrescaler) -> (field: Ppre1) {
        match value {
            APBPrescaler::NotDivided => Ppre1::DIV1,
            APBPrescaler::Div2 => Ppre1::DIV2,
            APBPrescaler::Div4 => Ppre1::DIV4,
            APBPrescaler::Div8 => Ppre1::DIV8,
            APBPrescaler::Div16 => Ppre1::DIV16,
        }
    }
}

impl FromSpecImpl<APBPrescaler> for Ppre1 {
    open spec fn obeys_from_spec() -> bool {
        true
    }

    open spec fn from_spec(value: APBPrescaler) -> Ppre1 {
        match value {
            APBPrescaler::NotDivided => Ppre1::DIV1,
            APBPrescaler::Div2 => Ppre1::DIV2,
            APBPrescaler::Div4 => Ppre1::DIV4,
            APBPrescaler::Div8 => Ppre1::DIV8,
            APBPrescaler::Div16 => Ppre1::DIV16,
        }
    }
}

/// Configuration of the clocks
#[non_exhaustive]
#[derive(Clone, Copy, Debug)]
pub struct Config {
    pub hse: Option<Hertz>,
    pub prediv1src: Option<Prediv1Src>,
    pub prediv1: Option<Prediv>,
    pub pllmul: Option<PllMul>,
    pub pllsrc: Option<PllSrc>,
    pub prediv2: Option<Prediv>,
    pub pll2mul: Option<Pll2Mul>,
    pub pll3mul: Option<Pll2Mul>,
    pub sysclk_src: Option<SysclockSrc>,
    pub mco_src: Option<McoSrc>,
    pub hpre: Option<AHBPrescaler>,
    pub ppre1: Option<APBPrescaler>,
    pub ppre2: Option<APBPrescaler>,
}

impl Default for Config {
    /// The configuration that changes nothing: the internal oscillator
    /// drives everything, undivided.
    fn default() -> (config: Config)
        ensures
            config.hse is None,
            config.prediv1src is None,
            config.prediv1 is None,
            config.pllmul is None,
            config.pllsrc is None,
            config.prediv2 is None,
            config.pll2mul is None,
            config.pll3mul is None,
            config.sysclk_src is None,
            config.mco_src is None,
            config.hpre is None,
            config.ppre1 is None,
            config.ppre2 is None,
    {
        Config {
            hse: None,
            prediv1src: None,
            prediv1: None,
            pllmul: None,
            pllsrc: None,
            prediv2: None,
            pll2mul: None,
            pll3mul: None,
            sysclk_src: None,
            mco_src: None,
            hpre: None,
            ppre1: None,
            ppre2: None,
        }
    }
}

/// The frequencies that a configuration yields, and what follows from them.
#[derive(Clone, Copy, Debug, PartialEq, Eq)]
pub struct ClockTree {
    /// The output of PLL2, where it is configured.
    pub pll2clk: Option<Hertz>,
    /// The output of PLL3, where it is configured.
    pub pll3clk: Option<Hertz>,
    /// The output of PREDIV1, where it is configured.
    pub prediv1clk: Option<Hertz>,
    /// The output of the main PLL, where it is configured.
    pub pllclk: Option<Hertz>,
    /// The system clock.
    pub sysclk: Hertz,
    /// The AHB clock.
    pub ahbclk: Hertz,
    /// The clock of the first peripheral bus.
    pub apb1clk: Hertz,
    /// The clock of the timers on the first peripheral bus.
    pub apb1clk_tim: Hertz,
    /// The clock of the second peripheral bus.
    pub apb2clk: Hertz,
    /// The clock of the timers on the second peripheral bus.
    pub apb2clk_tim: Hertz,
    /// The frequency on the clock output pin.
    pub mco: Hertz,
    /// The wait states of the flash at this system clock.
    pub latency: u8,
    /// What is written to the MCO field ahead of its mapped value, for the
    /// sources that need it.
    pub mco_select: Option<u8>,
}

/// The frequencies that are reported to the drivers once the clocks are set.
#[derive(Clone, Copy, Debug, PartialEq, Eq)]
pub struct Clocks {
    pub sys: Hertz,
    pub apb1: Hertz,
    pub apb2: Hertz,
    pub apb1_tim: Hertz,
    pub apb2_tim: Hertz,
    pub ahb1: Hertz,
    pub adc: Hertz,
}

/// The clock of a peripheral bus behind the divider `ppre`: the AHB clock,
/// divided where a divider is set.
pub open spec fn bus_clk(ahbclk: Hertz, ppre: Option<APBPrescaler>) -> Hertz {
    match ppre {
        Some(p) => Hertz(ahbclk.0 / p.divisor()),
        None => ahbclk,
    }
}

/// The clock of the timers on a peripheral bus behind the divider `ppre`:
/// twice the clock of the bus where the bus is divided, else the same.
pub open spec fn bus_tim_clk(ahbclk: Hertz, ppre: Option<APBPrescaler>) -> Hertz {
    match ppre {
        Some(p) => Hertz((bus_clk(ahbclk, ppre).0 * p.timer_factor()) as u32),
        None => ahbclk,
    }
}

impl Config {
    /// Whether PLL2 or PLL3 can run with the factor `mul`, if one is given:
    /// the external oscillator and PREDIV2 must be configured, and the
    /// product must be a frequency.
    pub open spec fn aux_pll_ok(&self, mul: Option<Pll2Mul>) -> bool {
        mul matches Some(m) ==> self.hse is Some && self.prediv2 is Some && self.hse.unwrap().0
            / self.prediv2.unwrap().divisor() * m.factor() <= u32::MAX
    }

    /// The output of PLL2 or PLL3 with the factor `mul`: the external
    /// oscillator, divided by PREDIV2, times the factor.
    pub open spec fn aux_pll_clk(&self, mul: Option<Pll2Mul>) -> Option<Hertz> {
        match mul {
            Some(m) => Some(
                Hertz((self.hse.unwrap().0 / self.prediv2.unwrap().divisor() * m.factor()) as u32),
            ),
            None => None,
        }
    }

    /// Whether PREDIV1 has its input, if it is configured.
    pub open spec fn prediv1_ok(&self) -> bool {
        self.prediv1 is Some ==> match self.prediv1src {
            Some(Prediv1Src::Hse) => self.hse is Some,
            Some(Prediv1Src::Pll2) => self.pll2mul is Some,
            None => false,
        }
    }

    /// The input of PREDIV1: the external oscillator or PLL2.
    pub open spec fn prediv1_in(&self) -> Hertz {
        match self.prediv1src {
            Some(Prediv1Src::Pll2) => self.aux_pll_clk(self.pll2mul).unwrap(),
            _ => self.hse.unwrap(),
        }
    }

    /// The output of PREDIV1, where it is configured.
    pub open spec fn prediv1clk(&self) -> Option<Hertz> {
        match self.prediv1 {
            Some(p) => Some(Hertz(self.prediv1_in().0 / p.divisor())),
            None => None,
        }
    }

    /// The input of the main PLL: half the internal oscillator, or PREDIV1.
    pub open spec fn pll_in(&self) -> Hertz {
        match self.pllsrc {
            Some(PllSrc::Prediv1) => self.prediv1clk().unwrap(),
            _ => Hertz(4_000_000),
        }
    }

    /// Whether the main PLL can run, if it is configured: its source must be
    /// chosen and configured, and the product must be a frequency.
    pub open spec fn pll_ok(&self) -> bool {
        self.pllmul matches Some(m) ==> self.pllsrc is Some && (self.pllsrc == Some(PllSrc::Prediv1)
            ==> self.prediv1 is Some) && self.pll_in().0 * m.numerator() <= u32::MAX
    }

    /// The output of the main PLL, where it is configured.
    pub open spec fn pllclk(&self) -> Option<Hertz> {
        match self.pllmul {
            Some(m) => Some(
                Hertz((self.pll_in().0 * m.numerator() / (m.denominator() as int)) as u32),
            ),
            None => None,
        }
    }

    /// Whether the source of the system clock is configured.
    pub open spec fn sysclk_ok(&self) -> bool {
        match self.sysclk_src {
            Some(SysclockSrc::Hse) => self.hse is Some,
            Some(SysclockSrc::Pll) => self.pllmul is Some,
            _ => true,
        }
    }

    /// The system clock: the internal oscillator unless another source is
    /// chosen.
    pub open spec fn sysclk(&self) -> Hertz {
        match self.sysclk_src {
            Some(SysclockSrc::Hse) => self.hse.unwrap(),
            Some(SysclockSrc::Pll) => self.pllclk().unwrap(),
            _ => Hertz(HSI),
        }
    }

    /// The AHB clock.
    pub open spec fn ahbclk(&self) -> Hertz {
        match self.hpre {
            Some(hpre) => Hertz(self.sysclk().0 / hpre.divisor()),
            None => self.sysclk(),
        }
    }

    /// The clock of a peripheral bus behind the divider `ppre`.
    pub open spec fn apbclk(&self, ppre: Option<APBPrescaler>) -> Hertz {
        bus_clk(self.ahbclk(), ppre)
    }

    /// The clock of the timers on a peripheral bus behind the divider
    /// `ppre`.
    pub open spec fn apbclk_tim(&self, ppre: Option<APBPrescaler>) -> Hertz {
        bus_tim_clk(self.ahbclk(), ppre)
    }

    /// Whether the source of the clock output is configured.
    pub open spec fn mco_ok(&self) -> bool {
        match self.mco_src {
            Some(McoSrc::Hse) | Some(McoSrc::Xt1) => self.hse is Some,
            Some(McoSrc::PllClkDiv2) => self.pllmul is Some,
            Some(McoSrc::Pll2Clk) => self.pll2mul is Some,
            Some(McoSrc::Pll3ClkDiv3) | Some(McoSrc::Pll3Clk) => self.pll3mul is Some,
            _ => true,
        }
    }

    /// The frequency on the clock output pin: the system clock unless a
    /// source is chosen.
    pub open spec fn mco(&self) -> Hertz {
        match self.mco_src {
            Some(McoSrc::Hse) | Some(McoSrc::Xt1) => self.hse.unwrap(),
            Some(McoSrc::Hsi) => Hertz(HSI),
            Some(McoSrc::PllClkDiv2) => Hertz(self.pllclk().unwrap().0 / 2),
            Some(McoSrc::Pll2Clk) => self.aux_pll_clk(self.pll2mul).unwrap(),
            Some(McoSrc::Pll3ClkDiv3) => Hertz(self.aux_pll_clk(self.pll3mul).unwrap().0 / 3),
            Some(McoSrc::Pll3Clk) => self.aux_pll_clk(self.pll3mul).unwrap(),
            _ => self.sysclk(),
        }
    }

    /// What is written to the MCO field ahead of the mapped value: 6 for the
    /// external oscillator and 10 for the crystal, nothing for other sources.
    pub open spec fn mco_select(&self) -> Option<u8> {
        match self.mco_src {
            Some(McoSrc::Hse) => Some(0x06u8),
            Some(McoSrc::Xt1) => Some(0x0au8),
            _ => None,
        }
    }

    /// The wait states of the flash: none up to 24 MHz, one up to 48 MHz,
    /// two above.
    pub open spec fn latency(&self) -> u8 {
        if self.sysclk().0 <= 24_000_000 {
            0
        } else if self.sysclk().0 <= 48_000_000 {
            1
        } else {
            2
        }
    }

    /// Whether the configuration can be applied: every clock that is used has
    /// its source configured, every product is a frequency, the system clock
    /// does not exceed 72 MHz and the first peripheral bus does not exceed
    /// 36 MHz.
    pub open spec fn valid(&self) -> bool {
        &&& self.prediv2 is Some ==> self.hse is Some
        &&& self.aux_pll_ok(self.pll2mul)
        &&& self.aux_pll_ok(self.pll3mul)
        &&& self.prediv1_ok()
        &&& self.pll_ok()
        &&& self.sysclk_ok()
        &&& self.sysclk().0 <= SYSCLK_MAX
        &&& self.apbclk(self.ppre1).0 <= APB1_MAX
        &&& self.mco_ok()
    }

    /// The clock tree of a configuration that can be applied.
    pub open spec fn tree(&self) -> ClockTree {
        ClockTree {
            pll2clk: self.aux_pll_clk(self.pll2mul),
            pll3clk: self.aux_pll_clk(self.pll3mul),
            prediv1clk: self.prediv1clk(),
            pllclk: self.pllclk(),
            sysclk: self.sysclk(),
            ahbclk: self.ahbclk(),
            apb1clk: self.apbclk(self.ppre1),
            apb1clk_tim: self.apbclk_tim(self.ppre1),
            apb2clk: self.apbclk(self.ppre2),
            apb2clk_tim: self.apbclk_tim(self.ppre2),
            mco: self.mco(),
            latency: self.latency(),
            mco_select: self.mco_select(),
        }
    }
}

/// Whether `hz` times `factor` is a frequency.
fn fits(hz: u32, factor: u32) -> (ok: bool)
    ensures
        ok == (hz * factor <= u32::MAX),
{
    assert(hz * factor <= 0xffff_ffff * 0xffff_ffff) by (nonlinear_arith)
        requires
            0 <= hz <= 0xffff_ffff,
            0 <= factor <= 0xffff_ffff,
    ;
    let product: u64 = hz as u64 * factor as u64;
    product <= 0xffff_ffff
}

/// The output of PLL2 or PLL3 with the factor `mul`, or nothing where it
/// cannot run.
fn aux_pll(config: &Config, mul: Option<Pll2Mul>) -> (r: Option<Option<Hertz>>)
    ensures
        config.aux_pll_ok(mul) ==> r == Some(config.aux_pll_clk(mul)),
        !config.aux_pll_ok(mul) ==> r is None,
{
    match mul {
        None => Some(None),
        Some(m) => {
            let hse = match config.hse {
                Some(hse) => hse,
                None => {
                    return None;
                },
            };
            let prediv2 = match config.prediv2 {
                Some(p) => p,
                None => {
                    return None;
                },
            };
            let input = hse / prediv2;
            let factor: u32 = match m {
                Pll2Mul::Mul8 => 8,
                Pll2Mul::Mul9 => 9,
                Pll2Mul::Mul10 => 10,
                Pll2Mul::Mul11 => 11,
                Pll2Mul::Mul12 => 12,
                Pll2Mul::Mul13 => 13,
                Pll2Mul::Mul14 => 14,
                Pll2Mul::Mul16 => 16,
                Pll2Mul::Mul20 => 20,
            };
            if !fits(input.0, factor) {
                return None;
            }
            Some(Some(input * m))
        },
    }
}

/// The output of PREDIV1, or nothing where it lacks its input.
fn prediv1_clock(config: &Config, pll2clk: Option<Hertz>) -> (r: Option<Option<Hertz>>)
    requires
        pll2clk == config.aux_pll_clk(config.pll2mul),
    ensures
        config.prediv1_ok() ==> r == Some(config.prediv1clk()),
        !config.prediv1_ok() ==> r is None,
{
    match config.prediv1 {
        None => Some(None),
        Some(prediv1) => {
            let in_freq = match config.prediv1src {
                None => {
                    return None;
                },
                Some(Prediv1Src::Hse) => match config.hse {
                    Some(hse) => hse,
                    None => {
                        return None;
                    },
                },
                Some(Prediv1Src::Pll2) => match pll2clk {
                    Some(clk) => clk,
                    None => {
                        return None;
                    },
                },
            };
            Some(Some(in_freq / prediv1))
        },
    }
}

/// The output of the main PLL, or nothing where it cannot run.
fn pll_clock(config: &Config, prediv1clk: Option<Hertz>) -> (r: Option<Option<Hertz>>)
    requires
        prediv1clk == config.prediv1clk(),
    ensures
        config.pll_ok() ==> r == Some(config.pllclk()),
        !config.pll_ok() ==> r is None,
{
    match config.pllmul {
        None => Some(None),
        Some(pllmul) => {
            let in_freq = match config.pllsrc {
                None => {
                    return None;
                },
                Some(PllSrc::HsiDiv2) => Hertz(4_000_000),
                Some(PllSrc::Prediv1) => match prediv1clk {
                    Some(clk) => clk,
                    None => {
                        return None;
                    },
                },
            };
            let numerator: u32 = match pllmul {
                PllMul::Mul4 => 4,
                PllMul::Mul5 => 5,
                PllMul::Mul6 => 6,
                PllMul::Mul7 => 7,
                PllMul::Mul8 => 8,
                PllMul::Mul9 => 9,
                PllMul::Mul6_5 => 13,
            };
            if !fits(in_freq.0, numerator) {
                return None;
            }
            Some(Some(in_freq * pllmul))
        },
    }
}

/// The system clock, or nothing where its source is not configured.
fn system_clock(config: &Config, pllclk: Option<Hertz>) -> (r: Option<Hertz>)
    requires
        pllclk == config.pllclk(),
    ensures
        config.sysclk_ok() ==> r == Some(config.sysclk()),
        !config.sysclk_ok() ==> r is None,
{
    match config.sysclk_src {
        None => Some(Hertz(HSI)),
        Some(SysclockSrc::Hsi) => Some(Hertz(HSI)),
        Some(SysclockSrc::Hse) => config.hse,
        Some(SysclockSrc::Pll) => pllclk,
    }
}

/// The clock of a peripheral bus and of its timers.
fn bus_clocks(ahbclk: Hertz, ppre: Option<APBPrescaler>) -> (r: (Hertz, Hertz))
    requires
        ahbclk.0 <= SYSCLK_MAX,
    ensures
        r.0 == bus_clk(ahbclk, ppre),
        r.1 == bus_tim_clk(ahbclk, ppre),
        r.0.0 <= ahbclk.0,
{
    match ppre {
        Some(p) => {
            let clk = ahbclk / p;
            proof {
                lemma_div_nonincreasing(ahbclk.0 as int, p.divisor() as int);
            }
            let tim = match p {
                APBPrescaler::NotDivided => clk,
                _ => Hertz(clk.0 * 2),
            };
            (clk, tim)
        },
        None => (ahbclk, ahbclk),
    }
}

/// The frequency on the clock output pin, or nothing where its source is not
/// configured.
fn mco_clock(
    config: &Config,
    sysclk: Hertz,
    pllclk: Option<Hertz>,
    pll2clk: Option<Hertz>,
    pll3clk: Option<Hertz>,
) -> (r: Option<Hertz>)
    requires
        sysclk == config.sysclk(),
        pllclk == config.pllclk(),
        pll2clk == config.aux_pll_clk(config.pll2mul),
        pll3clk == config.aux_pll_clk(config.pll3mul),
    ensures
        config.mco_ok() ==> r == Some(config.mco()),
        !config.mco_ok() ==> r is None,
{
    match config.mco_src {
        None => Some(sysclk),
        Some(McoSrc::Hse) => config.hse,
        Some(McoSrc::Xt1) => config.hse,
        Some(McoSrc::Hsi) => Some(Hertz(HSI)),
        Some(McoSrc::Sysclk) => Some(sysclk),
        Some(McoSrc::PllClkDiv2) => match pllclk {
            Some(clk) => Some(Hertz(clk.0 / 2)),
            None => None,
        },
        Some(McoSrc::Pll2Clk) => pll2clk,
        Some(McoSrc::Pll3ClkDiv3) => match pll3clk {
            Some(clk) => Some(Hertz(clk.0 / 3)),
            None => None,
        },
        Some(McoSrc::Pll3Clk) => pll3clk,
    }
}

/// Works out the clock tree of `config`, or nothing where the configuration
/// cannot be applied. The owner of the registers then switches on what is
/// configured, waits for each oscillator and PLL to be ready, writes the
/// field values and the flash latency, and switches the system clock over.
pub fn init(config: &Config) -> (r: Option<ClockTree>)
    ensures
        config.valid() ==> r == Some(config.tree()),
        !config.valid() ==> r is None,
{
    if config.prediv2.is_some() && config.hse.is_none() {
        return None;
    }
    // PLL2 and PLL3 come before the main PLL, which may run from PLL2.
    let pll2clk = match aux_pll(config, config.pll2mul) {
        Some(clk) => clk,
        None => {
            return None;
        },
    };
    let pll3clk = match aux_pll(config, config.pll3mul) {
        Some(clk) => clk,
        None => {
            return None;
        },
    };
    let prediv1clk = match prediv1_clock(config, pll2clk) {
        Some(clk) => clk,
        None => {
            return None;
        },
    };
    let pllclk = match pll_clock(config, prediv1clk) {
        Some(clk) => clk,
        None => {
            return None;
        },
    };
    let sysclk = match system_clock(config, pllclk) {
        Some(clk) => clk,
        None => {
            return None;
        },
    };
    if sysclk.0 > SYSCLK_MAX {
        return None;
    }
    let latency: u8 = if sysclk.0 <= 24_000_000 {
        0
    } else if sysclk.0 <= 48_000_000 {
        1
    } else {
        2
    };
    let ahbclk = match config.hpre {
        Some(hpre) => {
            proof {
                lemma_div_nonincreasing(sysclk.0 as int, hpre.divisor() as int);
            }
            sysclk / hpre
        },
        None => sysclk,
    };
    let (apb1clk, apb1clk_tim) = bus_clocks(ahbclk, config.ppre1);
    let (apb2clk, apb2clk_tim) = bus_clocks(ahbclk, config.ppre2);
    if apb1clk.0 > APB1_MAX {
        return None;
    }
    let mco = match mco_clock(config, sysclk, pllclk, pll2clk, pll3clk) {
        Some(clk) => clk,
        None => {
            return None;
        },
    };
    let mco_select: Option<u8> = match config.mco_src {
        Some(McoSrc::Hse) => Some(0x06),
        Some(McoSrc::Xt1) => Some(0x0a),
        _ => None,
    };
    Some(
        ClockTree {
            pll2clk,
            pll3clk,
            prediv1clk,
            pllclk,
            sysclk,
            ahbclk,
            apb1clk,
            apb1clk_tim,
            apb2clk,
            apb2clk_tim,
            mco,
            latency,
            mco_select,
        },
    )
}

/// The frequencies that are reported to the drivers, whatever was
/// configured: those of a part that runs at its highest clocks.
pub fn reported_clocks() -> (clocks: Clocks)
    ensures
        clocks == (Clocks {
            sys: Hertz(72_000_000),
            apb1: Hertz(36_000_000),
            apb2: Hertz(36_000_000),
            apb1_tim: Hertz(72_000_000),
            apb2_tim: Hertz(72_000_000),
            ahb1: Hertz(72_000_000),
            adc: Hertz(36_000_000),
        }),
{
    Clocks {
        sys: Hertz(72_000_000),
        apb1: Hertz(36_000_000),
        apb2: Hertz(36_000_000),
        apb1_tim: Hertz(72_000_000),
        apb2_tim: Hertz(72_000_000),
        ahb1: Hertz(72_000_000),
        adc: Hertz(36_000_000),
    }
}

} // verus!
