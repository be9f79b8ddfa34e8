//! Prescaler arithmetic: from a sampling frequency to the clock divider fields, and back.
//!
//! The sampling frequency is `Fs = i2s_clock / (coef * division)` where
//!  - `coef` depends on the standard, the channel length and the master clock: it is
//!    `128 * nb_chan` when the master clock is enabled and `channel_length * nb_chan` when it is
//!    not; `nb_chan` is 2 with the Philips, MSB and LSB standards and 1 with the PCM standards;
//!  - `division = 2 * div + odd`, with `div` and `odd` the fields of the prescaler register.
//!
//! The hardware accepts the divisions from 4 to 511.

use vstd::prelude::*;
use vstd::arithmetic::div_mod::{
    lemma_div_is_ordered_by_denominator, lemma_fundamental_div_mod,
    lemma_fundamental_div_mod_converse, lemma_mod_bound,
};
use crate::driver::{ConfigError, DataFormat, I2sStandard};
use crate::registers::{I2SCFGR_CHLEN, I2SCFGR_I2SSTD, I2SPR_I2SDIV, I2SPR_MCKOE, I2SPR_ODD};
use crate::registers::{spec_has_bits, spec_i2scfgr_word, spec_i2spr_word};
use crate::registers::{spec_format_field, spec_i2scfg_field, spec_i2sstd_field};
use crate::driver::{SlaveOrMaster, TransmitOrReceive};

verus! {

/// The smallest division the hardware accepts.
pub const DIVISION_MIN: u32 = 4;

/// The largest division the hardware accepts.
pub const DIVISION_MAX: u32 = 511;

/// Number of audio channels of a standard.
pub open spec fn spec_nb_channels(standard: I2sStandard) -> int {
    match standard {
        I2sStandard::PcmShortSync | I2sStandard::PcmLongSync => 1,
        _ => 2,
    }
}

/// Number of clock cycles per sample and per unit of division.
pub open spec fn spec_coef(master_clock: bool, standard: I2sStandard, format: DataFormat) -> int {
    if master_clock {
        128 * spec_nb_channels(standard)
    } else if format == DataFormat::Data16Channel16 {
        16 * spec_nb_channels(standard)
    } else {
        32 * spec_nb_channels(standard)
    }
}

/// The division that a pair of prescaler fields stands for.
pub open spec fn spec_division(odd: bool, div: u8) -> int {
    2 * div + if odd { 1int } else { 0int }
}

/// The prescaler fields `(odd, div)` of a division.
pub open spec fn spec_prescaler_fields(division: int) -> (bool, u8) {
    (division % 2 == 1, (division / 2) as u8)
}

/// `n / d` rounded to the nearest integer, halves rounded up.
pub open spec fn spec_div_round(n: int, d: int) -> int
    recommends
        d > 0,
{
    (n + d / 2) / d
}

/// A division brought into the range that the hardware accepts.
pub open spec fn spec_clip(division: int) -> int {
    if division < 4 {
        4
    } else if division > 511 {
        511
    } else {
        division
    }
}

/// The division used for a requested sampling frequency: the rounded quotient of the clock
/// by `coef * rate`, clipped. There is no quotient for a frequency of 0; the largest division
/// is used then.
pub open spec fn spec_request_division(i2s_clock: int, coef: int, rate: int) -> int {
    if coef * rate <= 0 {
        511
    } else {
        spec_clip(spec_div_round(i2s_clock, coef * rate))
    }
}

/// The division that gives exactly a required sampling frequency, if there is one that the
/// hardware accepts.
pub open spec fn spec_require_division(i2s_clock: int, coef: int, rate: int) -> Option<int> {
    if coef * rate > 0 && i2s_clock % (coef * rate) == 0 && 4 <= i2s_clock / (coef * rate) <= 511 {
        Some(i2s_clock / (coef * rate))
    } else {
        None
    }
}

/// The sampling frequency that a division gives.
pub open spec fn spec_effective_rate(i2s_clock: int, coef: int, division: int) -> int
    recommends
        coef * division > 0,
{
    i2s_clock / (coef * division)
}

/// Distance between the sampling frequency that a division gives and the one wanted.
pub open spec fn spec_rate_error(i2s_clock: int, coef: int, division: int, rate: int) -> int {
    let actual = spec_effective_rate(i2s_clock, coef, division);
    if actual >= rate {
        actual - rate
    } else {
        rate - actual
    }
}

/// Distance between the clock and the product of a division by `coef * rate`.
pub open spec fn spec_division_error(i2s_clock: int, coef: int, division: int, rate: int) -> int {
    let product = division * (coef * rate);
    if product >= i2s_clock {
        product - i2s_clock
    } else {
        i2s_clock - product
    }
}

/// The sampling frequency that the content of the configuration and prescaler registers gives.
/// A prescaler register that reads as zero stands for no clock at all: the frequency is 0.
pub open spec fn spec_sample_rate(i2s_freq: u32, i2scfgr: u32, i2spr: u32) -> int {
    let nb_chan: int = if i2scfgr & I2SCFGR_I2SSTD == I2SCFGR_I2SSTD { 1 } else { 2 };
    let channel_length: int = if spec_has_bits(i2scfgr, I2SCFGR_CHLEN) { 32 } else { 16 };
    let coef: int = if spec_has_bits(i2spr, I2SPR_MCKOE) { 128 * nb_chan } else { channel_length * nb_chan };
    let division: int = 2 * (i2spr & I2SPR_I2SDIV) + if spec_has_bits(i2spr, I2SPR_ODD) { 1int } else { 0int };
    if division == 0 {
        0
    } else {
        (i2s_freq as int) / (coef * division)
    }
}

/// The three divisions around the exact quotient of the clock by `coef * rate`, each brought
/// into the range that the hardware accepts.
pub open spec fn spec_is_candidate(i2s_clock: int, coef: int, rate: int, division: int) -> bool {
    let floor = i2s_clock / (coef * rate);
    ||| division == spec_clip(floor - 1)
    ||| division == spec_clip(floor)
    ||| division == spec_clip(floor + 1)
}

/// Whether the division nearest to the exact quotient is also the one whose sampling
/// frequency is nearest to `rate`, of the two divisions around the quotient. The question
/// only arises where both are in the range that the hardware accepts.
///
/// The two can differ because the sampling frequency is inversely proportional to the
/// division and is itself rounded down. With a clock of 6 865 920 Hz, a `coef` of 32 and a
/// rate of 48 000 Hz the quotient is 4.47: division 4 is nearer, and gives 53 640 Hz, yet
/// division 5 gives 42 912 Hz, which is nearer to the rate.
pub open spec fn spec_rounding_agrees(i2s_clock: int, coef: int, rate: int) -> bool {
    let cycles = coef * rate;
    let floor = i2s_clock / cycles;
    4 <= floor <= 510 ==> {
        let above = spec_effective_rate(i2s_clock, coef, floor) - rate;
        let below = rate - spec_effective_rate(i2s_clock, coef, floor + 1);
        if 2 * (i2s_clock % cycles) < cycles {
            above <= below
        } else {
            below <= above
        }
    }
}

proof fn lemma_mul_le(a: int, b: int, m: int)
    requires
        a <= b,
        m >= 0,
    ensures
        a * m <= b * m,
{
    assert(a * m <= b * m) by (nonlinear_arith)
        requires
            a <= b,
            m >= 0,
    ;
}

/// `x / d` is at least `k` when `x` is at least `k * d`, and below `k` when `x` is below
/// `k * d`.
proof fn lemma_div_against_multiple(x: int, d: int, k: int)
    requires
        d > 0,
    ensures
        x >= k * d ==> x / d >= k,
        x < k * d ==> x / d < k,
{
    lemma_fundamental_div_mod(x, d);
    lemma_mod_bound(x, d);
    let q = x / d;
    if x >= k * d && q < k {
        lemma_mul_le(q + 1, k, d);
        assert((q + 1) * d == d * q + d) by (nonlinear_arith);
    }
    if x < k * d && q >= k {
        lemma_mul_le(k, q, d);
        assert(q * d == d * q) by (nonlinear_arith);
    }
}

/// The rounded quotient is the floor of the quotient when the remainder is below half of the
/// divisor, and one more when it is not.
proof fn lemma_div_round_is_floor_or_next(n: int, d: int)
    requires
        n >= 0,
        d > 0,
    ensures
        spec_div_round(n, d) == if 2 * (n % d) < d { n / d } else { n / d + 1 },
{
    lemma_fundamental_div_mod(n, d);
    lemma_mod_bound(n, d);
    let q = n / d;
    let r = n % d;
    let h = d / 2;
    if 2 * r < d {
        assert(n + h == q * d + (r + h)) by (nonlinear_arith)
            requires
                n == d * q + r,
        ;
        lemma_fundamental_div_mod_converse(n + h, d, q, r + h);
    } else {
        assert(n + h == (q + 1) * d + (r + h - d)) by (nonlinear_arith)
            requires
                n == d * q + r,
        ;
        lemma_fundamental_div_mod_converse(n + h, d, q + 1, r + h - d);
    }
}

/// The division of a request lies in the range that the hardware accepts, whatever the clock
/// and the frequency.
pub proof fn lemma_request_in_range(i2s_clock: int, coef: int, rate: int)
    ensures
        4 <= spec_request_division(i2s_clock, coef, rate) <= 511,
{
}

/// Of all the divisions that the hardware accepts, the division of a request is one whose
/// product by `coef * rate` is nearest to the clock.
pub proof fn lemma_request_nearest_division(i2s_clock: int, coef: int, rate: int, other: int)
    requires
        i2s_clock >= 0,
        coef > 0,
        rate > 0,
        4 <= other <= 511,
    ensures
        spec_division_error(i2s_clock, coef, spec_request_division(i2s_clock, coef, rate), rate)
            <= spec_division_error(i2s_clock, coef, other, rate),
{
    let m = coef * rate;
    assert(m > 0) by (nonlinear_arith)
        requires
            m == coef * rate,
            coef > 0,
            rate > 0,
    ;
    let h = m / 2;
    let q0 = spec_div_round(i2s_clock, m);
    let q = spec_request_division(i2s_clock, coef, rate);
    lemma_fundamental_div_mod(i2s_clock + h, m);
    lemma_mod_bound(i2s_clock + h, m);
    let r0 = (i2s_clock + h) % m;
    let e = h - r0;
    assert(q0 * m == m * q0) by (nonlinear_arith);
    assert(q0 * m - i2s_clock == e);
    if q0 < 4 {
        lemma_mul_le(q0 + 1, 4, m);
        lemma_mul_le(4, other, m);
        assert((q0 + 1) * m == q0 * m + m) by (nonlinear_arith);
    } else if q0 > 511 {
        lemma_mul_le(511, q0 - 1, m);
        lemma_mul_le(other, 511, m);
        assert((q0 - 1) * m == q0 * m - m) by (nonlinear_arith);
    } else if other > q0 {
        lemma_mul_le(q0 + 1, other, m);
        assert((q0 + 1) * m == q0 * m + m) by (nonlinear_arith);
    } else if other < q0 {
        lemma_mul_le(other, q0 - 1, m);
        assert((q0 - 1) * m == q0 * m - m) by (nonlinear_arith);
    }
}

/// The sampling frequency of a division is at least `rate` up to the floor of the exact
/// quotient, below `rate` above it, and never grows with the division.
proof fn lemma_effective_rate_sides(i2s_clock: int, coef: int, rate: int, division: int)
    requires
        i2s_clock >= 0,
        coef > 0,
        rate > 0,
        division >= 1,
    ensures
        division <= i2s_clock / (coef * rate) ==> spec_effective_rate(i2s_clock, coef, division)
            >= rate,
        division > i2s_clock / (coef * rate) ==> spec_effective_rate(i2s_clock, coef, division)
            < rate,
        division >= 2 ==> spec_effective_rate(i2s_clock, coef, division - 1)
            >= spec_effective_rate(i2s_clock, coef, division),
{
    let m = coef * rate;
    assert(m > 0) by (nonlinear_arith)
        requires
            m == coef * rate,
            coef > 0,
            rate > 0,
    ;
    let n = i2s_clock / m;
    let b = coef * division;
    assert(b > 0 && rate * b == division * m) by (nonlinear_arith)
        requires
            b == coef * division,
            m == coef * rate,
            coef > 0,
            division >= 1,
    ;
    lemma_fundamental_div_mod(i2s_clock, m);
    lemma_mod_bound(i2s_clock, m);
    assert(n * m == m * n) by (nonlinear_arith);
    if division <= n {
        lemma_mul_le(division, n, m);
    } else {
        lemma_mul_le(n + 1, division, m);
        assert((n + 1) * m == n * m + m) by (nonlinear_arith);
    }
    lemma_div_against_multiple(i2s_clock, b, rate);
    if division >= 2 {
        let a = coef * (division - 1);
        assert(1 <= a <= b) by (nonlinear_arith)
            requires
                a == coef * (division - 1),
                b == coef * division,
                coef > 0,
                division >= 2,
        ;
        lemma_div_is_ordered_by_denominator(i2s_clock, a, b);
    }
}

/// Of the three divisions around the exact quotient, each brought into the accepted range,
/// the division of a request gives a sampling frequency nearest to the requested one,
/// wherever rounding the division and rounding the frequency agree.
pub proof fn lemma_request_rate_error_minimal(i2s_clock: int, coef: int, rate: int, candidate: int)
    requires
        i2s_clock >= 0,
        coef > 0,
        rate > 0,
        spec_rounding_agrees(i2s_clock, coef, rate),
        spec_is_candidate(i2s_clock, coef, rate, candidate),
    ensures
        spec_rate_error(i2s_clock, coef, spec_request_division(i2s_clock, coef, rate), rate)
            <= spec_rate_error(i2s_clock, coef, candidate, rate),
{
    let m = coef * rate;
    assert(m > 0) by (nonlinear_arith)
        requires
            m == coef * rate,
            coef > 0,
            rate > 0,
    ;
    let n = i2s_clock / m;
    lemma_fundamental_div_mod(i2s_clock, m);
    lemma_mod_bound(i2s_clock, m);
    assert(n >= 0) by {
        lemma_div_against_multiple(i2s_clock, m, 0);
    }
    lemma_div_round_is_floor_or_next(i2s_clock, m);
    let q = spec_request_division(i2s_clock, coef, rate);
    if n >= 1 {
        lemma_effective_rate_sides(i2s_clock, coef, rate, n);
    }
    if n >= 2 {
        lemma_effective_rate_sides(i2s_clock, coef, rate, n - 1);
    }
    lemma_effective_rate_sides(i2s_clock, coef, rate, n + 1);
    if n >= 511 {
        lemma_effective_rate_sides(i2s_clock, coef, rate, 511);
        lemma_effective_rate_sides(i2s_clock, coef, rate, 510);
    }
}

/// When a required sampling frequency can be reached, the division found gives exactly that
/// frequency, and the hardware accepts it.
pub proof fn lemma_require_exact(i2s_clock: int, coef: int, rate: int)
    requires
        i2s_clock >= 0,
        coef > 0,
        rate > 0,
    ensures
        spec_require_division(i2s_clock, coef, rate) matches Some(division) ==> {
            &&& 4 <= division <= 511
            &&& spec_effective_rate(i2s_clock, coef, division) == rate
            &&& division * (coef * rate) == i2s_clock
        },
        spec_require_division(i2s_clock, coef, rate) is Some <==> {
            &&& i2s_clock % (coef * rate) == 0
            &&& 4 <= i2s_clock / (coef * rate) <= 511
        },
{
    let m = coef * rate;
    assert(m > 0) by (nonlinear_arith)
        requires
            m == coef * rate,
            coef > 0,
            rate > 0,
    ;
    if spec_require_division(i2s_clock, coef, rate) is Some {
        let division = i2s_clock / m;
        lemma_fundamental_div_mod(i2s_clock, m);
        let b = coef * division;
        assert(b > 0 && rate * b == m * division && division * m == m * division)
            by (nonlinear_arith)
            requires
                b == coef * division,
                m == coef * rate,
                coef > 0,
                division >= 4,
        ;
        lemma_fundamental_div_mod_converse(i2s_clock, b, rate, 0);
    }
}

/// When a required sampling frequency can be reached, a request for the same frequency finds
/// the same division.
pub proof fn lemma_require_agrees_with_request(i2s_clock: int, coef: int, rate: int)
    requires
        i2s_clock >= 0,
        coef > 0,
        rate > 0,
        spec_require_division(i2s_clock, coef, rate) is Some,
    ensures
        spec_require_division(i2s_clock, coef, rate) == Some(
            spec_request_division(i2s_clock, coef, rate),
        ),
{
    let m = coef * rate;
    assert(m > 0) by (nonlinear_arith)
        requires
            m == coef * rate,
            coef > 0,
            rate > 0,
    ;
    lemma_div_round_is_floor_or_next(i2s_clock, m);
}

/// The sampling frequency computed from the registers, as a driver writes them for a
/// configuration, is the one of the configured prescaler.
pub proof fn lemma_sample_rate_reads_back(
    i2s_freq: u32,
    role: SlaveOrMaster,
    dir: TransmitOrReceive,
    standard: I2sStandard,
    format: DataFormat,
    master_clock: bool,
    odd: bool,
    div: u8,
)
    requires
        spec_division(odd, div) > 0,
    ensures
        spec_sample_rate(
            i2s_freq,
            spec_i2scfgr_word(role, dir, standard, format),
            spec_i2spr_word(master_clock, odd, div),
        ) == spec_effective_rate(
            i2s_freq as int,
            spec_coef(master_clock, standard, format),
            spec_division(odd, div),
        ),
{
    let cfg: u32 = spec_i2scfg_field(role, dir);
    let st: u32 = spec_i2sstd_field(standard);
    let fmt: u32 = spec_format_field(format);
    let word: u32 = spec_i2scfgr_word(role, dir, standard, format);
    assert(word == 0x800 + cfg + st + fmt);
    assert((word & 0x0030 == 0x0030) == (st == 0x30 || st == 0xb0) && (word & 0x0001 != 0) == (
    fmt != 0)) by (bit_vector)
        requires
            word == 0x800 + cfg + st + fmt,
            cfg == 0 || cfg == 0x100 || cfg == 0x200 || cfg == 0x300,
            st == 0 || st == 0x10 || st == 0x20 || st == 0x30 || st == 0xb0,
            fmt == 0 || fmt == 1 || fmt == 3 || fmt == 5,
    ;
    let mck: u32 = if master_clock { 0x200 } else { 0 };
    let od: u32 = if odd { 0x100 } else { 0 };
    let pr: u32 = spec_i2spr_word(master_clock, odd, div);
    assert(pr == mck + od + div);
    assert((pr & 0x0200 != 0) == (mck != 0) && (pr & 0x0100 != 0) == (od != 0) && pr & 0x00ff
        == div) by (bit_vector)
        requires
            pr == mck + od + div,
            mck == 0 || mck == 0x200,
            od == 0 || od == 0x100,
    ;
}

/// Rounding division.
pub fn div_round(n: u32, d: u32) -> (q: u32)
    requires
        d > 0,
    ensures
        q == spec_div_round(n as int, d as int),
{
    let wide: u64 = (n as u64 + (d / 2) as u64) / (d as u64);
    assert(wide <= n) by (nonlinear_arith)
        requires
            d >= 1,
            wide == (n + d / 2) / (d as int),
    {
        if d == 1 {
        } else {
            assert((n + d / 2) < (n + 1) * d);
        }
    }
    wide as u32
}

/// Number of clock cycles per sample and per unit of division.
pub fn coef(master_clock: bool, standard: I2sStandard, format: DataFormat) -> (coef: u32)
    ensures
        coef == spec_coef(master_clock, standard, format),
        16 <= coef <= 256,
{
    let nb_chan: u32 = match standard {
        I2sStandard::Philips | I2sStandard::Msb | I2sStandard::Lsb => 2,
        I2sStandard::PcmShortSync | I2sStandard::PcmLongSync => 1,
    };
    if master_clock {
        return 128 * nb_chan;
    }
    if let DataFormat::Data16Channel16 = format {
        16 * nb_chan
    } else {
        32 * nb_chan
    }
}

/// The prescaler fields `(odd, div)` of a division.
fn split_division(division: u64) -> (prescaler: (bool, u8))
    requires
        4 <= division <= 511,
    ensures
        prescaler == spec_prescaler_fields(division as int),
        spec_division(prescaler.0, prescaler.1) == division,
        prescaler.1 >= 2,
{
    (division % 2 == 1, (division / 2) as u8)
}

/// The prescaler fields `(odd, div)` for a requested sampling frequency. The sampling
/// frequency obtained may differ from the request.
pub fn request_prescaler(
    i2s_clock: u32,
    request_freq: u32,
    master_clock: bool,
    standard: I2sStandard,
    format: DataFormat,
) -> (prescaler: (bool, u8))
    ensures
        prescaler == spec_prescaler_fields(
            spec_request_division(
                i2s_clock as int,
                spec_coef(master_clock, standard, format),
                request_freq as int,
            ),
        ),
        spec_division(prescaler.0, prescaler.1) == spec_request_division(
            i2s_clock as int,
            spec_coef(master_clock, standard, format),
            request_freq as int,
        ),
        prescaler.1 >= 2,
        4 <= spec_division(prescaler.0, prescaler.1) <= 511,
{
    let coef: u32 = coef(master_clock, standard, format);
    assert(coef * request_freq <= 256 * 0xffff_ffff) by (nonlinear_arith)
        requires
            0 <= coef <= 256,
            0 <= request_freq <= 0xffff_ffff,
    ;
    let cycles: u64 = coef as u64 * request_freq as u64;
    assert(cycles == spec_coef(master_clock, standard, format) * (request_freq as int));
    if cycles == 0 {
        return (true, 255);
    }
    if cycles > u32::MAX as u64 {
        // more cycles than the clock has: the quotient rounds to 0 or to 1
        assert((i2s_clock + cycles / 2) / (cycles as int) < 4) by {
            lemma_div_against_multiple(i2s_clock + cycles / 2, cycles as int, 4);
        }
        return (false, 2);
    }
    let division: u32 = div_round(i2s_clock, cycles as u32);
    if division < 4 {
        (false, 2)
    } else if division > 511 {
        (true, 255)
    } else {
        split_division(division as u64)
    }
}

/// The prescaler fields `(odd, div)` that give exactly the required sampling frequency. This
/// never approximates.
pub fn require_prescaler(
    i2s_clock: u32,
    require_freq: u32,
    master_clock: bool,
    standard: I2sStandard,
    format: DataFormat,
) -> (result: Result<(bool, u8), ConfigError>)
    ensures
        match result {
            Ok(prescaler) => {
                &&& spec_require_division(
                    i2s_clock as int,
                    spec_coef(master_clock, standard, format),
                    require_freq as int,
                ) == Some(spec_division(prescaler.0, prescaler.1))
                &&& prescaler == spec_prescaler_fields(spec_division(prescaler.0, prescaler.1))
                &&& prescaler.1 >= 2
            },
            Err(e) => {
                &&& e == ConfigError::FrequencyUnreachable
                &&& spec_require_division(
                    i2s_clock as int,
                    spec_coef(master_clock, standard, format),
                    require_freq as int,
                ) is None
            },
        },
{
    let coef: u32 = coef(master_clock, standard, format);
    assert(coef * require_freq <= 256 * 0xffff_ffff) by (nonlinear_arith)
        requires
            0 <= coef <= 256,
            0 <= require_freq <= 0xffff_ffff,
    ;
    let cycles: u64 = coef as u64 * require_freq as u64;
    assert(cycles == spec_coef(master_clock, standard, format) * (require_freq as int));
    if cycles == 0 {
        return Err(ConfigError::FrequencyUnreachable);
    }
    let division: u64 = i2s_clock as u64 / cycles;
    let rem: u64 = i2s_clock as u64 % cycles;
    if rem == 0 && division >= 4 && division <= 511 {
        Ok(split_division(division))
    } else {
        Err(ConfigError::FrequencyUnreachable)
    }
}

/// Sample rate calculation from the content of the configuration and prescaler registers and
/// from the frequency of the clock source.
pub fn sample_rate(i2s_freq: u32, i2scfgr: u32, i2spr: u32) -> (rate: u32)
    ensures
        rate == spec_sample_rate(i2s_freq, i2scfgr, i2spr),
{
    let nb_chan: u32 = if i2scfgr & I2SCFGR_I2SSTD == I2SCFGR_I2SSTD { 1 } else { 2 };
    let channel_length: u32 = if i2scfgr & I2SCFGR_CHLEN != 0 { 32 } else { 16 };
    let mckoe: bool = i2spr & I2SPR_MCKOE != 0;
    let odd: u32 = if i2spr & I2SPR_ODD != 0 { 1 } else { 0 };
    let div: u32 = i2spr & I2SPR_I2SDIV;
    assert(i2spr & 0x00ff <= 0xff) by (bit_vector);
    let coef: u32 = if mckoe { 128 * nb_chan } else { channel_length * nb_chan };
    let division: u32 = 2 * div + odd;
    if division == 0 {
        return 0;
    }
    assert(1 <= coef * division <= 256 * 511) by (nonlinear_arith)
        requires
            1 <= coef <= 256,
            1 <= division <= 511,
    ;
    i2s_freq / (coef * division)
}


/// Whether the hardware accepts a division.
pub open spec fn spec_is_valid_division(division: int) -> bool {
    4 <= division <= 511
}

/// The better of the best division found so far and of one more candidate: the candidate,
/// if the hardware accepts it and it brings the sampling frequency strictly nearer to
/// `rate`, or if nothing was found yet.
pub open spec fn spec_better_division(
    best: Option<int>,
    candidate: int,
    i2s_clock: int,
    coef: int,
    rate: int,
) -> Option<int> {
    if !spec_is_valid_division(candidate) {
        best
    } else {
        match best {
            None => Some(candidate),
            Some(found) => if spec_rate_error(i2s_clock, coef, candidate, rate) < spec_rate_error(
                i2s_clock,
                coef,
                found,
                rate,
            ) {
                Some(candidate)
            } else {
                best
            },
        }
    }
}

/// Of the three divisions around the exact quotient of the clock by `coef * rate`, the one
/// that the hardware accepts and whose sampling frequency is nearest to `rate`; the smallest
/// of them if several are as near. There is none when the hardware accepts none of the
/// three, or when the frequency is 0.
pub open spec fn spec_nearest_rate_division(i2s_clock: int, coef: int, rate: int) -> Option<int> {
    if coef * rate <= 0 {
        None
    } else {
        let floor = i2s_clock / (coef * rate);
        spec_better_division(
            spec_better_division(
                spec_better_division(None, floor - 1, i2s_clock, coef, rate),
                floor,
                i2s_clock,
                coef,
                rate,
            ),
            floor + 1,
            i2s_clock,
            coef,
            rate,
        )
    }
}

/// What `spec_nearest_rate_division` finds is one of the three divisions around the exact
/// quotient, the hardware accepts it, and none of the three that the hardware accepts gives
/// a sampling frequency nearer to `rate`. It finds one whenever the hardware accepts one of
/// the three.
pub proof fn lemma_nearest_rate_is_minimal(i2s_clock: int, coef: int, rate: int, candidate: int)
    requires
        coef * rate > 0,
        candidate == i2s_clock / (coef * rate) - 1 || candidate == i2s_clock / (coef * rate)
            || candidate == i2s_clock / (coef * rate) + 1,
    ensures
        spec_nearest_rate_division(i2s_clock, coef, rate) matches Some(division) ==> {
            &&& spec_is_valid_division(division)
            &&& i2s_clock / (coef * rate) - 1 <= division <= i2s_clock / (coef * rate) + 1
            &&& spec_is_valid_division(candidate) ==> spec_rate_error(
                i2s_clock,
                coef,
                division,
                rate,
            ) <= spec_rate_error(i2s_clock, coef, candidate, rate)
        },
        spec_is_valid_division(candidate) ==> spec_nearest_rate_division(i2s_clock, coef, rate)
            is Some,
{
}

/// The sampling frequency error of a division that the hardware accepts.
fn rate_error(i2s_clock: u32, coef: u32, division: u64, rate: u32) -> (error: u64)
    requires
        16 <= coef <= 256,
        4 <= division <= 511,
    ensures
        error == spec_rate_error(i2s_clock as int, coef as int, division as int, rate as int),
{
    assert(1 <= coef * division <= 256 * 511) by (nonlinear_arith)
        requires
            16 <= coef <= 256,
            4 <= division <= 511,
    ;
    let actual: u64 = i2s_clock as u64 / (coef as u64 * division);
    if actual >= rate as u64 {
        actual - rate as u64
    } else {
        rate as u64 - actual
    }
}

/// The better of the best division found so far and of one more candidate.
fn better_division(
    best: Option<u64>,
    candidate: u64,
    in_range: bool,
    i2s_clock: u32,
    coef: u32,
    rate: u32,
) -> (result: Option<u64>)
    requires
        16 <= coef <= 256,
        best matches Some(found) ==> 4 <= found <= 511,
        in_range ==> 4 <= candidate <= 511,
    ensures
        result matches Some(found) ==> 4 <= found <= 511,
        in_range ==> (match result {
            Some(found) => Some(found as int),
            None => None,
        }) == spec_better_division(
            match best {
                Some(found) => Some(found as int),
                None => None,
            },
            candidate as int,
            i2s_clock as int,
            coef as int,
            rate as int,
        ),
        !in_range ==> result == best,
{
    if !in_range {
        return best;
    }
    match best {
        None => Some(candidate),
        Some(found) => {
            if rate_error(i2s_clock, coef, candidate, rate) < rate_error(
                i2s_clock,
                coef,
                found,
                rate,
            ) {
                Some(candidate)
            } else {
                best
            }
        },
    }
}

/// The prescaler fields `(odd, div)` whose sampling frequency is nearest to the one wanted,
/// of the three divisions around the exact quotient: the quotient rounded down, one less and
/// one more. Divisions that the hardware does not accept are left out; the result is `None`
/// when none of the three is left, or when the frequency wanted is 0.
///
/// The fields can be handed to `prescaler`.
pub fn nearest_rate_prescaler(
    i2s_clock: u32,
    sample_rate: u32,
    master_clock: bool,
    standard: I2sStandard,
    format: DataFormat,
) -> (prescaler: Option<(bool, u8)>)
    ensures
        match prescaler {
            Some(fields) => {
                &&& spec_nearest_rate_division(
                    i2s_clock as int,
                    spec_coef(master_clock, standard, format),
                    sample_rate as int,
                ) == Some(spec_division(fields.0, fields.1))
                &&& fields == spec_prescaler_fields(spec_division(fields.0, fields.1))
                &&& fields.1 >= 2
            },
            None => spec_nearest_rate_division(
                i2s_clock as int,
                spec_coef(master_clock, standard, format),
                sample_rate as int,
            ) is None,
        },
{
    let coef: u32 = coef(master_clock, standard, format);
    assert(coef * sample_rate <= 256 * 0xffff_ffff) by (nonlinear_arith)
        requires
            0 <= coef <= 256,
            0 <= sample_rate <= 0xffff_ffff,
    ;
    let cycles: u64 = coef as u64 * sample_rate as u64;
    assert(cycles == spec_coef(master_clock, standard, format) * (sample_rate as int));
    if cycles == 0 {
        return None;
    }
    let floor: u64 = i2s_clock as u64 / cycles;
    // Division +/- 1 may result in a more accurate sample rate. Test the three options.
    let best = better_division(
        None,
        if floor >= 1 { floor - 1 } else { 0 },
        5 <= floor && floor <= 512,
        i2s_clock,
        coef,
        sample_rate,
    );
    let best = better_division(best, floor, 4 <= floor && floor <= 511, i2s_clock, coef, sample_rate);
    let best = better_division(
        best,
        floor + 1,
        3 <= floor && floor <= 510,
        i2s_clock,
        coef,
        sample_rate,
    );
    match best {
        Some(division) => Some(split_division(division)),
        None => None,
    }
}

} // verus!
