//! Solvers for the main PLL and the I2S PLL.
//!
//! Both solvers are pure: they take the PLL input clock and the requested
//! output frequencies, search the small divisor spaces that the hardware
//! offers, and hand back the achieved frequencies together with the register
//! field values that a caller writes to `RCC_PLLCFGR` / `RCC_PLLI2SCFGR`.
use vstd::prelude::*;

verus! {

/// Lowest legal VCO input frequency (after the shared "M" divisor).
pub const VCO_IN_MIN: u32 = 1_000_000;

/// Highest legal VCO input frequency (after the shared "M" divisor).
pub const VCO_IN_MAX: u32 = 2_000_000;

/// Fixed frequency of the USB / SDIO / RNG clock domain.
pub const PLL48_CLK: u32 = 48_000_000;

/// Ceiling of the clock domain behind the system clock divisor.
pub const SYSCLK_DOMAIN_MAX: u32 = 120_000_000;

// ---------------------------------------------------------------------------
// Mathematical model
// ---------------------------------------------------------------------------

pub open spec fn abs_diff(a: int, b: int) -> int {
    if a >= b { a - b } else { b - a }
}

/// Smallest "M" that keeps the VCO input at or below 2 MHz.
pub open spec fn pllm_min(src: int) -> int {
    (src + 1_999_999) / 2_000_000
}

/// Largest "M" that keeps the VCO input at or above 1 MHz.
pub open spec fn pllm_max(src: int) -> int {
    src / 1_000_000
}

/// VCO input frequency for source clock `src` and input divisor `m`.
pub open spec fn vco_in(src: int, m: int) -> int {
    src / m
}

/// The "M" values that the hardware field can hold.
pub open spec fn pllm_field_ok(m: int) -> bool {
    2 <= m <= 63
}

// --- single-output primitive ---

/// Multiplier that brings `vi * n / d` closest to `target` (round half up).
pub open spec fn ideal_n(target: int, vi: int, d: int) -> int {
    (target * d + vi / 2) / vi
}

pub open spec fn single_vco_out(src: int, m: int, target: int, d: int) -> int {
    vco_in(src, m) * ideal_n(target, vco_in(src, m), d)
}

/// VCO band of the I2S PLL.
pub open spec fn aux_vco_ok(v: int) -> bool {
    100_000_000 <= v <= 432_000_000
}

/// Output divisor `d` yields a VCO frequency inside the band.
pub open spec fn single_valid(src: int, m: int, target: int, d: int) -> bool {
    aux_vco_ok(single_vco_out(src, m, target, d))
}

pub open spec fn single_output(src: int, m: int, target: int, d: int) -> int {
    single_vco_out(src, m, target, d) / d
}

pub open spec fn single_error(src: int, m: int, target: int, d: int) -> int {
    abs_diff(single_output(src, m, target, d), target)
}

/// `d` is the first divisor of `[lo, hi]` whose error is minimal among the
/// divisors that keep the VCO inside its band.
pub open spec fn is_best_outdiv(src: int, m: int, target: int, lo: int, hi: int, d: int) -> bool {
    &&& lo <= d <= hi
    &&& single_valid(src, m, target, d)
    &&& forall|e: int|
        lo <= e <= hi && #[trigger] single_valid(src, m, target, e) ==> single_error(
            src,
            m,
            target,
            d,
        ) <= single_error(src, m, target, e)
    &&& forall|e: int|
        lo <= e < d && #[trigger] single_valid(src, m, target, e) ==> single_error(
            src,
            m,
            target,
            d,
        ) < single_error(src, m, target, e)
}

/// Register fields that the single-output search commits for divisor `d`.
pub open spec fn single_solution(src: int, m: int, target: int, d: int) -> SingleOutputPll {
    SingleOutputPll { m: m as u8, n: ideal_n(target, vco_in(src, m), d) as u16, outdiv: d as u8 }
}

/// What `SingleOutputPll::optimize` returns.
pub open spec fn optimize_result(
    src: int,
    m: int,
    target: int,
    lo: int,
    hi: int,
    r: Option<(SingleOutputPll, u32, u32)>,
) -> bool {
    match r {
        None => forall|d: int| lo <= d <= hi ==> !#[trigger] single_valid(src, m, target, d),
        Some((cfg, out, err)) => {
            &&& is_best_outdiv(src, m, target, lo, hi, cfg.outdiv as int)
            &&& cfg == single_solution(src, m, target, cfg.outdiv as int)
            &&& out == single_output(src, m, target, cfg.outdiv as int)
            &&& err == single_error(src, m, target, cfg.outdiv as int)
        },
    }
}

// --- I2S PLL ---

/// Lowest I2S PLL output divisor ("R").
pub const AUX_DIV_MIN: u32 = 2;

/// Highest I2S PLL output divisor ("R").
pub const AUX_DIV_MAX: u32 = 7;

/// `(m, d)` is a candidate of the independent I2S PLL search.
pub open spec fn aux_valid(src: int, target: int, m: int, d: int) -> bool {
    &&& pllm_min(src) <= m <= pllm_max(src)
    &&& pllm_field_ok(m)
    &&& 2 <= d <= 7
    &&& single_valid(src, m, target, d)
}

pub open spec fn lex_lt(a1: int, b1: int, a2: int, b2: int) -> bool {
    a1 < a2 || (a1 == a2 && b1 < b2)
}

/// `(m, d)` is the first pair, in ascending `(m, d)` order, of minimal error.
pub open spec fn is_best_aux(src: int, target: int, m: int, d: int) -> bool {
    &&& aux_valid(src, target, m, d)
    &&& forall|m2: int, d2: int| #[trigger]
        aux_valid(src, target, m2, d2) ==> single_error(src, m, target, d) <= single_error(
            src,
            m2,
            target,
            d2,
        )
    &&& forall|m2: int, d2: int|
        #[trigger] aux_valid(src, target, m2, d2) && lex_lt(m2, d2, m, d) ==> single_error(
            src,
            m,
            target,
            d,
        ) < single_error(src, m2, target, d2)
}

pub open spec fn aux_disabled() -> I2sPll {
    I2sPll { use_pll: false, m: None, plli2sclk: None, config: None }
}

/// The I2S PLL configuration committed for input divisor `m` and output divisor `d`.
pub open spec fn aux_config(src: int, m: int, target: int, d: int) -> I2sPll {
    I2sPll {
        use_pll: true,
        m: Some(m as u32),
        plli2sclk: Some(single_output(src, m, target, d) as u32),
        config: Some(single_solution(src, m, target, d)),
    }
}

/// What `I2sPll::setup` returns.
pub open spec fn aux_setup_result(src: int, plli2sclk: Option<u32>, r: Result<I2sPll, PllError>) -> bool {
    match plli2sclk {
        None => r == Ok::<I2sPll, PllError>(aux_disabled()),
        Some(t) => match r {
            Ok(p) => exists|m: int, d: int|
                #[trigger] is_best_aux(src, t as int, m, d) && p == aux_config(src, m, t as int, d),
            Err(e) => e == PllError::UnsatisfiableVcoConstraint && forall|m: int, d: int|
                !#[trigger] aux_valid(src, t as int, m, d),
        },
    }
}

/// `m` keeps the VCO input inside 1..=2 MHz and fits the register field.
pub open spec fn shared_m_ok(src: int, m: int) -> bool {
    &&& pllm_field_ok(m)
    &&& VCO_IN_MIN as int <= vco_in(src, m) <= VCO_IN_MAX as int
}

/// What `I2sPll::setup_shared_m` returns.
pub open spec fn aux_shared_result(
    src: int,
    m: Option<u32>,
    plli2sclk: Option<u32>,
    r: Result<I2sPll, PllError>,
) -> bool {
    match m {
        None => aux_setup_result(src, plli2sclk, r),
        Some(mm) => match plli2sclk {
            None => r == Ok::<I2sPll, PllError>(aux_disabled()),
            Some(t) => if !shared_m_ok(src, mm as int) {
                r == Err::<I2sPll, PllError>(PllError::OutOfRangeDerivedField(PllField::M))
            } else {
                match r {
                    Ok(p) => exists|d: int|
                        #[trigger] is_best_outdiv(src, mm as int, t as int, 2, 7, d) && p
                            == aux_config(src, mm as int, t as int, d),
                    Err(e) => e == PllError::UnsatisfiableVcoConstraint && forall|d: int|
                        2 <= d <= 7 ==> !#[trigger] single_valid(src, mm as int, t as int, d),
                }
            },
        },
    }
}

// --- main PLL ---

/// System clock divisor: the largest even value up to 8 that keeps
/// `sysclk * div` within 120 MHz (0 when even 2 is too much).
pub open spec fn sysclk_div(sysclk: int) -> int {
    let q = SYSCLK_DOMAIN_MAX as int / sysclk;
    let even = q - q % 2;
    if even < 8 { even } else { 8 }
}

/// VCO output frequency that the choice of "M" aims at.
pub open spec fn main_target(sysclk: int, div: int, pll48clk: bool) -> int {
    if pll48clk {
        PLL48_CLK as int
    } else {
        sysclk * div
    }
}

/// How far `target` is from the nearest multiple of the VCO input at or below it.
pub open spec fn pllm_key(src: int, target: int, m: int) -> int {
    target % vco_in(src, m)
}

/// `m` is the first divisor of `[lo, hi]` with minimal `pllm_key`.
pub open spec fn is_best_pllm(src: int, target: int, lo: int, hi: int, m: int) -> bool {
    &&& lo <= m <= hi
    &&& forall|m2: int|
        lo <= m2 <= hi ==> pllm_key(src, target, m) <= #[trigger] pllm_key(src, target, m2)
    &&& forall|m2: int| lo <= m2 < m ==> pllm_key(src, target, m) < #[trigger] pllm_key(src, target, m2)
}

/// Multiplier that yields exactly 48 MHz behind divisor `q`, rounded down.
pub open spec fn pllq_plln(vi: int, q: int) -> int {
    PLL48_CLK as int * q / vi
}

pub open spec fn pllq_48_error(vi: int, q: int) -> int {
    PLL48_CLK as int - vi * pllq_plln(vi, q) / q
}

pub open spec fn pllq_sys_error(vi: int, sysclk: int, div: int, q: int) -> int {
    abs_diff(sysclk, vi * pllq_plln(vi, q) / div)
}

/// The score of `q` is strictly below the score of `q2`, comparing first
/// the 48 MHz error and then the system clock error.
pub open spec fn pllq_better(vi: int, sysclk: int, div: int, q: int, q2: int) -> bool {
    lex_lt(
        pllq_48_error(vi, q),
        pllq_sys_error(vi, sysclk, div, q),
        pllq_48_error(vi, q2),
        pllq_sys_error(vi, sysclk, div, q2),
    )
}

/// Divisor `q` needs a multiplier within 192..=432 and puts the VCO inside
/// its band.
pub open spec fn pllq_ok(vi: int, q: int) -> bool {
    &&& 192 <= pllq_plln(vi, q) <= 432
    &&& main_vco_ok(vi * pllq_plln(vi, q))
}

/// `q` is the first value of `[4, 9]` with the smallest score among those
/// that the multiplier and VCO ranges allow.
pub open spec fn is_best_pllq(vi: int, sysclk: int, div: int, q: int) -> bool {
    &&& 4 <= q <= 9
    &&& pllq_ok(vi, q)
    &&& forall|q2: int|
        4 <= q2 <= 9 && pllq_ok(vi, q2) ==> !#[trigger] pllq_better(vi, sysclk, div, q2, q)
    &&& forall|q2: int|
        4 <= q2 < q && pllq_ok(vi, q2) ==> #[trigger] pllq_better(vi, sysclk, div, q, q2)
}

/// VCO band of the main PLL.
pub open spec fn main_vco_ok(v: int) -> bool {
    192_000_000 <= v <= 432_000_000
}

pub open spec fn main_disabled(use_hse: bool) -> MainPll {
    MainPll {
        use_pll: false,
        pllsysclk: None,
        pll48clk: None,
        m: None,
        plli2sclk: None,
        use_hse,
        fields: None,
    }
}

/// Outcome once `m` and the multiplier `n` are fixed.
pub open spec fn main_from_plln(
    use_hse: bool,
    vi: int,
    div: int,
    m: int,
    n: int,
    r: Result<MainPll, PllError>,
) -> bool {
    if !(192 <= n <= 432) {
        r == Err::<MainPll, PllError>(PllError::OutOfRangeDerivedField(PllField::N))
    } else if !main_vco_ok(vi * n) {
        r == Err::<MainPll, PllError>(PllError::UnsatisfiableVcoConstraint)
    } else {
        r == Ok::<MainPll, PllError>(
            MainPll {
                use_pll: true,
                pllsysclk: Some((vi * n / div) as u32),
                pll48clk: None,
                m: Some(m as u32),
                plli2sclk: None,
                use_hse,
                fields: Some(
                    MainPllFields {
                        pllm: m as u8,
                        plln: n as u16,
                        pllp: (vi * n / 120_000_000) as u8,
                        pllq: (vi * n / 48_000_000) as u8,
                    },
                ),
            },
        )
    }
}

/// Outcome once `m` is fixed.
pub open spec fn main_from_pllm(
    src: int,
    use_hse: bool,
    sysclk: int,
    div: int,
    pll48clk: bool,
    m: int,
    r: Result<MainPll, PllError>,
) -> bool {
    if !pllm_field_ok(m) {
        r == Err::<MainPll, PllError>(PllError::OutOfRangeDerivedField(PllField::M))
    } else if pll48clk {
        if exists|q: int| 4 <= q <= 9 && #[trigger] pllq_ok(vco_in(src, m), q) {
            exists|q: int|
                #[trigger] is_best_pllq(vco_in(src, m), sysclk, div, q) && main_from_plln(
                    use_hse,
                    vco_in(src, m),
                    div,
                    m,
                    pllq_plln(vco_in(src, m), q),
                    r,
                )
        } else {
            r == Err::<MainPll, PllError>(PllError::OutOfRangeDerivedField(PllField::N))
        }
    } else {
        main_from_plln(use_hse, vco_in(src, m), div, m, sysclk * div / vco_in(src, m), r)
    }
}

/// Outcome of the main PLL search for a system clock of `sysclk`.
pub open spec fn main_requested(
    src: int,
    use_hse: bool,
    sysclk: int,
    pll48clk: bool,
    r: Result<MainPll, PllError>,
) -> bool {
    let div = sysclk_div(sysclk);
    if div == 0 {
        r == Err::<MainPll, PllError>(PllError::OutOfRangeDerivedField(PllField::SysclkDiv))
    } else if pllm_min(src) > pllm_max(src) {
        r == Err::<MainPll, PllError>(PllError::UnsatisfiableVcoConstraint)
    } else {
        exists|m: int|
            #[trigger] is_best_pllm(src, main_target(sysclk, div, pll48clk), pllm_min(src), pllm_max(src), m)
                && main_from_pllm(src, use_hse, sysclk, div, pll48clk, m, r)
    }
}

/// What `MainPll::fast_setup` returns.
pub open spec fn main_setup_result(
    src: int,
    use_hse: bool,
    pllsysclk: Option<u32>,
    pll48clk: bool,
    r: Result<MainPll, PllError>,
) -> bool {
    match pllsysclk {
        Some(s) => main_requested(src, use_hse, s as int, pll48clk, r),
        None => if pll48clk {
            main_requested(src, use_hse, src, pll48clk, r)
        } else {
            r == Ok::<MainPll, PllError>(main_disabled(use_hse))
        },
    }
}

// ---------------------------------------------------------------------------
// Types
// ---------------------------------------------------------------------------

/// A register field of the PLL configuration.
#[derive(Debug, Clone, Copy, PartialEq, Eq)]
pub enum PllField {
    /// The shared input divisor.
    M,
    /// The main PLL multiplier.
    N,
    /// The divisor between the main VCO and the system clock.
    SysclkDiv,
}

/// Why a PLL configuration could not be derived.
#[derive(Debug, Clone, Copy, PartialEq, Eq)]
pub enum PllError {
    /// No choice of divisors keeps the VCO inside its band for the request.
    UnsatisfiableVcoConstraint,
    /// A derived register field falls outside the values the hardware takes.
    OutOfRangeDerivedField(PllField),
}

/// Register fields of the main PLL (`RCC_PLLCFGR`).
#[derive(Debug, Clone, Copy, PartialEq, Eq)]
pub struct MainPllFields {
    pub pllm: u8,
    pub plln: u16,
    pub pllp: u8,
    pub pllq: u8,
}

/// Result of configuring the main PLL.
#[derive(Debug, Clone, Copy, PartialEq, Eq)]
pub struct MainPll {
    pub use_pll: bool,
    pub pllsysclk: Option<u32>,
    pub pll48clk: Option<u32>,
    /// "M" divisor, required for the other PLLs on some MCUs.
    pub m: Option<u32>,
    /// "R" output, required for I2S on STM32F410.
    pub plli2sclk: Option<u32>,
    /// PLL source select: the external oscillator when set.
    pub use_hse: bool,
    /// Register fields to commit; `None` when the PLL stays off.
    pub fields: Option<MainPllFields>,
}

/// Register fields of a PLL with a single output divisor.
#[derive(Debug, Clone, Copy, PartialEq, Eq)]
pub struct SingleOutputPll {
    pub m: u8,
    pub n: u16,
    pub outdiv: u8,
}

/// Result of configuring the I2S PLL.
#[derive(Debug, Clone, Copy, PartialEq, Eq)]
pub struct I2sPll {
    pub use_pll: bool,
    /// "M" divisor, required for the other PLLs on some MCUs.
    pub m: Option<u32>,
    /// PLL I2S clock output.
    pub plli2sclk: Option<u32>,
    /// Register fields to commit; `None` when the PLL stays off.
    pub config: Option<SingleOutputPll>,
}

// ---------------------------------------------------------------------------
// Arithmetic facts
// ---------------------------------------------------------------------------

/// Every "M" of `[pllm_min, pllm_max]` puts the VCO input inside 1..=2 MHz.
pub proof fn lemma_vco_in_bounds(src: int, m: int)
    requires
        src >= 0,
        m >= 1,
        pllm_min(src) <= m <= pllm_max(src),
    ensures
        VCO_IN_MIN as int <= vco_in(src, m) <= VCO_IN_MAX as int,
{
    assert(m * 1_000_000 <= src) by (nonlinear_arith)
        requires
            m <= src / 1_000_000,
            src >= 0,
    ;
    assert(src <= m * 2_000_000) by (nonlinear_arith)
        requires
            m >= (src + 1_999_999) / 2_000_000,
            src >= 0,
    ;
    assert(src / m >= 1_000_000) by (nonlinear_arith)
        requires
            m * 1_000_000 <= src,
            m >= 1,
    ;
    assert(src / m <= 2_000_000) by (nonlinear_arith)
        requires
            src <= m * 2_000_000,
            m >= 1,
    ;
}

/// A multiplier that keeps the VCO at or below `vmax` with an input of at
/// least 1 MHz is at most `vmax / 1 MHz`.
proof fn lemma_n_bound(vi: int, n: int, vmax: int)
    requires
        vi >= 1_000_000,
        n >= 0,
        vi * n <= vmax,
        vmax >= 0,
    ensures
        n <= vmax / 1_000_000,
{
    assert(n * 1_000_000 <= vmax) by (nonlinear_arith)
        requires
            vi >= 1_000_000,
            n >= 0,
            vi * n <= vmax,
    ;
    assert(n <= vmax / 1_000_000) by (nonlinear_arith)
        requires
            n * 1_000_000 <= vmax,
            n >= 0,
    ;
}

/// The rounded multiplier of the single-output search and the VCO frequency
/// it gives stay far below `u64::MAX`.
proof fn lemma_n_fits(target: int, d: int, vi: int)
    requires
        0 <= target <= u32::MAX,
        0 <= d <= 7,
        1 <= vi <= 2_000_000,
    ensures
        target * d + vi / 2 <= 7 * u32::MAX + 1_000_000,
        vi * ((target * d + vi / 2) / vi) <= target * d + vi / 2,
{
    assert(target * d <= 7 * u32::MAX) by (nonlinear_arith)
        requires
            0 <= target <= u32::MAX,
            0 <= d <= 7,
    ;
    let x = target * d + vi / 2;
    assert(vi * (x / vi) <= x) by (nonlinear_arith)
        requires
            x >= 0,
            vi >= 1,
    ;
}

/// The smallest and largest "M" for a given source clock.
fn pllm_range(pllsrcclk: u32) -> (r: (u32, u32))
    ensures
        r.0 == pllm_min(pllsrcclk as int),
        r.1 == pllm_max(pllsrcclk as int),
        r.1 <= 4295,
{
    let lo = (pllsrcclk as u64 + 1_999_999) / 2_000_000;
    (lo as u32, pllsrcclk / 1_000_000)
}

impl SingleOutputPll {
    /// For a fixed input divisor `m`, finds the output divisor in
    /// `[min_div, max_div]` and the multiplier whose output is closest to
    /// `target` while the VCO stays within 100..=432 MHz. Returns the register
    /// fields, the achieved output frequency and its distance from `target`,
    /// or `None` when no divisor keeps the VCO inside the band.
    pub fn optimize(pllsrcclk: u32, m: u32, target: u32, min_div: u32, max_div: u32) -> (r: Option<
        (SingleOutputPll, u32, u32),
    >)
        requires
            shared_m_ok(pllsrcclk as int, m as int),
            AUX_DIV_MIN <= min_div,
            max_div <= AUX_DIV_MAX,
        ensures
            optimize_result(
                pllsrcclk as int,
                m as int,
                target as int,
                min_div as int,
                max_div as int,
                r,
            ),
    {
        let ghost src = pllsrcclk as int;
        let vi: u64 = (pllsrcclk / m) as u64;
        let mut best: Option<(SingleOutputPll, u32, u32)> = None;
        let mut outdiv: u32 = min_div;
        while outdiv <= max_div
            invariant
                min_div <= outdiv,
                outdiv <= max_div + 1 || outdiv == min_div,
                2 <= min_div,
                max_div <= 7,
                src == pllsrcclk as int,
                shared_m_ok(src, m as int),
                vi == vco_in(src, m as int),
                optimize_result(src, m as int, target as int, min_div as int, outdiv - 1, best),
            decreases max_div + 1 - outdiv,
        {
            proof {
                lemma_n_fits(target as int, outdiv as int, vi as int);
            }
            let n: u64 = (target as u64 * outdiv as u64 + vi / 2) / vi;
            let vco_out: u64 = vi * n;
            assert(n == ideal_n(target as int, vi as int, outdiv as int));
            assert(vco_out == single_vco_out(src, m as int, target as int, outdiv as int));
            if 100_000_000 <= vco_out && vco_out <= 432_000_000 {
                proof {
                    lemma_n_bound(vi as int, n as int, 432_000_000);
                }
                let output: u64 = vco_out / outdiv as u64;
                let error: u64 = if output >= target as u64 {
                    output - target as u64
                } else {
                    target as u64 - output
                };
                let better = match best {
                    None => true,
                    Some((_, _, e)) => error < e as u64,
                };
                if better {
                    let cfg = SingleOutputPll { m: m as u8, n: n as u16, outdiv: outdiv as u8 };
                    best = Some((cfg, output as u32, error as u32));
                }
            }
            outdiv = outdiv + 1;
        }
        best
    }
}

/// Output divisor that an I2S PLL configuration commits (0 when it has none).
pub open spec fn outdiv_of(p: I2sPll) -> int {
    match p.config {
        Some(c) => c.outdiv as int,
        None => 0,
    }
}

impl I2sPll {
    /// The I2S PLL left off.
    pub fn unused() -> (r: I2sPll)
        ensures
            r == aux_disabled(),
    {
        I2sPll { use_pll: false, m: None, plli2sclk: None, config: None }
    }

    /// Configures the I2S PLL for `plli2sclk`, choosing its own input divisor.
    ///
    /// Among all input divisors that keep the VCO input within 1..=2 MHz and
    /// all output divisors 2..=7, the pair of smallest error wins; ties go to
    /// the smaller "M", then to the smaller output divisor.
    pub fn setup(pllsrcclk: u32, plli2sclk: Option<u32>) -> (r: Result<I2sPll, PllError>)
        ensures
            aux_setup_result(pllsrcclk as int, plli2sclk, r),
    {
        let target = match plli2sclk {
            Some(clk) => clk,
            None => return Ok(Self::unused()),
        };
        let ghost src = pllsrcclk as int;
        let ghost t = target as int;
        let (m_lo, m_hi) = pllm_range(pllsrcclk);
        let mut best: Option<(u32, I2sPll, u32)> = None;
        let mut m: u32 = m_lo;
        while m <= m_hi
            invariant
                m_lo <= m,
                m <= m_hi + 1 || m == m_lo,
                m_lo == pllm_min(src),
                m_hi == pllm_max(src),
                m_hi <= 4295,
                src == pllsrcclk as int,
                t == target as int,
                match best {
                    None => forall|m2: int, d2: int| #[trigger]
                        aux_valid(src, t, m2, d2) ==> m2 >= m,
                    Some((bm, p, err)) => {
                        &&& aux_valid(src, t, bm as int, outdiv_of(p))
                        &&& bm < m
                        &&& p == aux_config(src, bm as int, t, outdiv_of(p))
                        &&& err == single_error(src, bm as int, t, outdiv_of(p))
                        &&& forall|m2: int, d2: int| #[trigger]
                            aux_valid(src, t, m2, d2) && m2 < m ==> err <= single_error(
                                src,
                                m2,
                                t,
                                d2,
                            )
                        &&& forall|m2: int, d2: int|
                            #[trigger] aux_valid(src, t, m2, d2) && lex_lt(
                                m2,
                                d2,
                                bm as int,
                                outdiv_of(p),
                            ) ==> err < single_error(src, m2, t, d2)
                    },
                },
            decreases m_hi + 1 - m,
        {
            if 2 <= m && m <= 63 {
                proof {
                    lemma_vco_in_bounds(src, m as int);
                }
                match Self::optimize_fixed_m(pllsrcclk, m, target) {
                    Ok((pll, error)) => {
                        let better = match best {
                            None => true,
                            Some((_, _, e)) => error < e,
                        };
                        if better {
                            best = Some((m, pll, error));
                        }
                    },
                    Err(_) => {},
                }
            }
            m = m + 1;
        }
        match best {
            Some((bm, pll, _)) => {
                assert(is_best_aux(src, t, bm as int, outdiv_of(pll)));
                Ok(pll)
            },
            None => Err(PllError::UnsatisfiableVcoConstraint),
        }
    }

    /// Configures the I2S PLL for `plli2sclk`, reusing the input divisor `m`
    /// of the main PLL when there is one.
    pub fn setup_shared_m(pllsrcclk: u32, m: Option<u32>, plli2sclk: Option<u32>) -> (r: Result<
        I2sPll,
        PllError,
    >)
        ensures
            aux_shared_result(pllsrcclk as int, m, plli2sclk, r),
    {
        // "m" is None if the main PLL is not in use.
        let m = match m {
            Some(m) => m,
            None => return Self::setup(pllsrcclk, plli2sclk),
        };
        let target = match plli2sclk {
            Some(clk) => clk,
            None => return Ok(Self::unused()),
        };
        if m < 2 || m > 63 {
            return Err(PllError::OutOfRangeDerivedField(PllField::M));
        }
        let vi = pllsrcclk / m;
        if vi < VCO_IN_MIN || vi > VCO_IN_MAX {
            return Err(PllError::OutOfRangeDerivedField(PllField::M));
        }
        match Self::optimize_fixed_m(pllsrcclk, m, target) {
            Ok((pll, _)) => Ok(pll),
            Err(e) => Err(e),
        }
    }

    /// Best I2S PLL configuration for a fixed input divisor `m`, with its error.
    fn optimize_fixed_m(pllsrcclk: u32, m: u32, plli2sclk: u32) -> (r: Result<
        (I2sPll, u32),
        PllError,
    >)
        requires
            shared_m_ok(pllsrcclk as int, m as int),
        ensures
            match r {
                Ok((p, err)) => {
                    &&& is_best_outdiv(
                        pllsrcclk as int,
                        m as int,
                        plli2sclk as int,
                        2,
                        7,
                        outdiv_of(p),
                    )
                    &&& p == aux_config(pllsrcclk as int, m as int, plli2sclk as int, outdiv_of(p))
                    &&& err == single_error(
                        pllsrcclk as int,
                        m as int,
                        plli2sclk as int,
                        outdiv_of(p),
                    )
                },
                Err(e) => e == PllError::UnsatisfiableVcoConstraint && forall|d: int|
                    2 <= d <= 7 ==> !#[trigger] single_valid(
                        pllsrcclk as int,
                        m as int,
                        plli2sclk as int,
                        d,
                    ),
            },
    {
        match SingleOutputPll::optimize(pllsrcclk, m, plli2sclk, AUX_DIV_MIN, AUX_DIV_MAX) {
            Some((config, real_plli2sclk, error)) => Ok(
                (
                    I2sPll {
                        use_pll: true,
                        m: Some(m),
                        plli2sclk: Some(real_plli2sclk),
                        config: Some(config),
                    },
                    error,
                ),
            ),
            None => Err(PllError::UnsatisfiableVcoConstraint),
        }
    }
}

/// System clock divisor for a requested system clock.
fn sysclk_div_of(sysclk: u32) -> (r: u32)
    requires
        sysclk > 0,
    ensures
        r == sysclk_div(sysclk as int),
        r <= 8,
        r % 2 == 0,
        sysclk * r <= SYSCLK_DOMAIN_MAX,
{
    let q = SYSCLK_DOMAIN_MAX / sysclk;
    let even = q & !1u32;
    assert(even == q - q % 2) by (bit_vector)
        requires
            even == q & !1u32,
    ;
    let r = if even < 8 {
        even
    } else {
        8
    };
    assert(sysclk * r <= SYSCLK_DOMAIN_MAX) by (nonlinear_arith)
        requires
            r <= q,
            q == 120_000_000int / (sysclk as int),
            sysclk > 0,
    ;
    r
}

/// First "M" of `[lo, hi]` that brings `target` closest above a multiple of
/// the VCO input.
fn best_pllm(pllsrcclk: u32, target: u64, lo: u32, hi: u32) -> (m: u32)
    requires
        lo == pllm_min(pllsrcclk as int),
        hi == pllm_max(pllsrcclk as int),
        1 <= lo <= hi,
    ensures
        is_best_pllm(pllsrcclk as int, target as int, lo as int, hi as int, m as int),
{
    let ghost src = pllsrcclk as int;
    proof {
        lemma_vco_in_bounds(src, lo as int);
    }
    let mut best: u32 = lo;
    let mut best_key: u64 = target % ((pllsrcclk / lo) as u64);
    let mut m: u32 = lo + 1;
    while m <= hi
        invariant
            src == pllsrcclk as int,
            lo == pllm_min(src),
            hi == pllm_max(src),
            1 <= lo <= hi,
            hi <= 4295,
            lo < m <= hi + 1,
            lo <= best < m,
            best_key == pllm_key(src, target as int, best as int),
            forall|m2: int|
                lo <= m2 < m ==> best_key <= #[trigger] pllm_key(src, target as int, m2),
            forall|m2: int|
                lo <= m2 < best ==> best_key < #[trigger] pllm_key(src, target as int, m2),
        decreases hi + 1 - m,
    {
        proof {
            lemma_vco_in_bounds(src, m as int);
        }
        let key = target % ((pllsrcclk / m) as u64);
        if key < best_key {
            best = m;
            best_key = key;
        }
        m = m + 1;
    }
    best
}

/// First `q` of `[4, 9]` whose 48 MHz output is most accurate, the system
/// clock error breaking ties, among those whose multiplier lies within
/// 192..=432 and whose VCO stays inside its band; `None` when there is none.
fn best_pllq(vi: u64, sysclk: u32, div: u32) -> (r: Option<u64>)
    requires
        VCO_IN_MIN <= vi <= VCO_IN_MAX,
        2 <= div <= 8,
    ensures
        match r {
            Some(q) => is_best_pllq(vi as int, sysclk as int, div as int, q as int) && 4 <= q <= 9,
            None => forall|q: int| 4 <= q <= 9 ==> !#[trigger] pllq_ok(vi as int, q),
        },
{
    let ghost v = vi as int;
    let ghost sc = sysclk as int;
    let ghost dv = div as int;
    let mut best: Option<(u64, u64, u64)> = None;
    let mut q: u64 = 4;
    while q <= 9
        invariant
            v == vi as int,
            sc == sysclk as int,
            dv == div as int,
            VCO_IN_MIN <= vi <= VCO_IN_MAX,
            2 <= div <= 8,
            4 <= q <= 10,
            match best {
                None => forall|q2: int| 4 <= q2 < q ==> !#[trigger] pllq_ok(v, q2),
                Some((bq, ba, bb)) => {
                    &&& 4 <= bq < q
                    &&& pllq_ok(v, bq as int)
                    &&& ba == pllq_48_error(v, bq as int)
                    &&& bb == pllq_sys_error(v, sc, dv, bq as int)
                    &&& forall|q2: int|
                        4 <= q2 < q && pllq_ok(v, q2) ==> !#[trigger] pllq_better(
                            v,
                            sc,
                            dv,
                            q2,
                            bq as int,
                        )
                    &&& forall|q2: int|
                        4 <= q2 < bq && pllq_ok(v, q2) ==> #[trigger] pllq_better(
                            v,
                            sc,
                            dv,
                            bq as int,
                            q2,
                        )
                },
            },
        decreases 10 - q,
    {
        let (a, b, plln) = pllq_score(vi, sysclk, div, q);
        let vco_out: u64 = vi * plln;
        if 192 <= plln && plln <= 432 && 192_000_000 <= vco_out && vco_out <= 432_000_000 {
            assert(pllq_ok(v, q as int));
            match best {
                None => {
                    best = Some((q, a, b));
                },
                Some((bq, ba, bb)) => {
                    if a < ba || (a == ba && b < bb) {
                        assert(pllq_better(v, sc, dv, q as int, bq as int));
                        assert forall|q2: int| 4 <= q2 <= q && pllq_ok(v, q2) implies !#[trigger] pllq_better(
                            v,
                            sc,
                            dv,
                            q2,
                            q as int,
                        ) by {
                            if q2 < q {
                                assert(!pllq_better(v, sc, dv, q2, bq as int));
                            }
                        }
                        assert forall|q2: int| 4 <= q2 < q && pllq_ok(v, q2) implies #[trigger] pllq_better(
                            v,
                            sc,
                            dv,
                            q as int,
                            q2,
                        ) by {
                            assert(!pllq_better(v, sc, dv, q2, bq as int));
                            if q2 < bq {
                                assert(pllq_better(v, sc, dv, bq as int, q2));
                            }
                        }
                        best = Some((q, a, b));
                    } else {
                        assert(!pllq_better(v, sc, dv, q as int, bq as int));
                    }
                },
            }
        } else {
            assert(!pllq_ok(v, q as int));
        }
        q = q + 1;
    }
    match best {
        Some((bq, _, _)) => Some(bq),
        None => None,
    }
}

/// The 48 MHz error, the system clock error and the multiplier of divisor `q`.
fn pllq_score(vi: u64, sysclk: u32, div: u32, q: u64) -> (r: (u64, u64, u64))
    requires
        VCO_IN_MIN <= vi <= VCO_IN_MAX,
        2 <= div <= 8,
        4 <= q <= 9,
    ensures
        r.0 == pllq_48_error(vi as int, q as int),
        r.1 == pllq_sys_error(vi as int, sysclk as int, div as int, q as int),
        r.2 == pllq_plln(vi as int, q as int),
        vi * r.2 <= 48_000_000 * 9,
{
    let plln: u64 = PLL48_CLK as u64 * q / vi;
    assert(vi * plln <= 48_000_000 * q) by (nonlinear_arith)
        requires
            plln == (48_000_000 * q) / (vi as int),
            vi >= 1,
    ;
    let vco_out: u64 = vi * plln;
    assert(vco_out / q <= 48_000_000) by (nonlinear_arith)
        requires
            vco_out <= 48_000_000 * q,
            q >= 1,
    ;
    let pll48_diff: u64 = PLL48_CLK as u64 - vco_out / q;
    let sys: u64 = vco_out / div as u64;
    let sysclk_diff: u64 = if sysclk as u64 >= sys {
        sysclk as u64 - sys
    } else {
        sys - sysclk as u64
    };
    (pll48_diff, sysclk_diff, plln)
}

impl MainPll {
    /// Configures the main PLL for a system clock of `pllsysclk` (the source
    /// clock when `None`) and, when `pll48clk` is set, an exact 48 MHz output.
    ///
    /// When neither output is requested the PLL stays off; only the source
    /// select, which the I2S PLL shares, is to be written.
    pub fn fast_setup(pllsrcclk: u32, use_hse: bool, pllsysclk: Option<u32>, pll48clk: bool) -> (r:
        Result<MainPll, PllError>)
        requires
            pllsrcclk > 0 || (pllsysclk is None && !pll48clk),
            pllsysclk != Some(0u32),
        ensures
            main_setup_result(pllsrcclk as int, use_hse, pllsysclk, pll48clk, r),
    {
        let ghost src = pllsrcclk as int;
        let sysclk = match pllsysclk {
            Some(clk) => clk,
            None => pllsrcclk,
        };
        if pllsysclk.is_none() && !pll48clk {
            return Ok(
                MainPll {
                    use_pll: false,
                    pllsysclk: None,
                    pll48clk: None,
                    m: None,
                    plli2sclk: None,
                    use_hse,
                    fields: None,
                },
            );
        }
        // Sysclk output divisor must be one of 2, 4, 6 or 8
        let div = sysclk_div_of(sysclk);
        if div == 0 {
            return Err(PllError::OutOfRangeDerivedField(PllField::SysclkDiv));
        }
        let target_freq: u64 = if pll48clk {
            PLL48_CLK as u64
        } else {
            sysclk as u64 * div as u64
        };
        // Input divisor from PLL source clock, must result to frequency in
        // the range from 1 to 2 MHz
        let (m_lo, m_hi) = pllm_range(pllsrcclk);
        if m_lo > m_hi {
            return Err(PllError::UnsatisfiableVcoConstraint);
        }
        let pllm = best_pllm(pllsrcclk, target_freq, m_lo, m_hi);
        let r = Self::setup_with_pllm(pllsrcclk, use_hse, sysclk, div, pll48clk, pllm);
        assert(is_best_pllm(
            src,
            main_target(sysclk as int, div as int, pll48clk),
            pllm_min(src),
            pllm_max(src),
            pllm as int,
        ));
        r
    }

    /// Main PLL configuration once the input divisor is chosen.
    fn setup_with_pllm(
        pllsrcclk: u32,
        use_hse: bool,
        sysclk: u32,
        sysclk_div: u32,
        pll48clk: bool,
        pllm: u32,
    ) -> (r: Result<MainPll, PllError>)
        requires
            pllm_min(pllsrcclk as int) <= pllm <= pllm_max(pllsrcclk as int),
            1 <= pllm,
            2 <= sysclk_div <= 8,
            sysclk * sysclk_div <= SYSCLK_DOMAIN_MAX,
        ensures
            main_from_pllm(
                pllsrcclk as int,
                use_hse,
                sysclk as int,
                sysclk_div as int,
                pll48clk,
                pllm as int,
                r,
            ),
    {
        if pllm < 2 || pllm > 63 {
            return Err(PllError::OutOfRangeDerivedField(PllField::M));
        }
        proof {
            lemma_vco_in_bounds(pllsrcclk as int, pllm as int);
        }
        let vco_in = pllsrcclk / pllm;
        if pll48clk {
            // try the different valid pllq according to the valid
            // main scaler values, and take the best
            let pllq = match best_pllq(vco_in as u64, sysclk, sysclk_div) {
                Some(q) => q,
                None => return Err(PllError::OutOfRangeDerivedField(PllField::N)),
            };
            let pll48: u64 = PLL48_CLK as u64;
            assert(pll48 * pllq <= 48_000_000 * 9) by (nonlinear_arith)
                requires
                    pll48 == 48_000_000,
                    pllq <= 9,
            ;
            let plln: u64 = pll48 * pllq / vco_in as u64;
            let r = Self::setup_with_plln(use_hse, vco_in, sysclk_div, pllm, plln);
            assert(is_best_pllq(vco_in as int, sysclk as int, sysclk_div as int, pllq as int));
            r
        } else {
            let plln: u64 = sysclk as u64 * sysclk_div as u64 / vco_in as u64;
            Self::setup_with_plln(use_hse, vco_in, sysclk_div, pllm, plln)
        }
    }

    /// Main PLL configuration once the multiplier is chosen.
    fn setup_with_plln(use_hse: bool, vco_in: u32, sysclk_div: u32, pllm: u32, plln: u64) -> (r:
        Result<MainPll, PllError>)
        requires
            VCO_IN_MIN <= vco_in <= VCO_IN_MAX,
            2 <= sysclk_div <= 8,
            2 <= pllm <= 63,
        ensures
            main_from_plln(use_hse, vco_in as int, sysclk_div as int, pllm as int, plln as int, r),
    {
        // Main scaler, must be within 192..=432
        if plln < 192 || plln > 432 {
            return Err(PllError::OutOfRangeDerivedField(PllField::N));
        }
        assert(vco_in * plln <= 2_000_000 * 432) by (nonlinear_arith)
            requires
                vco_in <= 2_000_000,
                plln <= 432,
        ;
        let vco_out: u64 = vco_in as u64 * plln;
        if vco_out < 192_000_000 || vco_out > 432_000_000 {
            return Err(PllError::UnsatisfiableVcoConstraint);
        }
        // PLLP: division factor for the main system clock domain (at most 120 MHz)
        let pllp = vco_out / 120_000_000;
        let pllq = vco_out / 48_000_000;
        let real_pllsysclk = vco_out / sysclk_div as u64;
        Ok(
            MainPll {
                use_pll: true,
                pllsysclk: Some(real_pllsysclk as u32),
                pll48clk: None,
                m: Some(pllm),
                plli2sclk: None,
                use_hse,
                fields: Some(
                    MainPllFields {
                        pllm: pllm as u8,
                        plln: plln as u16,
                        pllp: pllp as u8,
                        pllq: pllq as u8,
                    },
                ),
            },
        )
    }
}

// ---------------------------------------------------------------------------
// Laws
// ---------------------------------------------------------------------------

proof fn lemma_best_outdiv_unique(src: int, m: int, t: int, lo: int, hi: int, a: int, b: int)
    requires
        is_best_outdiv(src, m, t, lo, hi, a),
        is_best_outdiv(src, m, t, lo, hi, b),
    ensures
        a == b,
{
    if a < b {
        assert(single_valid(src, m, t, a));
    } else if b < a {
        assert(single_valid(src, m, t, b));
    }
}

proof fn lemma_best_aux_unique(src: int, t: int, m1: int, d1: int, m2: int, d2: int)
    requires
        is_best_aux(src, t, m1, d1),
        is_best_aux(src, t, m2, d2),
    ensures
        m1 == m2 && d1 == d2,
{
    assert(aux_valid(src, t, m1, d1));
    assert(aux_valid(src, t, m2, d2));
}

proof fn lemma_best_pllm_unique(src: int, target: int, lo: int, hi: int, a: int, b: int)
    requires
        is_best_pllm(src, target, lo, hi, a),
        is_best_pllm(src, target, lo, hi, b),
    ensures
        a == b,
{
    assert(pllm_key(src, target, a) <= pllm_key(src, target, b));
    assert(pllm_key(src, target, b) <= pllm_key(src, target, a));
}

proof fn lemma_best_pllq_unique(vi: int, sysclk: int, div: int, a: int, b: int)
    requires
        is_best_pllq(vi, sysclk, div, a),
        is_best_pllq(vi, sysclk, div, b),
    ensures
        a == b,
{
    assert(!pllq_better(vi, sysclk, div, a, b));
    assert(!pllq_better(vi, sysclk, div, b, a));
}

/// The single-output search is a function of its inputs: two results that
/// both meet its contract are the same.
pub proof fn lemma_optimize_deterministic(
    src: int,
    m: int,
    target: int,
    lo: int,
    hi: int,
    r1: Option<(SingleOutputPll, u32, u32)>,
    r2: Option<(SingleOutputPll, u32, u32)>,
)
    requires
        optimize_result(src, m, target, lo, hi, r1),
        optimize_result(src, m, target, lo, hi, r2),
    ensures
        r1 == r2,
{
    match (r1, r2) {
        (Some((c1, _, _)), Some((c2, _, _))) => {
            lemma_best_outdiv_unique(src, m, target, lo, hi, c1.outdiv as int, c2.outdiv as int);
        },
        (Some((c1, _, _)), None) => {
            assert(single_valid(src, m, target, c1.outdiv as int));
        },
        (None, Some((c2, _, _))) => {
            assert(single_valid(src, m, target, c2.outdiv as int));
        },
        (None, None) => {},
    }
}

/// The independent I2S PLL search is a function of its inputs.
pub proof fn lemma_aux_setup_deterministic(
    src: int,
    plli2sclk: Option<u32>,
    r1: Result<I2sPll, PllError>,
    r2: Result<I2sPll, PllError>,
)
    requires
        aux_setup_result(src, plli2sclk, r1),
        aux_setup_result(src, plli2sclk, r2),
    ensures
        r1 == r2,
{
    if let Some(t) = plli2sclk {
        match (r1, r2) {
            (Ok(p1), Ok(p2)) => {
                let (m1, d1) = choose|m: int, d: int|
                    #[trigger] is_best_aux(src, t as int, m, d) && p1 == aux_config(src, m, t as int, d);
                let (m2, d2) = choose|m: int, d: int|
                    #[trigger] is_best_aux(src, t as int, m, d) && p2 == aux_config(src, m, t as int, d);
                lemma_best_aux_unique(src, t as int, m1, d1, m2, d2);
            },
            (Ok(p1), Err(_)) => {
                let (m1, d1) = choose|m: int, d: int|
                    #[trigger] is_best_aux(src, t as int, m, d) && p1 == aux_config(src, m, t as int, d);
                assert(aux_valid(src, t as int, m1, d1));
            },
            (Err(_), Ok(p2)) => {
                let (m2, d2) = choose|m: int, d: int|
                    #[trigger] is_best_aux(src, t as int, m, d) && p2 == aux_config(src, m, t as int, d);
                assert(aux_valid(src, t as int, m2, d2));
            },
            (Err(_), Err(_)) => {},
        }
    }
}

/// The I2S PLL search with a shared input divisor is a function of its inputs.
pub proof fn lemma_aux_shared_deterministic(
    src: int,
    m: Option<u32>,
    plli2sclk: Option<u32>,
    r1: Result<I2sPll, PllError>,
    r2: Result<I2sPll, PllError>,
)
    requires
        aux_shared_result(src, m, plli2sclk, r1),
        aux_shared_result(src, m, plli2sclk, r2),
    ensures
        r1 == r2,
{
    match m {
        None => lemma_aux_setup_deterministic(src, plli2sclk, r1, r2),
        Some(mm) => {
            if let Some(t) = plli2sclk {
                if shared_m_ok(src, mm as int) {
                    let (mi, ti) = (mm as int, t as int);
                    match (r1, r2) {
                        (Ok(p1), Ok(p2)) => {
                            let d1 = choose|d: int|
                                #[trigger] is_best_outdiv(src, mi, ti, 2, 7, d) && p1 == aux_config(
                                    src,
                                    mi,
                                    ti,
                                    d,
                                );
                            let d2 = choose|d: int|
                                #[trigger] is_best_outdiv(src, mi, ti, 2, 7, d) && p2 == aux_config(
                                    src,
                                    mi,
                                    ti,
                                    d,
                                );
                            lemma_best_outdiv_unique(src, mi, ti, 2, 7, d1, d2);
                        },
                        (Ok(p1), Err(_)) => {
                            let d1 = choose|d: int|
                                #[trigger] is_best_outdiv(src, mi, ti, 2, 7, d) && p1 == aux_config(
                                    src,
                                    mi,
                                    ti,
                                    d,
                                );
                            assert(single_valid(src, mi, ti, d1));
                        },
                        (Err(_), Ok(p2)) => {
                            let d2 = choose|d: int|
                                #[trigger] is_best_outdiv(src, mi, ti, 2, 7, d) && p2 == aux_config(
                                    src,
                                    mi,
                                    ti,
                                    d,
                                );
                            assert(single_valid(src, mi, ti, d2));
                        },
                        (Err(_), Err(_)) => {},
                    }
                }
            }
        },
    }
}

/// The main PLL search is a function of its inputs: calling it twice with
/// the same inputs gives the same configuration.
pub proof fn lemma_main_setup_deterministic(
    src: int,
    use_hse: bool,
    pllsysclk: Option<u32>,
    pll48clk: bool,
    r1: Result<MainPll, PllError>,
    r2: Result<MainPll, PllError>,
)
    requires
        main_setup_result(src, use_hse, pllsysclk, pll48clk, r1),
        main_setup_result(src, use_hse, pllsysclk, pll48clk, r2),
    ensures
        r1 == r2,
{
    let sysclk: int = match pllsysclk {
        Some(s) => s as int,
        None => src,
    };
    if pllsysclk is Some || pll48clk {
        let div = sysclk_div(sysclk);
        let target = main_target(sysclk, div, pll48clk);
        if div != 0 && pllm_min(src) <= pllm_max(src) {
            let m1 = choose|m: int|
                #[trigger] is_best_pllm(src, target, pllm_min(src), pllm_max(src), m)
                    && main_from_pllm(src, use_hse, sysclk, div, pll48clk, m, r1);
            let m2 = choose|m: int|
                #[trigger] is_best_pllm(src, target, pllm_min(src), pllm_max(src), m)
                    && main_from_pllm(src, use_hse, sysclk, div, pll48clk, m, r2);
            lemma_best_pllm_unique(src, target, pllm_min(src), pllm_max(src), m1, m2);
            if pllm_field_ok(m1) && pll48clk && exists|q: int|
                4 <= q <= 9 && #[trigger] pllq_ok(vco_in(src, m1), q) {
                let vi = vco_in(src, m1);
                let q1 = choose|q: int|
                    #[trigger] is_best_pllq(vi, sysclk, div, q) && main_from_plln(
                        use_hse,
                        vi,
                        div,
                        m1,
                        pllq_plln(vi, q),
                        r1,
                    );
                let q2 = choose|q: int|
                    #[trigger] is_best_pllq(vi, sysclk, div, q) && main_from_plln(
                        use_hse,
                        vi,
                        div,
                        m1,
                        pllq_plln(vi, q),
                        r2,
                    );
                lemma_best_pllq_unique(vi, sysclk, div, q1, q2);
            }
        }
    }
}

/// The search over output divisors is exhaustive: no divisor of the range
/// that keeps the VCO inside its band comes closer to the target than the
/// one returned.
pub proof fn lemma_optimize_error_minimal(
    src: int,
    m: int,
    target: int,
    lo: int,
    hi: int,
    r: Option<(SingleOutputPll, u32, u32)>,
    d: int,
)
    requires
        optimize_result(src, m, target, lo, hi, r),
        r is Some,
        lo <= d <= hi,
        single_valid(src, m, target, d),
    ensures
        r->Some_0.2 <= single_error(src, m, target, d),
{
}

/// The independent I2S PLL search is exhaustive: no pair of input divisor
/// and output divisor that keeps the VCO inside its band comes closer to the
/// target than the configuration returned.
pub proof fn lemma_aux_setup_error_minimal(
    src: int,
    target: u32,
    r: Result<I2sPll, PllError>,
    m: int,
    d: int,
)
    requires
        aux_setup_result(src, Some(target), r),
        aux_valid(src, target as int, m, d),
    ensures
        r is Ok,
        r->Ok_0.plli2sclk is Some,
        abs_diff(r->Ok_0.plli2sclk->Some_0 as int, target as int) <= single_error(
            src,
            m,
            target as int,
            d,
        ),
{
    if let Ok(p) = r {
        let (m1, d1) = choose|mm: int, dd: int|
            #[trigger] is_best_aux(src, target as int, mm, dd) && p == aux_config(
                src,
                mm,
                target as int,
                dd,
            );
        lemma_single_output_fits(src, m1, target as int, d1);
    }
}

/// The output of a candidate inside the VCO band fits in 32 bits.
proof fn lemma_single_output_fits(src: int, m: int, target: int, d: int)
    requires
        single_valid(src, m, target, d),
        d >= 2,
    ensures
        0 <= single_output(src, m, target, d) <= 216_000_000,
{
    let v = single_vco_out(src, m, target, d);
    assert(v / d <= 216_000_000) by (nonlinear_arith)
        requires
            0 <= v <= 432_000_000,
            d >= 2,
    ;
    assert(v / d >= 0) by (nonlinear_arith)
        requires
            0 <= v,
            d >= 2,
    ;
}

/// Every main PLL configuration that the solver returns holds register
/// values inside their hardware ranges, and its VCO runs inside 192..=432 MHz.
pub proof fn lemma_main_fields_in_range(
    src: int,
    use_hse: bool,
    pllsysclk: Option<u32>,
    pll48clk: bool,
    r: Result<MainPll, PllError>,
)
    requires
        src >= 0,
        main_setup_result(src, use_hse, pllsysclk, pll48clk, r),
        r is Ok,
        r->Ok_0.use_pll,
    ensures
        ({
            let p = r->Ok_0;
            let f = p.fields->Some_0;
            &&& p.fields is Some
            &&& p.m == Some(f.pllm as u32)
            &&& 2 <= f.pllm <= 63
            &&& 192 <= f.plln <= 432
            &&& 0 <= f.pllp <= 3
            &&& 2 <= f.pllq <= 15
            &&& main_vco_ok(vco_in(src, f.pllm as int) * f.plln)
        }),
{
    let sysclk: int = match pllsysclk {
        Some(s) => s as int,
        None => src,
    };
    let div = sysclk_div(sysclk);
    let target = main_target(sysclk, div, pll48clk);
    let m = choose|m: int|
        #[trigger] is_best_pllm(src, target, pllm_min(src), pllm_max(src), m) && main_from_pllm(
            src,
            use_hse,
            sysclk,
            div,
            pll48clk,
            m,
            r,
        );
    let vi = vco_in(src, m);
    let n = if pll48clk {
        let q = choose|q: int|
            #[trigger] is_best_pllq(vi, sysclk, div, q) && main_from_plln(
                use_hse,
                vi,
                div,
                m,
                pllq_plln(vi, q),
                r,
            );
        pllq_plln(vi, q)
    } else {
        sysclk * div / vi
    };
    assert(main_from_plln(use_hse, vi, div, m, n, r));
    let v = vi * n;
    assert(v / 120_000_000 <= 3 && v / 48_000_000 >= 4 && v / 48_000_000 <= 9) by {
        assert(192_000_000 <= v <= 432_000_000);
    }
}

/// Every I2S PLL configuration that the independent search returns holds
/// register values inside their hardware ranges, and its VCO runs inside
/// 100..=432 MHz.
pub proof fn lemma_aux_fields_in_range(src: int, plli2sclk: Option<u32>, r: Result<I2sPll, PllError>)
    requires
        aux_setup_result(src, plli2sclk, r),
        r is Ok,
        r->Ok_0.use_pll,
    ensures
        ({
            let p = r->Ok_0;
            let c = p.config->Some_0;
            &&& p.config is Some
            &&& p.m == Some(c.m as u32)
            &&& 2 <= c.m <= 63
            &&& 2 <= c.outdiv <= 7
            &&& aux_vco_ok(vco_in(src, c.m as int) * c.n)
        }),
{
    let t = plli2sclk->Some_0 as int;
    let p = r->Ok_0;
    let (m, d) = choose|m: int, d: int|
        #[trigger] is_best_aux(src, t, m, d) && p == aux_config(src, m, t, d);
    let vi = vco_in(src, m);
    lemma_vco_in_bounds(src, m);
    lemma_n_bound(vi, ideal_n(t, vi, d), 432_000_000);
}

/// When the I2S PLL shares the input divisor that the main PLL committed, it
/// keeps that divisor exactly and never rejects it.
pub proof fn lemma_shared_m_kept(
    src: int,
    use_hse: bool,
    pllsysclk: Option<u32>,
    pll48clk: bool,
    main: MainPll,
    plli2sclk: u32,
    r: Result<I2sPll, PllError>,
)
    requires
        src >= 0,
        main_setup_result(src, use_hse, pllsysclk, pll48clk, Ok(main)),
        main.use_pll,
        aux_shared_result(src, main.m, Some(plli2sclk), r),
    ensures
        r != Err::<I2sPll, PllError>(PllError::OutOfRangeDerivedField(PllField::M)),
        r is Ok ==> r->Ok_0.m == main.m,
{
    lemma_main_fields_in_range(src, use_hse, pllsysclk, pll48clk, Ok(main));
    let sysclk: int = match pllsysclk {
        Some(s) => s as int,
        None => src,
    };
    let div = sysclk_div(sysclk);
    let target = main_target(sysclk, div, pll48clk);
    let m = choose|m: int|
        #[trigger] is_best_pllm(src, target, pllm_min(src), pllm_max(src), m) && main_from_pllm(
            src,
            use_hse,
            sysclk,
            div,
            pll48clk,
            m,
            Ok(main),
        );
    lemma_vco_in_bounds(src, m);
    assert(shared_m_ok(src, main.m->Some_0 as int));
}

} // verus!
