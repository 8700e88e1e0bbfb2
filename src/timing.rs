//! Compilation options and the timing tolerances of a match.
use vstd::prelude::*;

verus! {

/// The options of one compilation.
pub struct Options {
    /// Name of the decoder.
    pub name: String,
    /// A gap of at least this many microseconds ends a transmission.
    pub max_gap: u32,
    /// Absolute timing tolerance, in microseconds.
    pub aeps: u32,
    /// Relative timing tolerance, in percent.
    pub eps: u32,
    /// Passed on to the decoder program unchanged.
    pub repeat_mask: u64,
    /// Save the NFA as a dot file.
    pub nfa: bool,
    /// Save the DFA as a dot file.
    pub dfa: bool,
    /// Save the decoder program as LLVM IR.
    pub llvm_ir: bool,
    /// Save the decoder program as assembly.
    pub assembly: bool,
    /// Save the decoder program as an object file.
    pub object: bool,
}

/// The maximum gap used when neither the user nor the device gives one.
pub const DEFAULT_MAX_GAP: u32 = 100000;

/// The absolute tolerance used when none is given.
pub const DEFAULT_AEPS: u32 = 100;

/// The relative tolerance used when none is given.
pub const DEFAULT_EPS: u32 = 3;

impl Default for Options {
    fn default() -> (r: Options)
        ensures
            r.name@.len() == 0,
            r.max_gap == DEFAULT_MAX_GAP,
            r.aeps == DEFAULT_AEPS,
            r.eps == DEFAULT_EPS,
            r.repeat_mask == 0,
            !r.nfa && !r.dfa && !r.llvm_ir && !r.assembly && !r.object,
    {
        Options {
            name: String::new(),
            max_gap: DEFAULT_MAX_GAP,
            aeps: DEFAULT_AEPS,
            eps: DEFAULT_EPS,
            repeat_mask: 0,
            nfa: false,
            dfa: false,
            llvm_ir: false,
            assembly: false,
            object: false,
        }
    }
}

/// The maximum gap: the one configured, else nine tenths of the device's
/// timeout, else the default.
pub open spec fn max_gap_spec(configured: Option<u32>, device_timeout: Option<u32>) -> nat {
    match configured {
        Some(t) => t as nat,
        None => match device_timeout {
            Some(d) => (d * 9 / 10) as nat,
            None => DEFAULT_MAX_GAP as nat,
        },
    }
}

/// Chooses the maximum gap from the configured value and the device's timeout.
pub fn max_gap_for(configured: Option<u32>, device_timeout: Option<u32>) -> (r: u32)
    ensures
        r as nat == max_gap_spec(configured, device_timeout),
{
    match configured {
        Some(t) => t,
        None => match device_timeout {
            Some(d) => ((d as u64) * 9 / 10) as u32,
            None => DEFAULT_MAX_GAP,
        },
    }
}

/// Options for a decoder named `name`, with the tolerances given or the defaults.
pub fn decode_options(name: &str, max_gap: u32, aeps: Option<u32>, eps: Option<u32>) -> (r: Options)
    ensures
        r.name@ == name@,
        r.max_gap == max_gap,
        r.aeps == match aeps {
            Some(a) => a,
            None => DEFAULT_AEPS,
        },
        r.eps == match eps {
            Some(e) => e,
            None => DEFAULT_EPS,
        },
        r.repeat_mask == 0,
        !r.nfa && !r.dfa && !r.llvm_ir && !r.assembly && !r.object,
{
    Options {
        name: String::from_str(name),
        max_gap,
        aeps: match aeps {
            Some(a) => a,
            None => DEFAULT_AEPS,
        },
        eps: match eps {
            Some(e) => e,
            None => DEFAULT_EPS,
        },
        repeat_mask: 0,
        nfa: false,
        dfa: false,
        llvm_ir: false,
        assembly: false,
        object: false,
    }
}

/// The relative part of the tolerance around a nominal length.
pub open spec fn relative_slack(length: nat, eps: nat) -> nat {
    length * eps / 100
}

/// The shortest duration admitted for a nominal length.
pub open spec fn band_low(length: nat, eps: nat, aeps: nat) -> int {
    length - relative_slack(length, eps) - aeps
}

/// The longest duration admitted for a nominal length.
pub open spec fn band_high(length: nat, eps: nat, aeps: nat) -> int {
    (length + relative_slack(length, eps) + aeps) as int
}

/// Whether a measured duration lies within the band of a nominal length.
pub open spec fn in_band(length: nat, value: int, eps: nat, aeps: nat) -> bool {
    band_low(length, eps, aeps) <= value <= band_high(length, eps, aeps)
}

/// Whether a measured flash or gap of `value` microseconds matches an edge
/// of nominal length `length` under the tolerances of `opts`.
pub fn accepts(length: u32, value: u32, opts: &Options) -> (r: bool)
    ensures
        r == in_band(length as nat, value as int, opts.eps as nat, opts.aeps as nat),
{
    let l = length as u64;
    let e = opts.eps as u64;
    assert(l * e <= 0xffff_ffff * 0xffff_ffff) by (nonlinear_arith)
        requires
            l <= 0xffff_ffff,
            e <= 0xffff_ffff,
    ;
    let slack = l * e / 100;
    let value = value as u64;
    let low_ok = value + slack + opts.aeps as u64 >= l;
    let high_ok = value <= l + slack + opts.aeps as u64;
    low_ok && high_ok
}

/// Whether a gap of `value` microseconds ends a transmission under the
/// maximum gap `max_gap`.
pub open spec fn ends_transmission(value: nat, max_gap: nat) -> bool {
    value >= max_gap
}

/// Whether a gap of `value` microseconds ends the transmission, resetting
/// the match.
pub fn gap_resets(value: u32, opts: &Options) -> (r: bool)
    ensures
        r == ends_transmission(value as nat, opts.max_gap as nat),
{
    value >= opts.max_gap
}

/// A gap one microsecond shorter than the maximum gap continues the match,
/// and a gap of exactly the maximum gap resets it.
pub proof fn lemma_max_gap_boundary(max_gap: nat)
    requires
        max_gap > 0,
    ensures
        !ends_transmission((max_gap - 1) as nat, max_gap),
        ends_transmission(max_gap, max_gap),
{
}

/// The band is closed at its lower end: a duration one microsecond below
/// `length·(1 − eps/100) − aeps` is rejected, and that duration itself is
/// accepted.
pub proof fn lemma_band_lower_edge(length: nat, eps: nat, aeps: nat)
    ensures
        !in_band(length, band_low(length, eps, aeps) - 1, eps, aeps),
        in_band(length, band_low(length, eps, aeps), eps, aeps),
{
}

} // verus!
