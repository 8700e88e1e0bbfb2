//! Lowering of a lircd.conf remote's timing table to an IRP expression.
use vstd::prelude::*;
use crate::text::{radix, render_radix};

verus! {

/// The timings of a lircd.conf remote, in microseconds.
pub struct LircdTimings {
    /// Number of bits in a code.
    pub bits: u32,
    /// Flash and gap that open a frame, if any.
    pub header: Option<(u32, u32)>,
    /// Flash and gap of a one bit.
    pub one: (u32, u32),
    /// Flash and gap of a zero bit.
    pub zero: (u32, u32),
    /// Flash that closes a frame, if any.
    pub ptrail: Option<u32>,
    /// Gap after a frame.
    pub gap: u32,
}

/// Decimal notation of a duration.
pub open spec fn dec(n: u32) -> Seq<char> {
    radix(n as nat, false)
}

/// A flash and a gap in IRP notation.
pub open spec fn pair_text(p: (u32, u32)) -> Seq<char> {
    dec(p.0) + ",-"@ + dec(p.1)
}

/// The IRP expression of a remote: a bitspec mapping zero and one to their
/// flash and gap, then the header, one `CODE` field of `bits` bits, the
/// trailing flash and the gap.
pub open spec fn lircd_irp_text(t: LircdTimings) -> Seq<char> {
    "{msb}<"@ + pair_text(t.zero) + "|"@ + pair_text(t.one) + ">("@ + match t.header {
        Some(h) => pair_text(h) + ","@,
        None => Seq::empty(),
    } + "CODE:"@ + dec(t.bits) + match t.ptrail {
        Some(p) => ","@ + dec(p),
        None => Seq::empty(),
    } + ",-"@ + dec(t.gap) + ")"@
}

fn append_pair(res: &mut String, p: (u32, u32))
    ensures
        final(res)@ == old(res)@ + pair_text(p),
{
    let ghost start = res@;
    let a = render_radix(p.0 as u64, false);
    res.append(a.as_str());
    res.append(",-");
    let b = render_radix(p.1 as u64, false);
    res.append(b.as_str());
    assert(res@ =~= start + pair_text(p));
}

/// Writes the IRP expression for a remote's timing table.
pub fn lircd_irp(t: &LircdTimings) -> (r: String)
    ensures
        r@ == lircd_irp_text(*t),
{
    let mut res = String::from_str("{msb}<");
    append_pair(&mut res, t.zero);
    res.append("|");
    append_pair(&mut res, t.one);
    res.append(">(");
    let ghost before_header = res@;
    if let Some(h) = t.header {
        append_pair(&mut res, h);
        res.append(",");
    }
    let ghost after_header = res@;
    res.append("CODE:");
    let bits = render_radix(t.bits as u64, false);
    res.append(bits.as_str());
    let ghost before_trail = res@;
    if let Some(p) = t.ptrail {
        res.append(",");
        let d = render_radix(p as u64, false);
        res.append(d.as_str());
    }
    let ghost after_trail = res@;
    res.append(",-");
    let g = render_radix(t.gap as u64, false);
    res.append(g.as_str());
    res.append(")");
    assert(after_header =~= before_header + match t.header {
        Some(h) => pair_text(h) + ","@,
        None => Seq::empty(),
    });
    assert(after_trail =~= before_trail + match t.ptrail {
        Some(p) => ","@ + dec(p),
        None => Seq::empty(),
    });
    assert(res@ =~= lircd_irp_text(*t));
    res
}

} // verus!
