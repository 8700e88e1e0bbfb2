//! Turning received samples into match tokens, and decoded bindings into
//! report lines.
use vstd::prelude::*;
use crate::text::{joined, radix, render_radix, views};

verus! {

/// One token of a received pulse train.
#[derive(Clone, Copy, Debug)]
pub enum InfraredData {
    /// A pulse of this many microseconds.
    Flash(u32),
    /// A silence of this many microseconds.
    Gap(u32),
    /// The receiver lost track: start matching afresh.
    Reset,
}

/// The kind of a raw sample read from a lirc device.
pub enum SampleKind {
    Pulse,
    Space,
    Timeout,
    Overflow,
    Other,
}

/// Relies on `num_integer::Integer::is_odd`: whether the number leaves a
/// remainder of one when divided by two.
#[verifier::external_body]
fn is_odd(n: usize) -> (r: bool)
    ensures
        r == (n % 2 == 1),
{
    num_integer::Integer::is_odd(&n)
}

/// The token of the `index`-th duration of a raw pulse train, which
/// alternates flash and gap starting with a flash.
pub open spec fn raw_token(index: nat, value: u32) -> InfraredData {
    if index % 2 == 1 {
        InfraredData::Gap(value)
    } else {
        InfraredData::Flash(value)
    }
}

/// The tokens of a raw pulse train: durations alternately flash and gap,
/// starting with a flash.
pub fn raw_tokens(raw: &Vec<u32>) -> (r: Vec<InfraredData>)
    ensures
        r@.len() == raw@.len(),
        forall|i: int| 0 <= i < raw@.len() ==> #[trigger] r@[i] == raw_token(i as nat, raw@[i]),
{
    let mut res: Vec<InfraredData> = Vec::new();
    let mut i: usize = 0;
    while i < raw.len()
        invariant
            i <= raw@.len(),
            res@.len() == i,
            forall|j: int| 0 <= j < i ==> #[trigger] res@[j] == raw_token(j as nat, raw@[j]),
        decreases raw.len() - i,
    {
        let t = if is_odd(i) {
            InfraredData::Gap(raw[i])
        } else {
            InfraredData::Flash(raw[i])
        };
        res.push(t);
        i += 1;
    }
    res
}

/// The token for a sample of a lirc device: a pulse is a flash, a space or
/// timeout a gap, an overflow a reset; other samples carry none.
pub fn sample_token(kind: SampleKind, value: u32) -> (r: Option<InfraredData>)
    ensures
        r == match kind {
            SampleKind::Pulse => Some(InfraredData::Flash(value)),
            SampleKind::Space => Some(InfraredData::Gap(value)),
            SampleKind::Timeout => Some(InfraredData::Gap(value)),
            SampleKind::Overflow => Some(InfraredData::Reset),
            SampleKind::Other => None::<InfraredData>,
        },
{
    match kind {
        SampleKind::Pulse => Some(InfraredData::Flash(value)),
        SampleKind::Space | SampleKind::Timeout => Some(InfraredData::Gap(value)),
        SampleKind::Overflow => Some(InfraredData::Reset),
        SampleKind::Other => None,
    }
}

/// The first code of a remote from index `i` on whose scancode is `code`.
pub open spec fn code_from(codes: Seq<(String, u64)>, code: u64, i: int) -> Option<Seq<char>>
    decreases codes.len() - i,
{
    if i < 0 || i >= codes.len() {
        None
    } else if codes[i].1 == code {
        Some(codes[i].0@)
    } else {
        code_from(codes, code, i + 1)
    }
}

/// The report of a decoded scancode for a remote: the name of its button,
/// or the scancode in hexadecimal when the remote has none.
pub open spec fn remote_text(remote: Seq<char>, codes: Seq<(String, u64)>, code: u64) -> Seq<char> {
    match code_from(codes, code, 0) {
        Some(n) => "remote:"@ + remote + " code:"@ + n,
        None => "remote:"@ + remote + " unmapped code:"@ + radix(code as nat, true),
    }
}

/// Reports a scancode decoded for a remote with the given button names
/// and scancodes.
pub fn remote_line(remote: &str, codes: &Vec<(String, u64)>, code: u64) -> (r: String)
    ensures
        r@ == remote_text(remote@, codes@, code),
{
    let mut res = String::from_str("remote:");
    res.append(remote);
    let mut i: usize = 0;
    while i < codes.len()
        invariant
            i <= codes@.len(),
            res@ == "remote:"@ + remote@,
            code_from(codes@, code, 0) == code_from(codes@, code, i as int),
        decreases codes.len() - i,
    {
        if codes[i].1 == code {
            res.append(" code:");
            res.append(codes[i].0.as_str());
            assert(res@ =~= remote_text(remote@, codes@, code));
            return res;
        }
        i += 1;
    }
    res.append(" unmapped code:");
    let hex = render_radix(code, true);
    res.append(hex.as_str());
    assert(res@ =~= remote_text(remote@, codes@, code));
    res
}

/// The bindings of a decoded event, each as `name=value` with the value in
/// hexadecimal (two's complement when negative).
pub open spec fn binding_hex(vars: Seq<(String, i64)>) -> Seq<Seq<char>> {
    Seq::new(vars.len(), |i: int| vars[i].0@ + "="@ + radix(vars[i].1 as u64 as nat, true))
}

/// Reports the bindings of a decoded event.
pub fn decoded_line(vars: &Vec<(String, i64)>) -> (r: String)
    ensures
        r@ == "decoded: "@ + joined(binding_hex(vars@), ", "@),
{
    let mut parts: Vec<String> = Vec::new();
    let mut i: usize = 0;
    while i < vars.len()
        invariant
            i <= vars@.len(),
            views(parts@) == binding_hex(vars@).take(i as int),
        decreases vars.len() - i,
    {
        let mut t = vars[i].0.clone();
        t.append("=");
        let h = render_radix(vars[i].1 as u64, true);
        t.append(h.as_str());
        let ghost before = parts@;
        parts.push(t);
        assert(views(parts@) =~= views(before).push(t@));
        assert(binding_hex(vars@).take(i + 1) =~= binding_hex(vars@).take(i as int).push(t@));
        i += 1;
    }
    assert(binding_hex(vars@).take(i as int) =~= binding_hex(vars@));
    let list = crate::text::join_strings(&parts, ", ");
    let mut res = String::from_str("decoded: ");
    res.append(list.as_str());
    res
}

/// The value bound to `name` first from index `i` on.
pub open spec fn value_from(vars: Seq<(String, i64)>, name: Seq<char>, i: int) -> Option<i64>
    decreases vars.len() - i,
{
    if i < 0 || i >= vars.len() {
        None
    } else if vars[i].0@ == name {
        Some(vars[i].1)
    } else {
        value_from(vars, name, i + 1)
    }
}

/// The scancode of a decoded event: the value of its `CODE` binding, read
/// as unsigned.
pub fn decoded_code(vars: &Vec<(String, i64)>) -> (r: Option<u64>)
    ensures
        r == match value_from(vars@, "CODE"@, 0) {
            Some(v) => Some(v as u64),
            None => None::<u64>,
        },
{
    let key = String::from_str("CODE");
    let mut i: usize = 0;
    while i < vars.len()
        invariant
            i <= vars@.len(),
            key@ == "CODE"@,
            value_from(vars@, "CODE"@, 0) == value_from(vars@, "CODE"@, i as int),
        decreases vars.len() - i,
    {
        if vars[i].0 == key {
            return Some(vars[i].1 as u64);
        }
        i += 1;
    }
    None
}

} // verus!
