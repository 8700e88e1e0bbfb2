//! Receiver configuration decisions: which protocols to enable, how long a
//! silence ends a transmission, and which device to use.
use vstd::prelude::*;

verus! {

/// What a device is wanted for.
pub enum Purpose {
    Receive,
    Transmit,
}

/// `acc` with `p` added at the end, unless it is there already.
pub open spec fn with_unique(acc: Seq<usize>, p: usize) -> Seq<usize> {
    if acc.contains(p) {
        acc
    } else {
        acc.push(p)
    }
}

/// `acc` with each index below `n` added in increasing order, unless there already.
pub open spec fn with_all(acc: Seq<usize>, n: nat) -> Seq<usize>
    decreases n,
{
    if n == 0 {
        acc
    } else {
        with_unique(with_all(acc, (n - 1) as nat), (n - 1) as usize)
    }
}

/// The first index from `i` on at which `list` holds `name`.
pub open spec fn index_from(list: Seq<Seq<char>>, name: Seq<char>, i: int) -> Option<usize>
    decreases list.len() - i,
{
    if i < 0 || i >= list.len() {
        None
    } else if list[i] == name {
        Some(i as usize)
    } else {
        index_from(list, name, i + 1)
    }
}

/// The enabled protocols after one more requested name: an empty name
/// changes nothing, `all` adds every supported protocol, any other name adds
/// the first supported protocol of that name, or fails when there is none.
pub open spec fn protocol_step(supported: Seq<Seq<char>>, acc: Seq<usize>, name: Seq<char>) -> Option<
    Seq<usize>,
> {
    if name.len() == 0 {
        Some(acc)
    } else if name == "all"@ {
        Some(with_all(acc, supported.len()))
    } else {
        match index_from(supported, name, 0) {
            Some(p) => Some(with_unique(acc, p)),
            None => None,
        }
    }
}

/// The enabled protocols after the first `k` requested names, or `None` once
/// one of them is unsupported.
pub open spec fn protocols_after(supported: Seq<Seq<char>>, requested: Seq<Seq<char>>, k: int) -> Option<
    Seq<usize>,
>
    decreases k,
{
    if k <= 0 {
        Some(Seq::empty())
    } else {
        match protocols_after(supported, requested, k - 1) {
            Some(acc) => protocol_step(supported, acc, requested[k - 1]),
            None => None,
        }
    }
}

pub(crate) fn add_unique(acc: &mut Vec<usize>, p: usize)
    ensures
        final(acc)@ == with_unique(old(acc)@, p),
{
    let mut i: usize = 0;
    while i < acc.len()
        invariant
            i <= acc@.len(),
            forall|j: int| 0 <= j < i ==> acc@[j] != p,
        decreases acc.len() - i,
    {
        if acc[i] == p {
            assert(acc@.contains(p));
            return;
        }
        i += 1;
    }
    acc.push(p);
}

fn add_all(acc: &mut Vec<usize>, n: usize)
    ensures
        final(acc)@ == with_all(old(acc)@, n as nat),
{
    let ghost start = acc@;
    let mut p: usize = 0;
    while p < n
        invariant
            p <= n,
            acc@ == with_all(start, p as nat),
        decreases n - p,
    {
        add_unique(acc, p);
        p += 1;
    }
}

fn index_of(list: &Vec<String>, name: &String) -> (r: Option<usize>)
    ensures
        r == index_from(crate::text::views(list@), name@, 0),
{
    let ghost names = crate::text::views(list@);
    let mut i: usize = 0;
    while i < list.len()
        invariant
            i <= list@.len(),
            names == crate::text::views(list@),
            index_from(names, name@, 0) == index_from(names, name@, i as int),
        decreases list.len() - i,
    {
        if list[i] == *name {
            return Some(i);
        }
        i += 1;
    }
    None
}

/// The indices of the protocols to enable for the requested names, in order
/// of first request and each once. `all` stands for every supported protocol
/// and an empty name for none. Fails with the index of the first requested
/// name that no supported protocol has.
pub fn select_protocols(supported: &Vec<String>, requested: &Vec<String>) -> (r: Result<
    Vec<usize>,
    usize,
>)
    ensures
        match r {
            Ok(v) => protocols_after(
                crate::text::views(supported@),
                crate::text::views(requested@),
                requested@.len() as int,
            ) == Some(v@),
            Err(k) => k < requested@.len() && protocols_after(
                crate::text::views(supported@),
                crate::text::views(requested@),
                k as int,
            ) is Some && protocols_after(
                crate::text::views(supported@),
                crate::text::views(requested@),
                k + 1,
            ) is None,
        },
{
    let ghost sup = crate::text::views(supported@);
    let ghost req = crate::text::views(requested@);
    let all = String::from_str("all");
    let mut res: Vec<usize> = Vec::new();
    let mut k: usize = 0;
    while k < requested.len()
        invariant
            k <= requested@.len(),
            sup == crate::text::views(supported@),
            req == crate::text::views(requested@),
            all@ == "all"@,
            protocols_after(sup, req, k as int) == Some(res@),
        decreases requested.len() - k,
    {
        let name = &requested[k];
        assert(req[k as int] == name@);
        if name.as_str().is_empty() {
        } else if *name == all {
            add_all(&mut res, supported.len());
        } else {
            match index_of(supported, name) {
                Some(p) => add_unique(&mut res, p),
                None => {
                    return Err(k);
                },
            }
        }
        k += 1;
    }
    Ok(res)
}

/// `acc` with the protocol of each of the first `k` decoder names added
/// unless already there, or `None` once one of them is unsupported.
pub open spec fn decoders_after(
    supported: Seq<Seq<char>>,
    acc: Seq<usize>,
    decoders: Seq<Seq<char>>,
    k: int,
) -> Option<Seq<usize>>
    decreases k,
{
    if k <= 0 {
        Some(acc)
    } else {
        match decoders_after(supported, acc, decoders, k - 1) {
            Some(a) => match index_from(supported, decoders[k - 1], 0) {
                Some(p) => Some(with_unique(a, p)),
                None => None,
            },
            None => None,
        }
    }
}

/// Adds to `protocols` the index of the supported protocol of each decoder
/// name, each once. Returns false, leaving `protocols` as it was, when the
/// device does not support one of them.
pub fn enable_decoders(supported: &Vec<String>, decoders: &Vec<String>, protocols: &mut Vec<usize>) -> (r:
    bool)
    ensures
        match decoders_after(
            crate::text::views(supported@),
            old(protocols)@,
            crate::text::views(decoders@),
            decoders@.len() as int,
        ) {
            Some(v) => r && final(protocols)@ == v,
            None => !r && final(protocols)@ == old(protocols)@,
        },
{
    let ghost sup = crate::text::views(supported@);
    let ghost dec = crate::text::views(decoders@);
    let mut acc = protocols.clone();
    assert(acc@ =~= protocols@);
    let mut k: usize = 0;
    while k < decoders.len()
        invariant
            k <= decoders@.len(),
            sup == crate::text::views(supported@),
            dec == crate::text::views(decoders@),
            decoders_after(sup, protocols@, dec, k as int) == Some(acc@),
        decreases decoders.len() - k,
    {
        assert(dec[k as int] == decoders@[k as int]@);
        match index_of(supported, &decoders[k]) {
            Some(p) => add_unique(&mut acc, p),
            None => {
                assert(decoders_after(sup, protocols@, dec, k + 1) is None);
                let mut j: usize = k + 1;
                while j < decoders.len()
                    invariant
                        k < j <= decoders@.len(),
                        decoders_after(sup, protocols@, dec, j as int) is None,
                    decreases decoders.len() - j,
                {
                    j += 1;
                }
                return false;
            },
        }
        k += 1;
    }
    *protocols = acc;
    true
}

/// Whether a keymap file name ends in `.lircd.conf`.
pub open spec fn names_lircd_conf(name: Seq<char>) -> bool {
    name.len() >= 11 && name.subrange(name.len() - 11, name.len() as int) == ".lircd.conf"@
}

/// Whether a keymap file is in lircd.conf format, going by its name; other
/// keymaps are in the keymap format.
pub fn is_lircd_conf(name: &str) -> (r: bool)
    ensures
        r == names_lircd_conf(name@),
{
    proof {
        reveal_strlit(".lircd.conf");
    }
    let suffix = ".lircd.conf";
    let n = name.unicode_len();
    if n < 11 {
        return false;
    }
    let start = n - 11;
    let mut i: usize = 0;
    while i < 11
        invariant
            suffix@ == ".lircd.conf"@,
            suffix@.len() == 11,
            n == name@.len(),
            n >= 11,
            start == n - 11,
            i <= 11,
            forall|j: int| 0 <= j < i ==> name@[start + j] == suffix@[j],
        decreases 11 - i,
    {
        if name.get_char(start + i) != suffix.get_char(i) {
            assert(name@.subrange(start as int, n as int)[i as int] != suffix@[i as int]);
            return false;
        }
        i += 1;
    }
    assert(name@.subrange(start as int, n as int) =~= suffix@);
    true
}

} // verus!
