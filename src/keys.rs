//! Key names of remote definitions, resolved to input-subsystem key codes.
use vstd::prelude::*;

verus! {

/// What `str::to_uppercase` makes of a text.
pub uninterp spec fn upper_of(s: Seq<char>) -> Seq<char>;

/// What evdev's key table gives for a key name: its code, if it knows the name.
pub uninterp spec fn keycode_of(name: Seq<char>) -> Option<u16>;

/// Relies on `str::to_uppercase`: the result depends on the characters alone.
#[verifier::external_body]
fn uppercase(s: &str) -> (r: String)
    ensures
        r@ == upper_of(s@),
{
    s.to_uppercase()
}

/// Relies on evdev's `FromStr` for `KeyCode`: the code of the key whose
/// constant has exactly this name, if there is one.
#[verifier::external_body]
fn keycode_from_name(name: &str) -> (r: Option<u16>)
    ensures
        r == keycode_of(name@),
{
    <evdev::KeyCode as std::str::FromStr>::from_str(name).ok().map(|k| k.code())
}

/// Whether a text begins with `KEY_`.
pub open spec fn has_key_prefix(s: Seq<char>) -> bool {
    s.len() >= 4 && s.subrange(0, 4) == "KEY_"@
}

/// A remote's button name as a key name: upper-cased, with `KEY_` put in
/// front when it does not begin so.
pub open spec fn normalized_key_name(name: Seq<char>) -> Seq<char> {
    let u = upper_of(name);
    if has_key_prefix(u) {
        u
    } else {
        "KEY_"@ + u
    }
}

/// Turns a remote's button name into a key name: upper-cased, with `KEY_`
/// in front when it does not begin so.
pub fn key_name(name: &str) -> (r: String)
    ensures
        r@ == normalized_key_name(name@),
{
    let u = uppercase(name);
    proof {
        reveal_strlit("KEY_");
    }
    let s = u.as_str();
    let n = s.unicode_len();
    let mut prefixed = n >= 4;
    if prefixed {
        let mut i: usize = 0;
        assert(s@.subrange(0, 0) =~= "KEY_"@.subrange(0, 0));
        while i < 4
            invariant
                "KEY_"@.len() == 4,
                n == s@.len(),
                n >= 4,
                i <= 4,
                prefixed == (s@.subrange(0, i as int) == "KEY_"@.subrange(0, i as int)),
            decreases 4 - i,
        {
            let c = s.get_char(i);
            let k = "KEY_".get_char(i);
            proof {
                let a = s@.subrange(0, i + 1);
                let b = "KEY_"@.subrange(0, i + 1);
                assert(a =~= s@.subrange(0, i as int).push(c));
                assert(b =~= "KEY_"@.subrange(0, i as int).push(k));
                if a == b {
                    assert(a[i as int] == b[i as int]);
                    assert(s@.subrange(0, i as int) =~= a.subrange(0, i as int));
                    assert("KEY_"@.subrange(0, i as int) =~= b.subrange(0, i as int));
                }
            }
            prefixed = prefixed && c == k;
            i += 1;
        }
        assert("KEY_"@.subrange(0, 4) =~= "KEY_"@);
    }
    if prefixed {
        u
    } else {
        let mut r = String::from_str("KEY_");
        r.append(s);
        r
    }
}

/// The key code for each button name, or `None` where the key table has no
/// such key; with `normalize`, each name is first turned into a key name as
/// `key_name` does.
pub fn resolve_keys(names: &Vec<String>, normalize: bool) -> (r: Vec<Option<u16>>)
    ensures
        r@.len() == names@.len(),
        forall|i: int|
            0 <= i < names@.len() ==> #[trigger] r@[i] == keycode_of(
                if normalize {
                    normalized_key_name(names@[i]@)
                } else {
                    names@[i]@
                },
            ),
{
    let mut res: Vec<Option<u16>> = Vec::new();
    let mut i: usize = 0;
    while i < names.len()
        invariant
            i <= names@.len(),
            res@.len() == i,
            forall|j: int|
                0 <= j < i ==> #[trigger] res@[j] == keycode_of(
                    if normalize {
                        normalized_key_name(names@[j]@)
                    } else {
                        names@[j]@
                    },
                ),
        decreases names.len() - i,
    {
        let code = if normalize {
            let k = key_name(names[i].as_str());
            keycode_from_name(k.as_str())
        } else {
            keycode_from_name(names[i].as_str())
        };
        res.push(code);
        i += 1;
    }
    res
}

} // verus!
