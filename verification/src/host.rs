//! The grammar of a device host address.
//!
//! A controller may only start against a host that is a well-formed
//! dotted-quad address: four decimal components separated by dots, each
//! between 0 and 255, written without leading zeros. The grammar is
//! stated as a left-to-right scan: [`scan_step`] consumes one character,
//! and [`spec_valid_ipv4`] accepts exactly the strings whose scan ends
//! with three dots behind it, a non-empty last component, and no rule
//! broken on the way.

use vstd::prelude::*;

verus! {

/// The state of the address scan after some prefix: dots consumed,
/// digits and value of the component being read, whether that component
/// began with a zero, and whether the grammar has already been broken.
pub struct AddressScan {
    pub parts: int,
    pub digits: int,
    pub value: int,
    pub leading_zero: bool,
    pub bad: bool,
}

/// Whether `c` is a decimal digit.
pub open spec fn is_dec_digit(c: char) -> bool {
    48 <= c as u32 <= 57
}

/// The scan state before any character.
pub open spec fn scan_init() -> AddressScan {
    AddressScan { parts: 0, digits: 0, value: 0, leading_zero: false, bad: false }
}

/// One step of the address scan.
///
/// A digit extends the current component, breaking the grammar when the
/// component exceeds 255 or continues past a leading zero. A dot closes
/// a non-empty component, at most three times. Any other character
/// breaks the grammar; once broken it stays broken.
pub open spec fn scan_step(st: AddressScan, c: char) -> AddressScan {
    if st.bad {
        st
    } else if is_dec_digit(c) {
        let v = st.value * 10 + (c as u32 - 48);
        AddressScan {
            parts: st.parts,
            digits: st.digits + 1,
            value: v,
            leading_zero: if st.digits == 0 {
                c == '0'
            } else {
                st.leading_zero
            },
            bad: v > 255 || (st.digits >= 1 && st.leading_zero),
        }
    } else if c == '.' {
        if st.digits == 0 || st.parts >= 3 {
            AddressScan {
                parts: st.parts,
                digits: st.digits,
                value: st.value,
                leading_zero: st.leading_zero,
                bad: true,
            }
        } else {
            AddressScan { parts: st.parts + 1, digits: 0, value: 0, leading_zero: false, bad: false }
        }
    } else {
        AddressScan {
            parts: st.parts,
            digits: st.digits,
            value: st.value,
            leading_zero: st.leading_zero,
            bad: true,
        }
    }
}

/// The scan state after all of `s`.
pub open spec fn scan(s: Seq<char>) -> AddressScan
    decreases s.len(),
{
    if s.len() == 0 {
        scan_init()
    } else {
        scan_step(scan(s.drop_last()), s.last())
    }
}

/// Whether `s` is a well-formed dotted-quad address.
pub open spec fn spec_valid_ipv4(s: Seq<char>) -> bool {
    let st = scan(s);
    &&& !st.bad
    &&& st.parts == 3
    &&& st.digits >= 1
}

/// A broken scan stays broken: if the scan of a prefix of `s` has
/// broken the grammar, so has the scan of all of `s`.
proof fn lemma_scan_bad_persists(s: Seq<char>, i: int)
    requires
        0 <= i <= s.len(),
        scan(s.take(i)).bad,
    ensures
        scan(s).bad,
    decreases s.len() - i,
{
    if i < s.len() {
        assert(s.take(i + 1).drop_last() =~= s.take(i));
        assert(s.take(i + 1).last() == s[i]);
        lemma_scan_bad_persists(s, i + 1);
    } else {
        assert(s.take(i) =~= s);
    }
}

/// Decides whether `host` is a well-formed dotted-quad address.
pub fn host_is_valid_ip(host: &str) -> (r: bool)
    ensures
        r == spec_valid_ipv4(host@),
{
    let n = host.unicode_len();
    let mut parts: u32 = 0;
    let mut digits: u32 = 0;
    let mut value: u32 = 0;
    let mut leading_zero: bool = false;
    let mut i: usize = 0;
    while i < n
        invariant
            n == host@.len(),
            i <= n,
            parts <= 3,
            digits <= 3,
            value <= 255,
            digits == 0 ==> value == 0,
            leading_zero ==> digits == 1,
            digits == 1 && !leading_zero ==> value >= 1,
            digits == 2 ==> value >= 10,
            digits == 3 ==> value >= 100,
            scan(host@.take(i as int)) == (AddressScan {
                parts: parts as int,
                digits: digits as int,
                value: value as int,
                leading_zero: leading_zero,
                bad: false,
            }),
        decreases n - i,
    {
        let c = host.get_char(i);
        proof {
            assert(host@.take(i + 1).drop_last() =~= host@.take(i as int));
            assert(host@.take(i + 1).last() == host@[i as int]);
        }
        let cu = c as u32;
        if 48 <= cu && cu <= 57 {
            let v = value * 10 + (cu - 48);
            if v > 255 || (digits >= 1 && leading_zero) {
                proof {
                    lemma_scan_bad_persists(host@, i + 1);
                }
                return false;
            }
            if digits == 0 {
                leading_zero = cu == 48;
            }
            digits = digits + 1;
            value = v;
        } else if c == '.' {
            if digits == 0 || parts >= 3 {
                proof {
                    lemma_scan_bad_persists(host@, i + 1);
                }
                return false;
            }
            parts = parts + 1;
            digits = 0;
            value = 0;
            leading_zero = false;
        } else {
            proof {
                lemma_scan_bad_persists(host@, i + 1);
            }
            return false;
        }
        i = i + 1;
    }
    proof {
        assert(host@.take(n as int) =~= host@);
    }
    parts == 3 && digits >= 1
}

} // verus!
