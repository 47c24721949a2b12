//! Recognition of the driver quirk under which an acquisition timeout is
//! spurious: on one operating-system family, a small allow-list of GPU
//! vendors is known to report timeouts that only mean a skipped frame.

use vstd::prelude::*;
use vstd::string::*;

verus! {

/// The operating-system family the renderer runs under.
#[derive(Clone, Copy, PartialEq, Eq, Structural, Debug)]
pub enum OsFamily {
    Linux,
    Windows,
    MacOs,
    OtherOs,
}

/// What the environment reports when a timeout must be judged: the
/// operating-system family, and the names of the adapters the accelerated
/// backend enumerates.
pub struct PresentEnvironment {
    pub os: OsFamily,
    pub adapter_names: Vec<String>,
}

/// The updatable allow-list of adapter-name prefixes under which a timeout
/// is taken for a driver quirk rather than a real failure.
pub struct TimeoutPolicy {
    pub vendor_prefixes: Vec<String>,
}

/// Whether `s` begins with `p`.
pub open spec fn seq_starts_with(s: Seq<char>, p: Seq<char>) -> bool {
    p.len() <= s.len() && forall|k: int| 0 <= k < p.len() ==> s[k] == p[k]
}

/// Whether a timeout is recognized as spurious: only on the Linux family,
/// and only when some enumerated adapter's name starts with an
/// allow-listed vendor prefix.
pub open spec fn spec_spurious_timeout(
    os: OsFamily,
    names: Seq<Seq<char>>,
    prefixes: Seq<Seq<char>>,
) -> bool {
    os == OsFamily::Linux && exists|i: int, j: int|
        0 <= i < names.len() && 0 <= j < prefixes.len() && #[trigger] seq_starts_with(
            names[i],
            prefixes[j],
        )
}

/// Whether the string `s` begins with the string `p`, character by
/// character.
pub fn str_starts_with(s: &str, p: &str) -> (r: bool)
    ensures
        r == seq_starts_with(s@, p@),
{
    let sn = s.unicode_len();
    let pn = p.unicode_len();
    if pn > sn {
        return false;
    }
    let mut k: usize = 0;
    while k < pn
        invariant
            sn == s@.len(),
            pn == p@.len(),
            pn <= sn,
            0 <= k <= pn,
            forall|t: int| 0 <= t < k ==> s@[t] == p@[t],
        decreases pn - k,
    {
        if s.get_char(k) != p.get_char(k) {
            return false;
        }
        k += 1;
    }
    true
}

/// Judge a reported timeout against the environment and the vendor
/// allow-list.
pub fn is_spurious_timeout(env: &PresentEnvironment, policy: &TimeoutPolicy) -> (r: bool)
    ensures
        r == spec_spurious_timeout(
            env.os,
            env.adapter_names.deep_view(),
            policy.vendor_prefixes.deep_view(),
        ),
{
    match env.os {
        OsFamily::Linux => {},
        _ => {
            return false;
        },
    }
    let n = env.adapter_names.len();
    let m = policy.vendor_prefixes.len();
    let mut i: usize = 0;
    while i < n
        invariant
            env.os == OsFamily::Linux,
            n == env.adapter_names@.len(),
            m == policy.vendor_prefixes@.len(),
            0 <= i <= n,
            forall|a: int, b: int|
                0 <= a < i && 0 <= b < m ==> !seq_starts_with(
                    env.adapter_names.deep_view()[a],
                    policy.vendor_prefixes.deep_view()[b],
                ),
        decreases n - i,
    {
        let mut j: usize = 0;
        while j < m
            invariant
                env.os == OsFamily::Linux,
                n == env.adapter_names@.len(),
                m == policy.vendor_prefixes@.len(),
                0 <= i < n,
                0 <= j <= m,
                forall|b: int|
                    0 <= b < j ==> !seq_starts_with(
                        env.adapter_names.deep_view()[i as int],
                        policy.vendor_prefixes.deep_view()[b],
                    ),
            decreases m - j,
        {
            if str_starts_with(env.adapter_names[i].as_str(), policy.vendor_prefixes[j].as_str()) {
                proof {
                    assert(env.adapter_names.deep_view()[i as int] == env.adapter_names@[
                        i as int
                    ]@);
                    assert(policy.vendor_prefixes.deep_view()[j as int] == policy.vendor_prefixes@[
                        j as int
                    ]@);
                    assert(seq_starts_with(
                        env.adapter_names.deep_view()[i as int],
                        policy.vendor_prefixes.deep_view()[j as int],
                    ));
                }
                return true;
            }
            j += 1;
        }
        i += 1;
    }
    false
}

/// The vendor allow-list observed to exhibit the spurious-timeout quirk.
pub fn recognized_vendor_policy() -> (p: TimeoutPolicy)
    ensures
        p.vendor_prefixes.deep_view().len() == 2,
        p.vendor_prefixes.deep_view()[0] == "AMD"@,
        p.vendor_prefixes.deep_view()[1] == "Intel"@,
{
    let mut vendor_prefixes: Vec<String> = Vec::new();
    vendor_prefixes.push(String::from_str("AMD"));
    vendor_prefixes.push(String::from_str("Intel"));
    TimeoutPolicy { vendor_prefixes }
}

} // verus!
