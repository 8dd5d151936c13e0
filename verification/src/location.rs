//! Artifact naming and platform policy.
//!
//! The on-disk location of a module's built artifact is a pure function of
//! a project-root anchor, the module name, the build profile and the
//! platform's file-name convention. Where the operating loader caches a
//! shared object by path, successive loads go through generation-suffixed
//! copies of the artifact; the suffixed paths are computed here too.

use vstd::prelude::*;
use vstd::string::StringExecFns;

verus! {

/// The operating systems whose naming and loader-caching conventions the
/// mechanism distinguishes.
#[derive(Clone, Copy, PartialEq, Eq, Structural, Debug)]
pub enum Platform {
    Linux,
    MacOs,
    Windows,
}

/// The build profile whose output directory holds the artifact.
#[derive(Clone, Copy, PartialEq, Eq, Structural, Debug)]
pub enum BuildProfile {
    Debug,
    Release,
}

/// How a fresh image is brought in at reload time.
///
/// `InPlace` loads the canonical artifact path again; it suffices on
/// platforms whose loader genuinely re-reads the file once the previous
/// image is unloaded. `CopyVersioned` first copies the artifact to a path
/// suffixed with the new generation number and loads that copy; it is
/// required on platforms whose loader caches an image by path for the
/// process lifetime and would otherwise serve the stale mapping.
#[derive(Clone, Copy, PartialEq, Eq, Structural, Debug)]
pub enum LoadStrategy {
    InPlace,
    CopyVersioned,
}

/// The platform-convention prefix of a dynamic library file name.
pub open spec fn dylib_prefix(platform: Platform) -> Seq<char> {
    match platform {
        Platform::Windows => ""@,
        _ => "lib"@,
    }
}

/// The platform-convention suffix of a dynamic library file name.
pub open spec fn dylib_suffix(platform: Platform) -> Seq<char> {
    match platform {
        Platform::Linux => ".so"@,
        Platform::MacOs => ".dylib"@,
        Platform::Windows => ".dll"@,
    }
}

/// The output directory name of a build profile.
pub open spec fn profile_dir(profile: BuildProfile) -> Seq<char> {
    match profile {
        BuildProfile::Debug => "debug"@,
        BuildProfile::Release => "release"@,
    }
}

/// Whether this platform's loader caches a shared object by path across
/// the process lifetime, so that reloading must go through a fresh
/// generation-suffixed copy rather than the canonical path.
pub open spec fn requires_copy_strategy(platform: Platform) -> bool {
    match platform {
        Platform::Linux => false,
        Platform::MacOs => true,
        Platform::Windows => true,
    }
}

/// Whether a generation-suffixed copy must have its embedded
/// install-name identity stripped before loading, so the dynamic-link
/// editor cannot conflate it with an earlier copy sharing that metadata.
pub open spec fn requires_identity_strip(platform: Platform) -> bool {
    platform is MacOs
}

/// The load strategy that is sufficient and safe on this platform.
pub open spec fn recommended_strategy(platform: Platform) -> LoadStrategy {
    if requires_copy_strategy(platform) {
        LoadStrategy::CopyVersioned
    } else {
        LoadStrategy::InPlace
    }
}

pub fn dylib_prefix_str(platform: &Platform) -> (r: &'static str)
    ensures
        r@ == dylib_prefix(*platform),
{
    match platform {
        Platform::Windows => "",
        _ => "lib",
    }
}

pub fn dylib_suffix_str(platform: &Platform) -> (r: &'static str)
    ensures
        r@ == dylib_suffix(*platform),
{
    match platform {
        Platform::Linux => ".so",
        Platform::MacOs => ".dylib",
        Platform::Windows => ".dll",
    }
}

pub fn profile_dir_str(profile: &BuildProfile) -> (r: &'static str)
    ensures
        r@ == profile_dir(*profile),
{
    match profile {
        BuildProfile::Debug => "debug",
        BuildProfile::Release => "release",
    }
}

pub fn platform_requires_copy_strategy(platform: &Platform) -> (r: bool)
    ensures
        r == requires_copy_strategy(*platform),
{
    match platform {
        Platform::Linux => false,
        Platform::MacOs => true,
        Platform::Windows => true,
    }
}

pub fn platform_requires_identity_strip(platform: &Platform) -> (r: bool)
    ensures
        r == requires_identity_strip(*platform),
{
    match platform {
        Platform::MacOs => true,
        _ => false,
    }
}

pub fn platform_recommended_strategy(platform: &Platform) -> (r: LoadStrategy)
    ensures
        r == recommended_strategy(*platform),
{
    if platform_requires_copy_strategy(platform) {
        LoadStrategy::CopyVersioned
    } else {
        LoadStrategy::InPlace
    }
}

/// The file name of the module's artifact under the platform convention:
/// prefix, module name, suffix.
pub fn dylib_filename(platform: &Platform, module: &str) -> (r: String)
    ensures
        r@ == dylib_prefix(*platform) + module@ + dylib_suffix(*platform),
{
    let mut s = String::from_str(dylib_prefix_str(platform));
    s.append(module);
    s.append(dylib_suffix_str(platform));
    s
}

/// The canonical artifact path: the module's own target directory under
/// the project root, the profile's output directory, then the
/// platform-convention file name.
pub open spec fn artifact_path_spec(
    root: Seq<char>,
    module: Seq<char>,
    platform: Platform,
    profile: BuildProfile,
) -> Seq<char> {
    root + "/"@ + module + "/target/"@ + profile_dir(profile) + "/"@ + dylib_prefix(platform)
        + module + dylib_suffix(platform)
}

pub fn artifact_path(root: &str, module: &str, platform: &Platform, profile: &BuildProfile) -> (r:
    String)
    ensures
        r@ == artifact_path_spec(root@, module@, *platform, *profile),
{
    let mut s = String::from_str(root);
    s.append("/");
    s.append(module);
    s.append("/target/");
    s.append(profile_dir_str(profile));
    s.append("/");
    s.append(dylib_prefix_str(platform));
    s.append(module);
    s.append(dylib_suffix_str(platform));
    s
}

/// The character for one decimal digit.
pub open spec fn digit_char(d: nat) -> char
    recommends
        d < 10,
{
    if d == 0 {
        '0'
    } else if d == 1 {
        '1'
    } else if d == 2 {
        '2'
    } else if d == 3 {
        '3'
    } else if d == 4 {
        '4'
    } else if d == 5 {
        '5'
    } else if d == 6 {
        '6'
    } else if d == 7 {
        '7'
    } else if d == 8 {
        '8'
    } else {
        '9'
    }
}

/// The usual decimal rendering of a number: no sign, no leading zeros,
/// and the single digit `0` for zero.
pub open spec fn decimal(n: nat) -> Seq<char>
    decreases n,
{
    if n < 10 {
        seq![digit_char(n)]
    } else {
        decimal(n / 10) + seq![digit_char(n % 10)]
    }
}

fn digit_str(d: u64) -> (r: &'static str)
    requires
        d < 10,
    ensures
        r@ == seq![digit_char(d as nat)],
{
    let r: &'static str = if d == 0 {
        "0"
    } else if d == 1 {
        "1"
    } else if d == 2 {
        "2"
    } else if d == 3 {
        "3"
    } else if d == 4 {
        "4"
    } else if d == 5 {
        "5"
    } else if d == 6 {
        "6"
    } else if d == 7 {
        "7"
    } else if d == 8 {
        "8"
    } else {
        "9"
    };
    proof {
        reveal_strlit("0");
        reveal_strlit("1");
        reveal_strlit("2");
        reveal_strlit("3");
        reveal_strlit("4");
        reveal_strlit("5");
        reveal_strlit("6");
        reveal_strlit("7");
        reveal_strlit("8");
        reveal_strlit("9");
        assert(r@ =~= seq![digit_char(d as nat)]);
    }
    r
}

fn push_decimal(s: &mut String, n: u64)
    ensures
        final(s)@ == old(s)@ + decimal(n as nat),
    decreases n,
{
    if n >= 10 {
        push_decimal(s, n / 10);
        s.append(digit_str(n % 10));
        proof {
            assert((n / 10) as nat == n as nat / 10);
            assert((n % 10) as nat == n as nat % 10);
            assert(old(s)@ + decimal(n as nat) =~= (old(s)@ + decimal(n as nat / 10)) + seq![
                digit_char(n as nat % 10),
            ]);
        }
    } else {
        s.append(digit_str(n));
        proof {
            assert(old(s)@ + decimal(n as nat) =~= old(s)@ + seq![digit_char(n as nat)]);
        }
    }
}

/// A decimal rendering is never empty, and has at least two digits from
/// ten upward.
pub proof fn lemma_decimal_len(n: nat)
    ensures
        decimal(n).len() >= 1,
        n >= 10 ==> decimal(n).len() >= 2,
    decreases n,
{
    if n >= 10 {
        lemma_decimal_len(n / 10);
    }
}

/// Distinct numbers have distinct decimal renderings: the rendering has
/// no sign and no leading zeros, so it is a one-to-one code.
pub proof fn lemma_decimal_injective(a: nat, b: nat)
    requires
        decimal(a) == decimal(b),
    ensures
        a == b,
    decreases a,
{
    lemma_decimal_len(a);
    lemma_decimal_len(b);
    assert(decimal(a).len() == decimal(b).len());
    if a < 10 && b < 10 {
        assert(seq![digit_char(a)][0] == digit_char(a));
        assert(seq![digit_char(b)][0] == digit_char(b));
        assert(digit_char(a) == digit_char(b));
    } else if a >= 10 && b >= 10 {
        let pa = decimal(a / 10);
        let pb = decimal(b / 10);
        let da = digit_char(a % 10);
        let db = digit_char(b % 10);
        assert(decimal(a) == pa + seq![da]);
        assert(decimal(b) == pb + seq![db]);
        assert((pa + seq![da]).len() == pa.len() + 1);
        assert((pb + seq![db]).len() == pb.len() + 1);
        assert(pa.len() == pb.len());
        assert(da == (pa + seq![da])[pa.len() as int]);
        assert(db == (pb + seq![db])[pb.len() as int]);
        assert(a % 10 == b % 10);
        assert forall|i: int| 0 <= i < pa.len() implies pa[i] == pb[i] by {
            assert(pa[i] == (pa + seq![da])[i]);
            assert(pb[i] == (pb + seq![db])[i]);
        }
        assert(pa =~= pb);
        lemma_decimal_injective(a / 10, b / 10);
        vstd::arithmetic::div_mod::lemma_fundamental_div_mod(a as int, 10);
        vstd::arithmetic::div_mod::lemma_fundamental_div_mod(b as int, 10);
    } else {
        // one rendering has a single digit, the other at least two, so
        // their lengths cannot match
        assert(false);
    }
}

/// Appending distinct generation numbers to one base path yields
/// distinct paths: every reload loads through a path the operating
/// loader has never seen before.
pub proof fn lemma_versioned_paths_distinct(base: Seq<char>, g1: nat, g2: nat)
    requires
        g1 != g2,
    ensures
        base + decimal(g1) != base + decimal(g2),
{
    if base + decimal(g1) == base + decimal(g2) {
        assert((base + decimal(g1)).len() == base.len() + decimal(g1).len());
        assert((base + decimal(g2)).len() == base.len() + decimal(g2).len());
        assert(decimal(g1).len() == decimal(g2).len());
        assert forall|i: int| 0 <= i < decimal(g1).len() implies decimal(g1)[i] == decimal(g2)[i] by {
            assert(decimal(g1)[i] == (base + decimal(g1))[base.len() + i]);
            assert(decimal(g2)[i] == (base + decimal(g2))[base.len() + i]);
        }
        assert(decimal(g1) =~= decimal(g2));
        lemma_decimal_injective(g1, g2);
    }
}

/// The path of the generation-suffixed copy of an artifact: the canonical
/// path with the generation's decimal rendering appended.
pub fn versioned_path(base: &str, generation: u64) -> (r: String)
    ensures
        r@ == base@ + decimal(generation as nat),
{
    let mut s = String::from_str(base);
    push_decimal(&mut s, generation);
    s
}

} // verus!
