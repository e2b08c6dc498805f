//! Releases, their assets, the platform they are chosen for, and the path of
//! the binary inside a release archive.

use vstd::prelude::*;
use crate::error::UpdateError;
use crate::text::{contains_spec, contains_str, ends_with_spec, ends_with_str, occurs_at, occurs_at_exec};

verus! {

/// A downloadable file attached to a release.
#[derive(Debug)]
pub struct ReleaseAsset {
    pub name: String,
    pub download_url: String,
}

impl ReleaseAsset {
    /// A copy of this asset.
    pub fn duplicate(&self) -> (r: ReleaseAsset)
        ensures
            r == *self,
    {
        ReleaseAsset { name: self.name.clone(), download_url: self.download_url.clone() }
    }
}

/// A published release: its version and its assets in published order.
#[derive(Debug)]
pub struct Release {
    pub version: String,
    pub assets: Vec<ReleaseAsset>,
}

/// The fixed identity of the running binary and the platform it runs on.
#[derive(Debug)]
pub struct Platform {
    /// Target triple that asset names carry, such as `x86_64-unknown-linux-gnu`.
    pub target: String,
    /// Name of the executable.
    pub bin_name: String,
    /// Extension of the release archives for this platform, such as `.tar.gz`.
    pub archive_extension: String,
    /// Version of the running executable.
    pub current_version: String,
    /// Path of the binary inside an archive, with the placeholders
    /// `{{ bin }}`, `{{ version }}` and `{{ target }}`.
    pub bin_path_template: String,
}

/// The asset is an archive for this platform: its name holds the target
/// triple and ends with the archive extension.
pub open spec fn asset_fits(a: ReleaseAsset, target: Seq<char>, ext: Seq<char>) -> bool {
    contains_spec(a.name@, target) && ends_with_spec(a.name@, ext)
}

/// Position `i` holds the first asset that fits.
pub open spec fn is_first_fit(assets: Seq<ReleaseAsset>, i: int, target: Seq<char>, ext: Seq<char>) -> bool {
    0 <= i < assets.len() && asset_fits(assets[i], target, ext)
        && forall|j: int| 0 <= j < i ==> !asset_fits(#[trigger] assets[j], target, ext)
}

/// Some asset fits.
pub open spec fn has_fit(assets: Seq<ReleaseAsset>, target: Seq<char>, ext: Seq<char>) -> bool {
    exists|i: int| 0 <= i < assets.len() && asset_fits(#[trigger] assets[i], target, ext)
}

/// Picks the first asset of `release` that is an archive for `platform`;
/// fails with `NoAsset` exactly when none is.
pub fn get_target_asset_from_release<'a>(release: &'a Release, platform: &Platform) -> (r: Result<&'a ReleaseAsset, UpdateError>)
    ensures
        r is Ok <==> has_fit(release.assets@, platform.target@, platform.archive_extension@),
        r matches Ok(a) ==> exists|i: int|
            is_first_fit(release.assets@, i, platform.target@, platform.archive_extension@) && *a == release.assets@[i],
        r matches Err(e) ==> e == UpdateError::NoAsset,
{
    let ghost target = platform.target@;
    let ghost ext = platform.archive_extension@;
    let mut i: usize = 0;
    while i < release.assets.len()
        invariant
            i <= release.assets@.len(),
            target == platform.target@,
            ext == platform.archive_extension@,
            forall|j: int| 0 <= j < i ==> !asset_fits(#[trigger] release.assets@[j], target, ext),
        decreases release.assets@.len() - i,
    {
        let asset = &release.assets[i];
        if contains_str(asset.name.as_str(), platform.target.as_str())
            && ends_with_str(asset.name.as_str(), platform.archive_extension.as_str())
        {
            assert(is_first_fit(release.assets@, i as int, target, ext));
            return Ok(asset);
        }
        i = i + 1;
    }
    Err(UpdateError::NoAsset)
}

/// The placeholder for the binary name.
pub open spec fn bin_token() -> Seq<char> {
    seq!['{', '{', ' ', 'b', 'i', 'n', ' ', '}', '}']
}

/// The placeholder for the release version.
pub open spec fn version_token() -> Seq<char> {
    seq!['{', '{', ' ', 'v', 'e', 'r', 's', 'i', 'o', 'n', ' ', '}', '}']
}

/// The placeholder for the target triple.
pub open spec fn target_token() -> Seq<char> {
    seq!['{', '{', ' ', 't', 'a', 'r', 'g', 'e', 't', ' ', '}', '}']
}

/// The template read once from left to right, each placeholder replaced by
/// its value where it starts; substituted text is never read again.
pub open spec fn render(t: Seq<char>, bin: Seq<char>, version: Seq<char>, target: Seq<char>) -> Seq<char>
    decreases t.len(),
{
    if t.len() == 0 {
        Seq::empty()
    } else if occurs_at(t, bin_token(), 0) {
        bin + render(t.subrange(bin_token().len() as int, t.len() as int), bin, version, target)
    } else if occurs_at(t, version_token(), 0) {
        version + render(t.subrange(version_token().len() as int, t.len() as int), bin, version, target)
    } else if occurs_at(t, target_token(), 0) {
        target + render(t.subrange(target_token().len() as int, t.len() as int), bin, version, target)
    } else {
        seq![t[0]] + render(t.subrange(1, t.len() as int), bin, version, target)
    }
}

/// Substitutes the binary name, the release version and the target triple
/// into the placeholders of `template`, all in one pass.
pub fn render_bin_path(template: &str, bin: &str, version: &str, target: &str) -> (r: String)
    ensures
        r@ == render(template@, bin@, version@, target@),
{
    proof {
        reveal_strlit("{{ bin }}");
        reveal_strlit("{{ version }}");
        reveal_strlit("{{ target }}");
        assert("{{ bin }}"@ =~= bin_token());
        assert("{{ version }}"@ =~= version_token());
        assert("{{ target }}"@ =~= target_token());
    }
    let ghost t = template@;
    let n = template.unicode_len();
    let mut out = String::new();
    let mut i: usize = 0;
    assert(t.subrange(0, n as int) =~= t);
    while i < n
        invariant
            n == t.len(),
            t == template@,
            i <= n,
            "{{ bin }}"@ == bin_token(),
            "{{ version }}"@ == version_token(),
            "{{ target }}"@ == target_token(),
            out@ + render(t.subrange(i as int, n as int), bin@, version@, target@) == render(t, bin@, version@, target@),
        decreases n - i,
    {
        let ghost rest = t.subrange(i as int, n as int);
        if occurs_at_exec(template, "{{ bin }}", i) {
            assert(rest.subrange(0, 9) =~= t.subrange(i as int, i + 9));
            assert(rest.subrange(9, rest.len() as int) =~= t.subrange(i + 9, n as int));
            out.append(bin);
            i = i + 9;
        } else if occurs_at_exec(template, "{{ version }}", i) {
            assert(rest.subrange(0, 9) =~= t.subrange(i as int, i + 9));
            assert(rest.subrange(0, 13) =~= t.subrange(i as int, i + 13));
            assert(rest.subrange(13, rest.len() as int) =~= t.subrange(i + 13, n as int));
            out.append(version);
            i = i + 13;
        } else if occurs_at_exec(template, "{{ target }}", i) {
            assert(rest.subrange(0, 9) =~= t.subrange(i as int, i + 9));
            proof {
                if i + 13 <= n {
                    assert(rest.subrange(0, 13) =~= t.subrange(i as int, i + 13));
                }
            }
            assert(rest.subrange(0, 12) =~= t.subrange(i as int, i + 12));
            assert(rest.subrange(12, rest.len() as int) =~= t.subrange(i + 12, n as int));
            out.append(target);
            i = i + 12;
        } else {
            proof {
                if i + 9 <= n {
                    assert(rest.subrange(0, 9) =~= t.subrange(i as int, i + 9));
                }
                if i + 13 <= n {
                    assert(rest.subrange(0, 13) =~= t.subrange(i as int, i + 13));
                }
                if i + 12 <= n {
                    assert(rest.subrange(0, 12) =~= t.subrange(i as int, i + 12));
                }
                assert(rest.subrange(1, rest.len() as int) =~= t.subrange(i + 1, n as int));
            }
            let c = template.substring_char(i, i + 1);
            assert(c@ =~= seq![rest[0]]);
            out.append(c);
            i = i + 1;
        }
        assert(out@ + render(t.subrange(i as int, n as int), bin@, version@, target@) =~= render(t, bin@, version@, target@));
    }
    assert(t.subrange(n as int, n as int) =~= Seq::<char>::empty());
    assert(out@ =~= out@ + Seq::<char>::empty());
    out
}

} // verus!
