//! Detection of installs managed by a package manager (Homebrew), for which
//! self-replacement is refused.

use vstd::prelude::*;
use crate::text::{occurs_at_exec, starts_with_spec, starts_with_str};

verus! {

/// One component of a filesystem path, as a path parser splits it.
#[derive(Debug)]
pub enum PathComponent {
    /// A platform prefix such as a drive letter.
    Prefix(String),
    /// The root directory.
    RootDir,
    /// A `.` component.
    CurDir,
    /// A `..` component.
    ParentDir,
    /// An ordinary named component.
    Normal(String),
}

/// Two components are the same component.
pub open spec fn same_component(a: PathComponent, b: PathComponent) -> bool {
    match (a, b) {
        (PathComponent::Prefix(x), PathComponent::Prefix(y)) => x@ == y@,
        (PathComponent::RootDir, PathComponent::RootDir) => true,
        (PathComponent::CurDir, PathComponent::CurDir) => true,
        (PathComponent::ParentDir, PathComponent::ParentDir) => true,
        (PathComponent::Normal(x), PathComponent::Normal(y)) => x@ == y@,
        _ => false,
    }
}

/// The named components of a path, in order, other kinds left out.
pub open spec fn normal_parts(p: Seq<PathComponent>) -> Seq<Seq<char>>
    decreases p.len(),
{
    if p.len() == 0 {
        Seq::empty()
    } else {
        let rest = normal_parts(p.drop_last());
        match p.last() {
            PathComponent::Normal(s) => rest.push(s@),
            _ => rest,
        }
    }
}

/// A component name that is the formula's directory: `mago`, or `mago@` with
/// a version suffix.
pub open spec fn is_formula_name(s: Seq<char>) -> bool {
    s == "mago"@ || starts_with_spec(s, "mago@"@)
}

/// Some named component `Cellar` is directly followed, among the named
/// components, by the formula's directory.
pub open spec fn cellar_marked(parts: Seq<Seq<char>>) -> bool {
    exists|j: int| 0 < j < parts.len() && parts[j - 1] == "Cellar"@ && is_formula_name(#[trigger] parts[j])
}

/// `root` is non-empty and its components begin `path`'s.
pub open spec fn nested_under(path: Seq<PathComponent>, root: Seq<PathComponent>) -> bool {
    0 < root.len() <= path.len() && forall|k: int| 0 <= k < root.len() ==> same_component(#[trigger] path[k], root[k])
}

/// One candidate path is managed: it carries the Cellar marker, or lies under
/// one of the roots.
pub open spec fn path_is_managed(path: Seq<PathComponent>, roots: Seq<Vec<PathComponent>>) -> bool {
    cellar_marked(normal_parts(path)) || exists|r: int| 0 <= r < roots.len() && nested_under(path, #[trigger] roots[r]@)
}

/// Some candidate path is managed.
pub open spec fn install_is_managed(paths: Seq<Vec<PathComponent>>, roots: Seq<Vec<PathComponent>>) -> bool {
    exists|i: int| 0 <= i < paths.len() && path_is_managed(#[trigger] paths[i]@, roots)
}

fn is_formula_component(s: &String) -> (r: bool)
    ensures
        r == is_formula_name(s@),
{
    let exact = occurs_at_exec(s.as_str(), "mago", 0) && s.as_str().unicode_len() == 4;
    proof {
        reveal_strlit("mago");
        if s@ == "mago"@ {
            assert(s@.subrange(0, 4) =~= s@);
        }
        if s@.len() == 4 && s@.subrange(0, 4) == "mago"@ {
            assert(s@ =~= s@.subrange(0, 4));
        }
    }
    exact || starts_with_str(s.as_str(), "mago@")
}

fn is_cellar_component(s: &String) -> (r: bool)
    ensures
        r == (s@ == "Cellar"@),
{
    let r = occurs_at_exec(s.as_str(), "Cellar", 0) && s.as_str().unicode_len() == 6;
    proof {
        reveal_strlit("Cellar");
        if s@ == "Cellar"@ {
            assert(s@.subrange(0, 6) =~= s@);
        }
        if s@.len() == 6 && s@.subrange(0, 6) == "Cellar"@ {
            assert(s@ =~= s@.subrange(0, 6));
        }
    }
    r
}

/// Whether the named components of `path` hold `Cellar` directly followed by
/// the formula's directory (`mago` or `mago@<version>`).
pub fn is_homebrew_cellar_path(path: &[PathComponent]) -> (r: bool)
    ensures
        r == cellar_marked(normal_parts(path@)),
{
    let mut previous_is_cellar = false;
    let mut i: usize = 0;
    while i < path.len()
        invariant
            i <= path@.len(),
            !cellar_marked(normal_parts(path@.subrange(0, i as int))),
            previous_is_cellar == (normal_parts(path@.subrange(0, i as int)).len() > 0
                && normal_parts(path@.subrange(0, i as int)).last() == "Cellar"@),
        decreases path@.len() - i,
    {
        let ghost before = normal_parts(path@.subrange(0, i as int));
        assert(path@.subrange(0, i + 1).drop_last() =~= path@.subrange(0, i as int));
        match &path[i] {
            PathComponent::Normal(name) => {
                let ghost after = normal_parts(path@.subrange(0, i + 1));
                assert(after == before.push(name@));
                if previous_is_cellar && is_formula_component(name) {
                    assert(after[before.len() as int] == name@);
                    assert(cellar_marked(normal_parts(path@)) == cellar_marked(after)) by {
                        assert(path@ =~= path@.subrange(0, path@.len() as int));
                        lemma_marked_prefix(path@, i as int + 1);
                    }
                    return true;
                }
                assert(!cellar_marked(after)) by {
                    if cellar_marked(after) {
                        let j = choose|j: int| 0 < j < after.len() && after[j - 1] == "Cellar"@ && is_formula_name(#[trigger] after[j]);
                        if j < before.len() {
                            assert(before[j - 1] == after[j - 1] && before[j] == after[j]);
                        }
                    }
                }
                previous_is_cellar = is_cellar_component(name);
            }
            _ => {
                assert(normal_parts(path@.subrange(0, i + 1)) == before);
            }
        }
        i = i + 1;
    }
    assert(path@.subrange(0, i as int) =~= path@);
    false
}

/// Markers found in a prefix of a path are found in the whole path.
proof fn lemma_marked_prefix(p: Seq<PathComponent>, n: int)
    requires
        0 <= n <= p.len(),
        cellar_marked(normal_parts(p.subrange(0, n))),
    ensures
        cellar_marked(normal_parts(p)),
    decreases p.len() - n,
{
    if n < p.len() {
        let a = normal_parts(p.subrange(0, n));
        let b = normal_parts(p.subrange(0, n + 1));
        assert(p.subrange(0, n + 1).drop_last() =~= p.subrange(0, n));
        let j = choose|j: int| 0 < j < a.len() && a[j - 1] == "Cellar"@ && is_formula_name(#[trigger] a[j]);
        assert(b[j - 1] == a[j - 1] && b[j] == a[j]);
        lemma_marked_prefix(p, n + 1);
    } else {
        assert(p.subrange(0, n) =~= p);
    }
}

fn same_component_exec(a: &PathComponent, b: &PathComponent) -> (r: bool)
    ensures
        r == same_component(*a, *b),
{
    match (a, b) {
        (PathComponent::Prefix(x), PathComponent::Prefix(y)) => x.eq(y),
        (PathComponent::RootDir, PathComponent::RootDir) => true,
        (PathComponent::CurDir, PathComponent::CurDir) => true,
        (PathComponent::ParentDir, PathComponent::ParentDir) => true,
        (PathComponent::Normal(x), PathComponent::Normal(y)) => x.eq(y),
        _ => false,
    }
}

fn is_nested_under(path: &Vec<PathComponent>, root: &Vec<PathComponent>) -> (r: bool)
    ensures
        r == nested_under(path@, root@),
{
    if root.len() == 0 || root.len() > path.len() {
        return false;
    }
    let mut k: usize = 0;
    while k < root.len()
        invariant
            0 < root@.len() <= path@.len(),
            k <= root@.len(),
            forall|m: int| 0 <= m < k ==> same_component(#[trigger] path@[m], root@[m]),
        decreases root@.len() - k,
    {
        if !same_component_exec(&path[k], &root[k]) {
            return false;
        }
        k = k + 1;
    }
    true
}

/// Whether any of `paths` (the executable path and, where it resolves, its
/// canonical form) carries the Cellar marker or lies under one of
/// `brew_roots`; an empty root matches nothing.
pub fn detect_homebrew_install(paths: &[Vec<PathComponent>], brew_roots: &[Vec<PathComponent>]) -> (r: bool)
    ensures
        r == install_is_managed(paths@, brew_roots@),
{
    let mut i: usize = 0;
    while i < paths.len()
        invariant
            i <= paths@.len(),
            forall|m: int| 0 <= m < i ==> !path_is_managed(#[trigger] paths@[m]@, brew_roots@),
        decreases paths@.len() - i,
    {
        let path = &paths[i];
        if is_homebrew_cellar_path(path.as_slice()) {
            assert(path_is_managed(paths@[i as int]@, brew_roots@));
            return true;
        }
        let mut k: usize = 0;
        while k < brew_roots.len()
            invariant
                i < paths@.len(),
                *path == paths@[i as int],
                k <= brew_roots@.len(),
                forall|m: int| 0 <= m < k ==> !nested_under(path@, #[trigger] brew_roots@[m]@),
            decreases brew_roots@.len() - k,
        {
            if is_nested_under(path, &brew_roots[k]) {
                assert(path_is_managed(paths@[i as int]@, brew_roots@));
                return true;
            }
            k = k + 1;
        }
        i = i + 1;
    }
    false
}

} // verus!
