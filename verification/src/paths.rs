use vstd::prelude::*;

verus! {

/// Whether `s` ends with `suffix`.
pub open spec fn ends_with(s: Seq<char>, suffix: Seq<char>) -> bool {
    suffix.len() <= s.len() && s.subrange(s.len() - suffix.len(), s.len() as int) == suffix
}

/// A character that is neither a separator nor a drive-prefix mark on any
/// platform.
pub open spec fn plain_char(c: char) -> bool {
    c != '/' && c != '\\' && c != ':'
}

/// Whether the `.` at `i` is a whole `.` or `..` component of a `/`-separated
/// path.
pub open spec fn dot_component_at(p: Seq<char>, i: int) -> bool {
    &&& p[i] == '.'
    &&& i == 0 || p[i - 1] == '/'
    &&& i + 1 == p.len() || p[i + 1] == '/' || (p[i + 1] == '.' && (i + 2 == p.len() || p[i + 2] == '/'))
}

/// A `/`-separated path that reads the same on every platform: non-empty,
/// components of plain characters joined by single `/`, optionally after one
/// leading `/`, no trailing `/`, and no `.` or `..` component.
pub open spec fn plain_path(p: Seq<char>) -> bool {
    &&& p.len() > 0
    &&& p.last() != '/'
    &&& forall|i: int| 0 <= i < p.len() ==> p[i] != '\\' && p[i] != ':'
    &&& forall|i: int| 0 <= i < p.len() - 1 ==> !(p[i] == '/' && #[trigger] p[i + 1] == '/')
    &&& forall|i: int| 0 <= i < p.len() ==> !#[trigger] dot_component_at(p, i)
}

/// Index of the last `/` among the first `n` characters, or -1.
pub open spec fn last_slash(p: Seq<char>, n: int) -> int
    decreases n,
{
    if n <= 0 {
        -1
    } else if p[n - 1] == '/' {
        n - 1
    } else {
        last_slash(p, n - 1)
    }
}

/// The parent of a plain path: the text before its last `/`; `/` when that is
/// the leading one; empty for a single relative component.
pub open spec fn plain_parent(p: Seq<char>) -> Seq<char> {
    let k = last_slash(p, p.len() as int);
    if k < 0 {
        Seq::empty()
    } else if k == 0 {
        seq!['/']
    } else {
        p.subrange(0, k)
    }
}

/// The root directory, `/`.
pub open spec fn root_text() -> Seq<char> {
    seq!['/']
}

/// A single path component that reads the same on every platform.
pub open spec fn simple_component(part: Seq<char>) -> bool {
    &&& part.len() > 0
    &&& forall|i: int| 0 <= i < part.len() ==> plain_char(#[trigger] part[i])
    &&& part != seq!['.']
    &&& part != seq!['.', '.']
}

/// A base path without drive prefix on any platform: no `:`, and no leading
/// `\` or pair of leading separators.
pub open spec fn joinable_base(b: Seq<char>) -> bool {
    &&& forall|i: int| 0 <= i < b.len() ==> b[i] != ':'
    &&& !(b.len() > 0 && b[0] == '\\')
    &&& !(b.len() >= 2 && b[0] == '/' && (b[1] == '/' || b[1] == '\\'))
}

/// The separator that joining puts after `base`: none after an empty base or
/// a trailing `/`; after a trailing `\`, none or `/` (the platform decides);
/// otherwise `/` or `\` (the platform's separator).
pub open spec fn join_separator_ok(base: Seq<char>, sep: Seq<char>) -> bool {
    if base.len() == 0 || base.last() == '/' {
        sep.len() == 0
    } else if base.last() == '\\' {
        sep.len() == 0 || sep == seq!['/']
    } else {
        sep == seq!['/'] || sep == seq!['\\']
    }
}

/// `r` is `part` joined to `base`.
pub open spec fn is_join(base: Seq<char>, part: Seq<char>, r: Seq<char>) -> bool {
    exists|sep: Seq<char>| join_separator_ok(base, sep) && r == base + sep + part
}

/// `std::path::Path::parent`: the path without its final component.
///
/// Claimed, as the documentation gives it: an empty path and the root `/` have
/// no parent; a parent is shorter than the path; the parent of a plain
/// `/`-separated path (see [`plain_path`]) is the text before its last
/// separator (the root for `/name`, empty for `name`). Paths with
/// platform-specific syntax are left unsaid.
#[verifier::external_body]
fn path_parent(path: &str) -> (r: Option<String>)
    ensures
        path@.len() == 0 ==> r is None,
        path@ == root_text() ==> r is None,
        r matches Some(p) ==> p@.len() < path@.len(),
        plain_path(path@) ==> r is Some && r.unwrap()@ == plain_parent(path@),
{
    match std::path::Path::new(path).parent() {
        Some(parent) => Some(parent.to_string_lossy().into_owned()),
        None => None,
    }
}

/// `std::path::Path::join`: `part` adjoined to `base`.
///
/// Claimed, for a base without drive or verbatim prefix (see
/// [`joinable_base`]; a verbatim base has the joined part normalised): the
/// result ends with `part`; a single plain relative component follows the
/// base after the platform's separator, or directly where the base already
/// ends in one (see [`is_join`]). Prefixed bases are left unsaid.
#[verifier::external_body]
fn path_join(base: &str, part: &str) -> (r: String)
    ensures
        joinable_base(base@) ==> ends_with(r@, part@),
        joinable_base(base@) && simple_component(part@) ==> is_join(base@, part@, r@),
{
    std::path::Path::new(base).join(part).to_string_lossy().into_owned()
}

/// `last_slash` finds a `/` below `n`, and none after it.
proof fn lemma_last_slash(p: Seq<char>, n: int)
    requires
        0 <= n <= p.len(),
    ensures
        -1 <= last_slash(p, n) < n,
        last_slash(p, n) >= 0 ==> p[last_slash(p, n)] == '/',
        forall|i: int| last_slash(p, n) < i < n ==> p[i] != '/',
    decreases n,
{
    if n > 0 && p[n - 1] != '/' {
        lemma_last_slash(p, n - 1);
    }
}

/// The parent of a plain path, unless it is empty or the root, is plain.
pub proof fn lemma_plain_parent_is_plain(p: Seq<char>)
    requires
        plain_path(p),
        plain_parent(p).len() > 0,
        plain_parent(p) != seq!['/'],
    ensures
        plain_path(plain_parent(p)),
{
    lemma_last_slash(p, p.len() as int);
    let k = last_slash(p, p.len() as int);
    let q = plain_parent(p);
    assert(k > 0);
    assert(q == p.subrange(0, k));
    assert(p[k] == '/');
    assert(p[k - 1] != '/') by {
        if p[k - 1] == '/' {
            assert(!(p[k - 1] == '/' && p[(k - 1) + 1] == '/'));
        }
    }
    assert forall|i: int| 0 <= i < q.len() - 1 implies !(q[i] == '/' && #[trigger] q[i + 1] == '/') by {
        assert(!(p[i] == '/' && p[i + 1] == '/'));
    }
    assert forall|i: int| 0 <= i < q.len() implies !#[trigger] dot_component_at(q, i) by {
        assert(!dot_component_at(p, i));
    }
}

/// The repository root of a crate whose manifest directory is `manifest_dir`:
/// the directory two levels up (crates live under `<root>/crates/`). `None`
/// when there is no such directory (for a plain path: when its parent is
/// empty or the root): a crate not laid out that way, which the program
/// refuses by stopping with "crate is under repo_root/crates".
pub fn repo_root(manifest_dir: &str) -> (r: Option<String>)
    ensures
        manifest_dir@.len() == 0 ==> r is None,
        r matches Some(root) ==> root@.len() + 2 <= manifest_dir@.len(),
        plain_path(manifest_dir@) ==> ({
            let crates_dir = plain_parent(manifest_dir@);
            if crates_dir.len() == 0 || crates_dir == seq!['/'] {
                r is None
            } else {
                r matches Some(root) && root@ == plain_parent(crates_dir)
            }
        }),
{
    match path_parent(manifest_dir) {
        Some(crates_dir) => {
            proof {
                if plain_path(manifest_dir@) && crates_dir@.len() > 0 && crates_dir@ != seq!['/'] {
                    lemma_plain_parent_is_plain(manifest_dir@);
                }
            }
            path_parent(crates_dir.as_str())
        },
        None => None,
    }
}

/// A plain path is a base without drive prefix.
proof fn lemma_plain_is_joinable(p: Seq<char>)
    requires
        plain_path(p),
    ensures
        joinable_base(p),
{
    if p.len() >= 2 && p[0] == '/' {
        assert(!(p[0int] == '/' && p[0int + 1] == '/'));
    }
}

/// For a crate at `<root>/crates/<name>`, given by a plain manifest directory
/// with a grandparent, the root that [`repo_root`] finds is a base without
/// drive prefix, so [`nikon_srgb_profile_path`] of it is that root with
/// `lib`, `NikonSDK`, `Profiles` and `NKsRGB.icm` joined in turn: the one
/// profile file that the session is given and the export embeds.
pub proof fn lemma_profile_path_from_manifest(manifest_dir: Seq<char>)
    requires
        plain_path(manifest_dir),
        plain_parent(manifest_dir).len() > 0,
        plain_parent(manifest_dir) != seq!['/'],
    ensures
        joinable_base(plain_parent(plain_parent(manifest_dir))),
{
    lemma_plain_parent_is_plain(manifest_dir);
    let crates_dir = plain_parent(manifest_dir);
    let root = plain_parent(crates_dir);
    if root.len() > 0 && root != seq!['/'] {
        lemma_plain_parent_is_plain(crates_dir);
        lemma_plain_is_joinable(root);
    } else if root.len() > 0 {
        assert(root.len() == 1);
    }
}

/// Name of Nikon's sRGB output profile.
pub open spec fn srgb_profile_name() -> Seq<char> {
    "NKsRGB.icm"@
}

/// Joining a simple component to a base without drive prefix gives a base
/// without drive prefix.
pub proof fn lemma_join_keeps_base(base: Seq<char>, part: Seq<char>, r: Seq<char>)
    requires
        joinable_base(base),
        simple_component(part),
        is_join(base, part, r),
    ensures
        joinable_base(r),
{
    let sep = choose|sep: Seq<char>| join_separator_ok(base, sep) && r == base + sep + part;
    assert(r == base + sep + part);
    assert forall|i: int| 0 <= i < r.len() implies r[i] != ':' by {
        if i < base.len() {
            assert(r[i] == base[i]);
        } else if i < base.len() + sep.len() {
            assert(r[i] == sep[i - base.len()]);
        } else {
            assert(r[i] == part[i - base.len() - sep.len()]);
            assert(plain_char(part[i - base.len() - sep.len()]));
        }
    }
    assert(plain_char(part[0]));
    if base.len() == 0 {
        assert(r =~= part);
    } else if base.len() == 1 {
        assert(r[0] == base[0]);
        if base[0] == '/' {
            assert(sep.len() == 0);
            assert(r[1] == part[0]);
        }
    } else {
        assert(r[0] == base[0] && r[1] == base[1]);
    }
}

/// Path of Nikon's sRGB output profile in the repository at `root`: `lib`,
/// `NikonSDK`, `Profiles` and `NKsRGB.icm` joined to it in turn.
pub fn nikon_srgb_profile_path(root: &str) -> (r: String)
    ensures
        joinable_base(root@) ==> ends_with(r@, srgb_profile_name()),
        joinable_base(root@) ==> exists|lib: Seq<char>, sdk: Seq<char>, profiles: Seq<char>| {
            &&& is_join(root@, "lib"@, lib)
            &&& is_join(lib, "NikonSDK"@, sdk)
            &&& is_join(sdk, "Profiles"@, profiles)
            &&& is_join(profiles, srgb_profile_name(), r@)
        },
{
    proof {
        reveal_strlit("lib");
        reveal_strlit("NikonSDK");
        reveal_strlit("Profiles");
        reveal_strlit("NKsRGB.icm");
        assert("lib"@ != seq!['.'] && "lib"@ != seq!['.', '.']) by {
            assert("lib"@[0] != '.');
        }
        assert("NikonSDK"@ != seq!['.'] && "NikonSDK"@ != seq!['.', '.']) by {
            assert("NikonSDK"@[0] != '.');
        }
        assert("Profiles"@ != seq!['.'] && "Profiles"@ != seq!['.', '.']) by {
            assert("Profiles"@[0] != '.');
        }
        assert("NKsRGB.icm"@ != seq!['.'] && "NKsRGB.icm"@ != seq!['.', '.']) by {
            assert("NKsRGB.icm"@[0] != '.');
        }
        assert(simple_component("lib"@));
        assert(simple_component("NikonSDK"@));
        assert(simple_component("Profiles"@));
        assert(simple_component("NKsRGB.icm"@));
    }
    let lib = path_join(root, "lib");
    let sdk = path_join(lib.as_str(), "NikonSDK");
    let profiles = path_join(sdk.as_str(), "Profiles");
    let r = path_join(profiles.as_str(), "NKsRGB.icm");
    proof {
        if joinable_base(root@) {
            lemma_join_keeps_base(root@, "lib"@, lib@);
            lemma_join_keeps_base(lib@, "NikonSDK"@, sdk@);
            lemma_join_keeps_base(sdk@, "Profiles"@, profiles@);
        }
    }
    r
}

} // verus!
