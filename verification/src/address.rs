//! Address resolution: the pure mapping from a package's name and version
//! to the local archive path under the mirror root, and to the remote
//! download URL.
//!
//! The local layout follows the registry's sharding convention: short
//! names (length 1 to 3) live under the directories `1`, `2`, `3`, and
//! longer names under `<first two chars>/<next two chars>`. An empty name
//! has no address.

use vstd::prelude::*;

verus! {

/// The shard directory path for a non-empty name: `1`, `2` or `3` for
/// names of that length, else the first two characters followed by the
/// next two.
pub open spec fn shard_spec(name: Seq<char>) -> Seq<char>
    recommends
        name.len() > 0,
{
    if name.len() == 1 {
        seq!['1']
    } else if name.len() == 2 {
        seq!['2']
    } else if name.len() == 3 {
        seq!['3']
    } else {
        name.subrange(0, 2) + seq!['/'] + name.subrange(2, 4)
    }
}

/// The archive file name: `<name>-<version>.crate`.
pub open spec fn crate_file_spec(name: Seq<char>, version: Seq<char>) -> Seq<char> {
    name + seq!['-'] + version + ".crate"@
}

/// The directory that holds one package's archive:
/// `<root>/crates/<shard>/<name>/<version>`.
pub open spec fn crate_dir_spec(root: Seq<char>, name: Seq<char>, version: Seq<char>) -> Seq<char>
    recommends
        name.len() > 0,
{
    root + "/crates/"@ + shard_spec(name) + seq!['/'] + name + seq!['/'] + version
}

/// The full local path of one package's archive.
pub open spec fn crate_path_spec(root: Seq<char>, name: Seq<char>, version: Seq<char>) -> Seq<
    char,
>
    recommends
        name.len() > 0,
{
    crate_dir_spec(root, name, version) + seq!['/'] + crate_file_spec(name, version)
}

/// What address resolution yields: no path for an empty name, else the
/// sharded path.
pub open spec fn resolved_path_spec(root: Seq<char>, name: Seq<char>, version: Seq<char>) -> Option<
    Seq<char>,
> {
    if name.len() == 0 {
        None
    } else {
        Some(crate_path_spec(root, name, version))
    }
}

/// The remote download URL of one package's archive:
/// `https://static.crates.io/crates/<name>/<name>-<version>.crate`.
/// Its shape is independent of the local sharding scheme.
pub open spec fn crate_url_spec(name: Seq<char>, version: Seq<char>) -> Seq<char> {
    "https://static.crates.io/crates/"@ + name + seq!['/'] + crate_file_spec(name, version)
}

/// Resolves the directory under `mirror_path` that holds a package's
/// archive, or `None` when the name is empty and no path is derivable.
pub fn get_crate_dir(mirror_path: &str, crate_name: &str, crate_version: &str) -> (r: Option<
    String,
>)
    ensures
        r is Some <==> crate_name@.len() > 0,
        r matches Some(p) ==> p@ == crate_dir_spec(mirror_path@, crate_name@, crate_version@),
{
    proof {
        reveal_strlit("/crates/");
        reveal_strlit("/");
        reveal_strlit("1");
        reveal_strlit("2");
        reveal_strlit("3");
    }
    let n = crate_name.unicode_len();
    if n == 0 {
        return None;
    }
    let mut p = String::from_str(mirror_path);
    p.append("/crates/");
    if n == 1 {
        p.append("1");
    } else if n == 2 {
        p.append("2");
    } else if n == 3 {
        p.append("3");
    } else {
        p.append(crate_name.substring_char(0, 2));
        p.append("/");
        p.append(crate_name.substring_char(2, 4));
    }
    assert(p@ =~= mirror_path@ + "/crates/"@ + shard_spec(crate_name@));
    p.append("/");
    p.append(crate_name);
    p.append("/");
    p.append(crate_version);
    assert(p@ =~= crate_dir_spec(mirror_path@, crate_name@, crate_version@));
    Some(p)
}

/// Resolves the local path of a package's archive under `mirror_path`,
/// or `None` when the name is empty and no path is derivable.
pub fn get_crate_path(mirror_path: &str, crate_name: &str, crate_version: &str) -> (r: Option<
    String,
>)
    ensures
        r is Some <==> crate_name@.len() > 0,
        r matches Some(p) ==> p@ == crate_path_spec(mirror_path@, crate_name@, crate_version@),
        (match r {
            Some(p) => Some(p@),
            None => None,
        }) == resolved_path_spec(mirror_path@, crate_name@, crate_version@),
{
    match get_crate_dir(mirror_path, crate_name, crate_version) {
        None => None,
        Some(mut p) => {
            proof {
                reveal_strlit("/");
                reveal_strlit("-");
                reveal_strlit(".crate");
            }
            p.append("/");
            p.append(crate_name);
            p.append("-");
            p.append(crate_version);
            p.append(".crate");
            assert(p@ =~= crate_path_spec(mirror_path@, crate_name@, crate_version@));
            Some(p)
        },
    }
}

/// Builds the remote download URL for a package's archive.
pub fn get_crate_url(crate_name: &str, crate_version: &str) -> (r: String)
    ensures
        r@ == crate_url_spec(crate_name@, crate_version@),
{
    let mut u = String::from_str("https://static.crates.io/crates/");
    u.append(crate_name);
    u.append("/");
    u.append(crate_name);
    u.append("-");
    u.append(crate_version);
    u.append(".crate");
    proof {
        reveal_strlit("/");
        reveal_strlit("-");
    }
    assert(u@ =~= crate_url_spec(crate_name@, crate_version@));
    u
}

/// A name of length 1, 2 or 3 is placed under the shard directory `1`,
/// `2` or `3` respectively; the shard depends on the name alone, never
/// on the version.
pub proof fn lemma_short_name_shard(name: Seq<char>)
    requires
        1 <= name.len() <= 3,
    ensures
        name.len() == 1 ==> shard_spec(name) == seq!['1'],
        name.len() == 2 ==> shard_spec(name) == seq!['2'],
        name.len() == 3 ==> shard_spec(name) == seq!['3'],
{
}

/// A name of length at least 4 is placed under the shard path made of
/// its first two characters followed by its next two characters.
pub proof fn lemma_long_name_shard(name: Seq<char>)
    requires
        name.len() >= 4,
    ensures
        shard_spec(name) == name.subrange(0, 2) + seq!['/'] + name.subrange(2, 4),
{
}

/// The shard of a long name depends only on the name's first four
/// characters: two names that agree on those four share a shard path,
/// whatever follows.
pub proof fn lemma_shard_depends_on_prefix(name1: Seq<char>, name2: Seq<char>)
    requires
        name1.len() >= 4,
        name2.len() >= 4,
        name1.subrange(0, 4) == name2.subrange(0, 4),
    ensures
        shard_spec(name1) == shard_spec(name2),
{
    assert(name1.subrange(0, 2) =~= name1.subrange(0, 4).subrange(0, 2));
    assert(name2.subrange(0, 2) =~= name2.subrange(0, 4).subrange(0, 2));
    assert(name1.subrange(2, 4) =~= name1.subrange(0, 4).subrange(2, 4));
    assert(name2.subrange(2, 4) =~= name2.subrange(0, 4).subrange(2, 4));
}

/// Address resolution is a pure function: identical inputs always yield
/// the identical result, path and `None` case alike.
pub proof fn lemma_resolver_deterministic(
    root1: Seq<char>,
    name1: Seq<char>,
    version1: Seq<char>,
    root2: Seq<char>,
    name2: Seq<char>,
    version2: Seq<char>,
)
    requires
        root1 == root2,
        name1 == name2,
        version1 == version2,
    ensures
        resolved_path_spec(root1, name1, version1) == resolved_path_spec(root2, name2, version2),
{
}

} // verus!
