//! Resolution of the most recent (stable) game version and of the release
//! of a mod that targets a given version.
use vstd::prelude::*;
use crate::error::ApiError;
use crate::models::{strings_view, DetailedModRelease, GameVersion};
use crate::search::{chars_of, same_chars};

verus! {

/// Whether `needle` occurs in `hay` as a contiguous run of characters.
pub open spec fn has_infix(hay: Seq<char>, needle: Seq<char>) -> bool {
    exists|i: int| 0 <= i && i + needle.len() <= hay.len() && #[trigger] hay.subrange(i, i + needle.len()) == needle
}

/// A version name that marks a pre-release: it contains "pre", "rc" or "dev".
pub open spec fn is_prerelease(name: Seq<char>) -> bool {
    has_infix(name, seq!['p', 'r', 'e']) || has_infix(name, seq!['r', 'c']) || has_infix(
        name,
        seq!['d', 'e', 'v'],
    )
}

/// The index of the last stable version, or -1 when every version is a pre-release.
pub open spec fn last_stable_index(vs: Seq<GameVersion>) -> int
    decreases vs.len(),
{
    if vs.len() == 0 {
        -1
    } else if !is_prerelease(vs.last().name@) {
        vs.len() - 1
    } else {
        last_stable_index(vs.drop_last())
    }
}

/// Whether a release is tagged with the version name `version`.
pub open spec fn is_tagged(r: DetailedModRelease, version: Seq<char>) -> bool {
    strings_view(r.tags@).contains(version)
}

/// The index of the release picked for `version`: the first one tagged with
/// it, or the first release when none is.
pub open spec fn picked_release(rs: Seq<DetailedModRelease>, version: Seq<char>, i: int) -> bool {
    &&& 0 <= i < rs.len()
    &&& forall|j: int| 0 <= j < i ==> !is_tagged(#[trigger] rs[j], version)
    &&& (is_tagged(rs[i], version) || (i == 0 && forall|j: int|
        0 <= j < rs.len() ==> !is_tagged(#[trigger] rs[j], version)))
}

fn has_infix_exec(hay: &Vec<char>, needle: &Vec<char>) -> (r: bool)
    ensures
        r == has_infix(hay@, needle@),
{
    if needle.len() > hay.len() {
        return false;
    }
    let hay_len = hay.len();
    let last = hay_len - needle.len();
    let mut i: usize = 0;
    while i <= last
        invariant
            last == hay@.len() - needle@.len(),
            needle@.len() <= hay@.len(),
            hay@.len() == hay_len,
            forall|k: int| 0 <= k < i ==> #[trigger] hay@.subrange(k, k + needle@.len()) != needle@,
        decreases last + 1 - i,
    {
        let mut j: usize = 0;
        let mut same = true;
        while j < needle.len()
            invariant
                i <= last,
                last == hay@.len() - needle@.len(),
                needle@.len() <= hay@.len(),
                hay@.len() == hay_len,
                j <= needle@.len(),
                same == (forall|k: int| 0 <= k < j ==> hay@[i + k] == needle@[k]),
            decreases needle.len() - j,
        {
            if hay[i + j] != needle[j] {
                same = false;
            }
            j = j + 1;
        }
        if same {
            assert(hay@.subrange(i as int, i + needle@.len()) =~= needle@);
            return true;
        }
        assert(!same);
        let ghost w = choose|k: int| 0 <= k < needle@.len() && hay@[i + k] != needle@[k];
        assert(hay@.subrange(i as int, i + needle@.len())[w] != needle@[w]);
        if i == last {
            assert forall|k: int| 0 <= k && k + needle@.len() <= hay@.len() implies #[trigger] hay@.subrange(
                k,
                k + needle@.len(),
            ) != needle@ by {
                assert(k <= i);
            }
            return false;
        }
        i = i + 1;
    }
    assert forall|k: int| 0 <= k && k + needle@.len() <= hay@.len() implies #[trigger] hay@.subrange(
        k,
        k + needle@.len(),
    ) != needle@ by {
        assert(k < i);
    }
    false
}

/// Whether the version name `name` marks a pre-release.
pub fn is_prerelease_name(name: &str) -> (r: bool)
    ensures
        r == is_prerelease(name@),
{
    let chars = chars_of(name);
    let pre = vec!['p', 'r', 'e'];
    let rc = vec!['r', 'c'];
    let dev = vec!['d', 'e', 'v'];
    assert(pre@ =~= seq!['p', 'r', 'e']);
    assert(rc@ =~= seq!['r', 'c']);
    assert(dev@ =~= seq!['d', 'e', 'v']);
    has_infix_exec(&chars, &pre) || has_infix_exec(&chars, &rc) || has_infix_exec(&chars, &dev)
}

/// The most recent stable game version: the last one, in the service's
/// oldest-to-newest order, whose name is not a pre-release. Fails when every
/// version is a pre-release (an empty list included).
pub fn most_recent_stable_game_version(versions: Vec<GameVersion>) -> (r: Result<GameVersion, ApiError>)
    ensures
        r is Ok <==> last_stable_index(versions@) >= 0,
        r matches Ok(v) ==> v == versions@[last_stable_index(versions@)],
        r matches Err(e) ==> e is Unexpected,
{
    let mut vs = versions;
    let ghost all = vs@;
    let mut n: usize = vs.len();
    assert(all.take(n as int) =~= all);
    while n > 0
        invariant
            n <= all.len(),
            vs@ == all,
            all == versions@,
            last_stable_index(all) == last_stable_index(all.take(n as int)),
        decreases n,
    {
        assert(all.take(n as int).drop_last() =~= all.take(n - 1));
        if !is_prerelease_name(vs[n - 1].name.as_str()) {
            assert(all.take(n as int).last() == all[n - 1]);
            return Ok(vs.swap_remove(n - 1));
        }
        n = n - 1;
    }
    Err(ApiError::unexpected("No stable game version found"))
}

/// The most recent game version: the last one in the service's order.
/// Fails on an empty list.
pub fn most_recent_game_version(versions: Vec<GameVersion>) -> (r: Result<GameVersion, ApiError>)
    ensures
        r is Ok <==> versions@.len() > 0,
        r matches Ok(v) ==> v == versions@.last(),
        r matches Err(e) ==> e is Unexpected,
{
    let mut vs = versions;
    match vs.pop() {
        Some(v) => Ok(v),
        None => Err(ApiError::unexpected("No game versions found")),
    }
}

fn is_tagged_exec(release: &DetailedModRelease, version: &Vec<char>) -> (r: bool)
    ensures
        r == is_tagged(*release, version@),
{
    let mut i: usize = 0;
    while i < release.tags.len()
        invariant
            i <= release.tags@.len(),
            forall|j: int| 0 <= j < i ==> release.tags@[j]@ != version@,
        decreases release.tags.len() - i,
    {
        if same_chars(&chars_of(release.tags[i].as_str()), version) {
            assert(strings_view(release.tags@)[i as int] == version@);
            return true;
        }
        i = i + 1;
    }
    assert(!strings_view(release.tags@).contains(version@));
    false
}

/// The release of a mod to use for the game version named `version`: the
/// first release (in the order the service lists them, newest first) tagged
/// with it, or else the first release. Fails when the mod has no release.
pub fn release_for_version(releases: Vec<DetailedModRelease>, version: &str) -> (r: Result<DetailedModRelease, ApiError>)
    ensures
        r is Ok <==> releases@.len() > 0,
        r matches Ok(rel) ==> exists|i: int| picked_release(releases@, version@, i) && rel == releases@[i],
        r matches Err(e) ==> e is Unexpected,
{
    let mut rs = releases;
    if rs.len() == 0 {
        return Err(ApiError::unexpected("No releases found"));
    }
    let wanted = chars_of(version);
    let mut i: usize = 0;
    while i < rs.len()
        invariant
            wanted@ == version@,
            i <= rs@.len(),
            rs@.len() > 0,
            rs@ == releases@,
            forall|j: int| 0 <= j < i ==> !is_tagged(#[trigger] rs@[j], version@),
        decreases rs.len() - i,
    {
        if is_tagged_exec(&rs[i], &wanted) {
            let ghost k = i as int;
            assert(picked_release(releases@, version@, k));
            return Ok(rs.swap_remove(i));
        }
        i = i + 1;
    }
    assert(picked_release(releases@, version@, 0));
    Ok(rs.swap_remove(0))
}

/// The stable version that `most_recent_stable_game_version` picks is never a
/// pre-release (its name holds none of "pre", "rc", "dev"), and every version
/// after it is one.
pub proof fn lemma_stable_pick_is_stable(vs: Seq<GameVersion>)
    requires
        last_stable_index(vs) >= 0,
    ensures
        last_stable_index(vs) < vs.len(),
        !is_prerelease(vs[last_stable_index(vs)].name@),
        forall|j: int| last_stable_index(vs) < j < vs.len() ==> is_prerelease(#[trigger] vs[j].name@),
    decreases vs.len(),
{
    if is_prerelease(vs.last().name@) {
        lemma_stable_pick_is_stable(vs.drop_last());
        assert forall|j: int| last_stable_index(vs) < j < vs.len() implies is_prerelease(#[trigger] vs[j].name@) by {
            if j < vs.len() - 1 {
                assert(vs.drop_last()[j] == vs[j]);
            }
        }
    }
}

} // verus!
