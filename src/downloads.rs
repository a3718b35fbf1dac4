//! Which release assets are synchronised and where they are unpacked.
use crate::paths::{join, join_path};
use crate::resources::RESOURCES_DIRECTORY;
use vstd::prelude::*;

verus! {

/// The account that publishes the resource releases.
pub const REPO_OWNER: &'static str = "lovebrew";

/// `t` occurs in `s` starting at index `i`.
pub open spec fn occurs_at(s: Seq<char>, t: Seq<char>, i: int) -> bool {
    0 <= i && i + t.len() <= s.len() && s.subrange(i, i + t.len()) == t
}

/// `t` occurs somewhere in `s`.
pub open spec fn contains_text(s: Seq<char>, t: Seq<char>) -> bool {
    exists|i: int| occurs_at(s, t, i)
}

/// The platform folder an asset's files belong in, from its name.
pub open spec fn subfolder_of(asset_name: Seq<char>) -> Seq<char> {
    if contains_text(asset_name, "3DS"@) {
        "ctr"@
    } else if contains_text(asset_name, "Switch"@) {
        "hac"@
    } else {
        "cafe"@
    }
}

/// Whether `t` occurs in `s`.
pub fn find_text(s: &str, t: &str) -> (r: bool)
    ensures
        r == contains_text(s@, t@),
{
    let n = s.unicode_len();
    let m = t.unicode_len();
    if m > n {
        return false;
    }
    let mut i: usize = 0;
    while i <= n - m
        invariant
            n == s@.len(),
            m == t@.len(),
            m <= n,
            forall|j: int| 0 <= j < i ==> !occurs_at(s@, t@, j),
        decreases n - m + 1 - i,
    {
        let mut k: usize = 0;
        let mut same = true;
        while k < m
            invariant
                n == s@.len(),
                m == t@.len(),
                i + m <= n,
                k <= m,
                same == (forall|q: int| 0 <= q < k ==> s@[i + q] == t@[q]),
            decreases m - k,
        {
            if s.get_char(i + k) != t.get_char(k) {
                same = false;
            }
            k = k + 1;
        }
        if same {
            assert(s@.subrange(i as int, i + m) =~= t@);
            assert(occurs_at(s@, t@, i as int));
            return true;
        }
        assert(!occurs_at(s@, t@, i as int)) by {
            if s@.subrange(i as int, i + m) == t@ {
                assert forall|q: int| 0 <= q < m implies s@[i + q] == t@[q] by {
                    assert(s@.subrange(i as int, i + m)[q] == s@[i + q]);
                }
            }
        }
        i = i + 1;
    }
    assert forall|j: int| !occurs_at(s@, t@, j) by {
        if occurs_at(s@, t@, j) {
            assert(j < i);
        }
    }
    false
}

/// A repository whose latest release is synchronised.
pub struct RepoConfig {
    pub name: String,
    /// The only file kept from each asset archive, if not all of them.
    pub filter: Option<String>,
}

impl RepoConfig {
    /// The platform folder of an asset, from its name.
    pub fn subfolder_for(asset_name: &str) -> (r: String)
        ensures
            r@ == subfolder_of(asset_name@),
    {
        if find_text(asset_name, "3DS") {
            String::from_str("ctr")
        } else if find_text(asset_name, "Switch") {
            String::from_str("hac")
        } else {
            String::from_str("cafe")
        }
    }

    /// Where the filtered file of an asset archive is written.
    pub fn extracted_path(asset_name: &str, filter_name: &str) -> (r: String)
        ensures
            r@ == join(join("resources"@, subfolder_of(asset_name@)), filter_name@),
    {
        let folder = Self::subfolder_for(asset_name);
        let dir = join_path(RESOURCES_DIRECTORY, folder.as_str());
        join_path(dir.as_str(), filter_name)
    }
}

/// The repositories synchronised at start-up: shared assets, whole, and
/// the runtime binary, of which only the ELF file is kept.
pub fn repositories() -> (r: Vec<RepoConfig>)
    ensures
        r@.len() == 2,
        r@[0].name@ == "bundler-assets"@,
        r@[0].filter is None,
        r@[1].name@ == "lovepotion"@,
        r@[1].filter matches Some(f) && f@ == "lovepotion.elf"@,
{
    let mut r: Vec<RepoConfig> = Vec::new();
    r.push(RepoConfig { name: String::from_str("bundler-assets"), filter: None });
    r.push(RepoConfig { name: String::from_str("lovepotion"), filter: Some(String::from_str("lovepotion.elf")) });
    r
}

} // verus!
