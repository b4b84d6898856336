//! Releases, assets, and selection of the asset matching the expected name.

use vstd::prelude::*;

verus! {

/// One named, downloadable file attached to a release.
pub struct Asset {
    pub name: String,
    pub download_url: String,
}

/// The mathematical value of an [`Asset`].
pub struct AssetModel {
    pub name: Seq<char>,
    pub download_url: Seq<char>,
}

impl View for Asset {
    type V = AssetModel;

    open spec fn view(&self) -> AssetModel {
        AssetModel { name: self.name@, download_url: self.download_url@ }
    }
}

/// A versioned publication with its downloadable assets, as the release
/// directory returned them.  The version is opaque: it is compared only for
/// equality, never parsed.
pub struct Release {
    pub version: String,
    pub assets: Vec<Asset>,
}

/// The mathematical value of a [`Release`].
pub struct ReleaseModel {
    pub version: Seq<char>,
    pub assets: Seq<AssetModel>,
}

impl View for Release {
    type V = ReleaseModel;

    open spec fn view(&self) -> ReleaseModel {
        ReleaseModel {
            version: self.version@,
            assets: self.assets@.map_values(|a: Asset| a@),
        }
    }
}

/// The index of the first asset whose name equals `name`, if any.
pub open spec fn first_match(assets: Seq<AssetModel>, name: Seq<char>) -> Option<int>
    decreases assets.len(),
{
    if assets.len() == 0 {
        None
    } else if assets[0].name == name {
        Some(0)
    } else {
        match first_match(assets.drop_first(), name) {
            None => None,
            Some(i) => Some(i + 1),
        }
    }
}

/// A first match lies in bounds, carries the expected name, and nothing
/// before it does.
pub proof fn lemma_first_match_found(assets: Seq<AssetModel>, name: Seq<char>, i: int)
    requires
        first_match(assets, name) == Some(i),
    ensures
        0 <= i < assets.len(),
        assets[i].name == name,
        forall|j: int| 0 <= j < i ==> assets[j].name != name,
    decreases assets.len(),
{
    if assets.len() > 0 && assets[0].name != name {
        let rest = assets.drop_first();
        lemma_first_match_found(rest, name, i - 1);
        assert forall|j: int| 0 <= j < i implies assets[j].name != name by {
            if j > 0 {
                assert(rest[j - 1] == assets[j]);
                assert(rest[j - 1].name != name);
            }
        }
    }
}

proof fn lemma_first_match_at(assets: Seq<AssetModel>, name: Seq<char>, i: int)
    requires
        0 <= i < assets.len(),
        assets[i].name == name,
        forall|j: int| 0 <= j < i ==> assets[j].name != name,
    ensures
        first_match(assets, name) == Some(i),
    decreases i,
{
    if i > 0 {
        let rest = assets.drop_first();
        assert(forall|j: int| 0 <= j < i - 1 ==> rest[j] == assets[j + 1]);
        lemma_first_match_at(rest, name, i - 1);
    }
}

proof fn lemma_first_match_absent(assets: Seq<AssetModel>, name: Seq<char>)
    requires
        forall|j: int| 0 <= j < assets.len() ==> assets[j].name != name,
    ensures
        first_match(assets, name) is None,
    decreases assets.len(),
{
    if assets.len() > 0 {
        let rest = assets.drop_first();
        assert(forall|j: int| 0 <= j < rest.len() ==> rest[j] == assets[j + 1]);
        lemma_first_match_absent(rest, name);
    }
}

/// Scans the asset list for an exact filename match; the first listed match
/// wins, and the order is whatever the release directory returned.
pub fn select_asset(assets: &Vec<Asset>, name: &String) -> (r: Option<usize>)
    ensures
        match r {
            Some(i) => first_match(assets@.map_values(|a: Asset| a@), name@) == Some(i as int),
            None => first_match(assets@.map_values(|a: Asset| a@), name@) is None,
        },
{
    let ghost models = assets@.map_values(|a: Asset| a@);
    let mut i: usize = 0;
    while i < assets.len()
        invariant
            0 <= i <= assets.len(),
            models == assets@.map_values(|a: Asset| a@),
            forall|j: int| 0 <= j < i ==> models[j].name != name@,
        decreases assets.len() - i,
    {
        if assets[i].name == *name {
            proof {
                assert(models[i as int].name == name@);
                lemma_first_match_at(models, name@, i as int);
            }
            return Some(i);
        }
        i += 1;
    }
    proof {
        lemma_first_match_absent(models, name@);
    }
    None
}

} // verus!
