//! Release metadata and selection of the artifact matching the platform.

use vstd::prelude::*;
use crate::error::ProvisionError;
use crate::text::{contains_sub, contains_seq, views_of};

verus! {

/// One downloadable artifact attached to a release.
#[derive(Debug)]
pub struct Asset {
    pub name: String,
    pub download_url: String,
}

/// The latest qualifying release: a version identifier and its artifacts in
/// the order the metadata source lists them.
#[derive(Debug)]
pub struct Release {
    pub version: String,
    pub assets: Vec<Asset>,
}

/// The asset at `i` matches the platform suffix.
pub open spec fn asset_matches(assets: Seq<Asset>, suffix: Seq<char>, i: int) -> bool {
    0 <= i < assets.len() && contains_seq(assets[i].name@, suffix)
}

/// The names of a sequence of assets.
pub open spec fn asset_names(assets: Seq<Asset>) -> Seq<Seq<char>> {
    assets.map_values(|a: Asset| a.name@)
}

/// Scans the assets in order and returns the index of the first whose name
/// contains `suffix` as a substring.  When none matches, fails with
/// `NoMatchingAsset` enumerating every available asset name.
pub fn select_asset(assets: &Vec<Asset>, suffix: &str, version: &str) -> (r: Result<
    usize,
    ProvisionError,
>)
    ensures
        match r {
            Ok(i) => asset_matches(assets@, suffix@, i as int) && forall|j: int|
                0 <= j < i ==> !contains_seq(assets@[j].name@, suffix@),
            Err(e) => {
                &&& forall|j: int| 0 <= j < assets@.len()
                    ==> !contains_seq(#[trigger] assets@[j].name@, suffix@)
                &&& e matches ProvisionError::NoMatchingAsset { suffix: s, version: v, available }
                    && s@ == suffix@ && v@ == version@
                    && views_of(available@) == asset_names(assets@)
            },
        },
{
    let mut i: usize = 0;
    while i < assets.len()
        invariant
            0 <= i <= assets@.len(),
            forall|j: int| 0 <= j < i ==> !contains_seq(#[trigger] assets@[j].name@, suffix@),
        decreases assets@.len() - i,
    {
        if contains_sub(assets[i].name.as_str(), suffix) {
            return Ok(i);
        }
        i += 1;
    }
    let mut names: Vec<String> = Vec::new();
    let mut k: usize = 0;
    while k < assets.len()
        invariant
            0 <= k <= assets@.len(),
            names@.len() == k,
            views_of(names@) =~~= asset_names(assets@.take(k as int)),
        decreases assets@.len() - k,
    {
        let ghost before = names@;
        names.push(assets[k].name.clone());
        assert forall|j: int| 0 <= j < k as int + 1 implies views_of(names@)[j] == asset_names(
            assets@.take(k as int + 1),
        )[j] by {
            if j < k as int {
                assert(views_of(before)[j] == asset_names(assets@.take(k as int))[j]);
            }
        }
        assert(views_of(names@) =~~= asset_names(assets@.take(k as int + 1)));
        k += 1;
    }
    assert(assets@.take(assets@.len() as int) =~= assets@);
    Err(ProvisionError::NoMatchingAsset {
        suffix: String::from_str(suffix),
        version: String::from_str(version),
        available: names,
    })
}

} // verus!
