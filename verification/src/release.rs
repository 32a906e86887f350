//! A published release of the language server and the assets attached to it.

use vstd::prelude::*;

verus! {

/// A single downloadable file attached to a release.
#[derive(Debug, Clone, PartialEq, Eq)]
pub struct Asset {
    pub name: String,
    pub download_url: String,
}

/// Mathematical counterpart of [`Asset`].
pub struct AssetView {
    pub name: Seq<char>,
    pub download_url: Seq<char>,
}

impl View for Asset {
    type V = AssetView;

    open spec fn view(&self) -> AssetView {
        AssetView { name: self.name@, download_url: self.download_url@ }
    }
}

/// One published version of the language server, with its assets in the
/// order the registry lists them.
#[derive(Debug, Clone, PartialEq, Eq)]
pub struct Release {
    pub version: String,
    pub assets: Vec<Asset>,
}

/// Mathematical counterpart of [`Release`].
pub struct ReleaseView {
    pub version: Seq<char>,
    pub assets: Seq<AssetView>,
}

impl View for Release {
    type V = ReleaseView;

    open spec fn view(&self) -> ReleaseView {
        ReleaseView {
            version: self.version@,
            assets: self.assets@.map_values(|asset: Asset| asset@),
        }
    }
}

impl ReleaseView {
    /// Whether some asset of the release carries exactly this name.
    pub open spec fn has_asset_named(self, name: Seq<char>) -> bool {
        exists|i: int| 0 <= i < self.assets.len() && (#[trigger] self.assets[i]).name == name
    }

    /// Whether position `i` holds the first asset of this name.
    pub open spec fn is_first_named(self, name: Seq<char>, i: int) -> bool {
        &&& 0 <= i < self.assets.len()
        &&& self.assets[i].name == name
        &&& forall|j: int| 0 <= j < i ==> (#[trigger] self.assets[j]).name != name
    }

    /// The first asset of the release that carries exactly this name.
    pub open spec fn asset_named(self, name: Seq<char>) -> Option<AssetView> {
        if exists|i: int| self.is_first_named(name, i) {
            Some(self.assets[choose|i: int| self.is_first_named(name, i)])
        } else {
            None
        }
    }

    /// Among the first `n` assets, one of this name implies a first one.
    proof fn lemma_first_among(self, name: Seq<char>, n: int)
        requires
            0 <= n <= self.assets.len(),
            exists|i: int| 0 <= i < n && (#[trigger] self.assets[i]).name == name,
        ensures
            exists|i: int| self.is_first_named(name, i),
        decreases n,
    {
        let last = n - 1;
        if exists|i: int| 0 <= i < last && (#[trigger] self.assets[i]).name == name {
            self.lemma_first_among(name, last);
        } else {
            assert(self.is_first_named(name, last));
        }
    }

    /// A name is found exactly when some asset carries it, and what is found
    /// carries it.
    pub proof fn lemma_asset_named(self, name: Seq<char>)
        ensures
            self.asset_named(name) is Some <==> self.has_asset_named(name),
            self.asset_named(name) matches Some(asset) ==> asset.name == name
                && self.assets.contains(asset),
    {
        if self.has_asset_named(name) {
            self.lemma_first_among(name, self.assets.len() as int);
        }
        if exists|i: int| self.is_first_named(name, i) {
            let first = choose|i: int| self.is_first_named(name, i);
            assert(self.assets[first].name == name);
        }
    }
}

impl Release {
    /// Scans the assets in order for one of exactly this name and returns the
    /// first, or `None` where no asset carries it.
    pub fn find_asset(&self, name: &String) -> (found: Option<&Asset>)
        ensures
            match found {
                Some(asset) => self@.asset_named(name@) == Some(asset@),
                None => self@.asset_named(name@) is None,
            },
    {
        let mut i: usize = 0;
        while i < self.assets.len()
            invariant
                i <= self.assets.len(),
                forall|j: int| 0 <= j < i ==> (#[trigger] self@.assets[j]).name != name@,
            decreases self.assets.len() - i,
        {
            if self.assets[i].name == *name {
                proof {
                    let first = choose|k: int| self@.is_first_named(name@, k);
                    assert(self@.is_first_named(name@, i as int));
                    assert(first == i);
                }
                return Some(&self.assets[i]);
            }
            i += 1;
        }
        None
    }
}

} // verus!
