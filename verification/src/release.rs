use vstd::prelude::*;
use vstd::string::StringExecFns;

verus! {

/// One downloadable artifact attached to a release; immutable once fetched.
#[derive(Debug, Clone, PartialEq, Eq)]
pub struct AssetInfo {
    pub name: String,
    pub download_url: String,
}

/// Mathematical image of an `AssetInfo`.
pub struct AssetModel {
    pub name: Seq<char>,
    pub url: Seq<char>,
}

impl View for AssetInfo {
    type V = AssetModel;

    open spec fn view(&self) -> AssetModel {
        AssetModel { name: self.name@, url: self.download_url@ }
    }
}

/// A version-tagged release together with its ordered asset list,
/// as the release feed reported it.
#[derive(Debug, Clone, PartialEq, Eq)]
pub struct ReleaseInfo {
    pub version: String,
    pub assets: Vec<AssetInfo>,
}

/// Mathematical image of a `ReleaseInfo`.
pub struct ReleaseModel {
    pub version: Seq<char>,
    pub assets: Seq<AssetModel>,
}

/// The images of a sequence of assets.
pub open spec fn asset_views(assets: Seq<AssetInfo>) -> Seq<AssetModel> {
    assets.map_values(|a: AssetInfo| a@)
}

impl View for ReleaseInfo {
    type V = ReleaseModel;

    open spec fn view(&self) -> ReleaseModel {
        ReleaseModel { version: self.version@, assets: asset_views(self.assets@) }
    }
}

/// The file name the resolver expects for a release version: the fixed
/// naming template `pkl-lsp-<version>.jar`.
pub open spec fn expected_name(version: Seq<char>) -> Seq<char> {
    "pkl-lsp-"@ + version + ".jar"@
}

/// Instantiates the naming template for one version.
pub fn expected_asset_name(version: &str) -> (r: String)
    ensures
        r@ == expected_name(version@),
{
    let mut r = String::from_str("pkl-lsp-");
    r.append(version);
    r.append(".jar");
    r
}

/// The position of the first asset at or after `i` whose name equals
/// `name` exactly.
pub open spec fn first_match_from(assets: Seq<AssetModel>, name: Seq<char>, i: int) -> Option<
    int,
>
    decreases assets.len() - i,
{
    if i < 0 || i >= assets.len() {
        None
    } else if assets[i].name == name {
        Some(i)
    } else {
        first_match_from(assets, name, i + 1)
    }
}

/// The position of the first asset whose name equals `name` exactly.
pub open spec fn first_match(assets: Seq<AssetModel>, name: Seq<char>) -> Option<int> {
    first_match_from(assets, name, 0)
}

/// `first_match` names an asset exactly when its name equals the sought
/// one, and only the earliest such asset; `None` means no asset matches.
pub proof fn lemma_first_match_spec(assets: Seq<AssetModel>, name: Seq<char>)
    ensures
        match first_match(assets, name) {
            Some(i) => 0 <= i < assets.len() && assets[i].name == name && (forall|j: int|
                0 <= j < i ==> assets[j].name != name),
            None => forall|j: int| 0 <= j < assets.len() ==> assets[j].name != name,
        },
{
    lemma_first_match_from_spec(assets, name, 0);
}

proof fn lemma_first_match_from_spec(assets: Seq<AssetModel>, name: Seq<char>, i: int)
    requires
        0 <= i <= assets.len(),
    ensures
        match first_match_from(assets, name, i) {
            Some(k) => i <= k < assets.len() && assets[k].name == name && (forall|j: int|
                i <= j < k ==> assets[j].name != name),
            None => forall|j: int| i <= j < assets.len() ==> assets[j].name != name,
        },
    decreases assets.len() - i,
{
    if i < assets.len() && assets[i].name != name {
        lemma_first_match_from_spec(assets, name, i + 1);
    }
}

/// The first asset whose name equals `name` exactly, as an iterator
/// search over the ordered asset list would find it.
pub fn find_asset(assets: &Vec<AssetInfo>, name: &String) -> (r: Option<usize>)
    ensures
        match r {
            Some(i) => i < assets@.len() && first_match(asset_views(assets@), name@) == Some(
                i as int,
            ),
            None => first_match(asset_views(assets@), name@) is None,
        },
{
    let ghost views = asset_views(assets@);
    let mut i: usize = 0;
    while i < assets.len()
        invariant
            0 <= i <= assets@.len(),
            views == asset_views(assets@),
            first_match_from(views, name@, 0) == first_match_from(views, name@, i as int),
        decreases assets@.len() - i,
    {
        assert(views[i as int] == assets@[i as int]@);
        if assets[i].name == *name {
            assert(first_match_from(views, name@, i as int) == Some(i as int));
            return Some(i);
        }
        assert(first_match_from(views, name@, i as int) == first_match_from(
            views,
            name@,
            i as int + 1,
        ));
        i = i + 1;
    }
    None
}

} // verus!
