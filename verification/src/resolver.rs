//! Choosing, among the assets of a release, the one to install for a
//! product variant.

use vstd::prelude::*;
use vstd::string::*;
use crate::error::InstallError;

verus! {

/// A downloadable file attached to a release.
#[derive(Debug, PartialEq, Eq)]
pub struct ReleaseAsset {
    pub name: String,
    pub download_url: String,
    pub size: u64,
}

impl Clone for ReleaseAsset {
    fn clone(&self) -> (copy: Self)
        ensures
            copy == *self,
    {
        ReleaseAsset {
            name: self.name.clone(),
            download_url: self.download_url.clone(),
            size: self.size,
        }
    }
}

/// A product variant: an identifier and the regular expression that the name
/// of its asset matches.
#[derive(Debug, PartialEq, Eq)]
pub struct VariantSelector {
    pub id: String,
    pub pattern: String,
}

impl VariantSelector {
    /// A variant with the given identifier and name pattern.
    pub fn new(id: &str, pattern: &str) -> (v: VariantSelector)
        ensures
            v.id@ == id@,
            v.pattern@ == pattern@,
    {
        VariantSelector { id: String::from_str(id), pattern: String::from_str(pattern) }
    }

    /// The standard build of the product.
    pub fn standard() -> (v: VariantSelector)
        ensures
            v.id@ == "standard"@,
            v.pattern@ == "^product-\\d+\\.\\d+\\.\\d+\\.zip$"@,
    {
        VariantSelector::new("standard", "^product-\\d+\\.\\d+\\.\\d+\\.zip$")
    }

    /// The optional resource pack.
    pub fn resource_pack() -> (v: VariantSelector)
        ensures
            v.id@ == "resource-pack"@,
            v.pattern@ == "^resource_pack_v\\d+\\.\\d+\\.\\d+\\.zip$"@,
    {
        VariantSelector::new("resource-pack", "^resource_pack_v\\d+\\.\\d+\\.\\d+\\.zip$")
    }
}

/// An entry of a release's asset list as the feed gave it: each field is
/// there or missing.
#[derive(Debug, PartialEq, Eq)]
pub struct FeedAsset {
    pub name: Option<String>,
    pub download_url: Option<String>,
    pub size: Option<u64>,
}

impl FeedAsset {
    /// Whether the entry has every field of an asset.
    pub open spec fn complete(self) -> bool {
        self.name is Some && self.download_url is Some && self.size is Some
    }

    /// The asset that a complete entry describes.
    pub open spec fn asset(self) -> ReleaseAsset {
        ReleaseAsset {
            name: self.name->Some_0,
            download_url: self.download_url->Some_0,
            size: self.size->Some_0,
        }
    }
}

/// What matching `text` against the regular expression `pattern` gives:
/// `None` where `pattern` is no valid expression of the regex crate,
/// otherwise whether the expression matches somewhere in `text`.
pub uninterp spec fn pattern_match(pattern: Seq<char>, text: Seq<char>) -> Option<bool>;

/// Compiles `pattern` with `regex::Regex::new` and asks `Regex::is_match` for
/// `text`. Both depend on the two strings alone, so the result is given the
/// name `pattern_match`; nothing more is claimed of it. Neither call panics.
/// The expression is compiled anew on every call: a release has a handful
/// of assets, and the expression itself never enters the library's state.
#[verifier::external_body]
fn match_name(pattern: &str, text: &str) -> (found: Option<bool>)
    ensures
        found == pattern_match(pattern@, text@),
{
    match regex::Regex::new(pattern) {
        Ok(expression) => Some(expression.is_match(text)),
        Err(_) => None,
    }
}

/// Whether an asset named `name` belongs to the variant with `pattern`.
pub open spec fn matching(pattern: Seq<char>, name: Seq<char>) -> bool {
    pattern_match(pattern, name) == Some(true)
}

/// Whether position `i` holds the first `true` of `flags`.
pub open spec fn first_set(flags: Seq<bool>, i: int) -> bool {
    &&& 0 <= i < flags.len()
    &&& flags[i]
    &&& forall|j: int| 0 <= j < i ==> !#[trigger] flags[j]
}

/// Whether no position of `flags` holds `true`.
pub open spec fn none_set(flags: Seq<bool>) -> bool {
    forall|j: int| 0 <= j < flags.len() ==> !#[trigger] flags[j]
}

/// For each asset, in feed order, whether its name matches `pattern`.
pub open spec fn match_flags_of(assets: Seq<ReleaseAsset>, pattern: Seq<char>) -> Seq<bool> {
    Seq::new(assets.len(), |i: int| matching(pattern, assets[i].name@))
}

/// The asset that `flags` pick out of `assets`: the one at the first `true`,
/// if that position exists among the assets.
pub open spec fn picked(assets: Seq<ReleaseAsset>, flags: Seq<bool>) -> Option<ReleaseAsset> {
    if exists|i: int| first_set(flags, i) && i < assets.len() {
        let i = choose|i: int| first_set(flags, i) && i < assets.len();
        Some(assets[i])
    } else {
        None
    }
}

/// The first `true` of a sequence is unique, so `picked` is the asset at any
/// position shown to be the first.
pub proof fn lemma_picked_at(assets: Seq<ReleaseAsset>, flags: Seq<bool>, i: int)
    requires
        first_set(flags, i),
        i < assets.len(),
    ensures
        picked(assets, flags) == Some(assets[i]),
{
    let c = choose|c: int| first_set(flags, c) && c < assets.len();
    if c < i {
        assert(!flags[c]);
    } else if i < c {
        assert(!flags[i]);
    }
}

/// Where nothing is flagged, or the first flag lies beyond the assets,
/// nothing is picked.
pub proof fn lemma_picked_none(assets: Seq<ReleaseAsset>, flags: Seq<bool>)
    requires
        none_set(flags) || exists|i: int| first_set(flags, i) && i >= assets.len(),
    ensures
        picked(assets, flags) is None,
{
    if exists|c: int| first_set(flags, c) && c < assets.len() {
        let c = choose|c: int| first_set(flags, c) && c < assets.len();
        if none_set(flags) {
            assert(!flags[c]);
        } else {
            let i = choose|i: int| first_set(flags, i) && i >= assets.len();
            assert(!flags[c]);
        }
    }
}

/// The position of the first `true` in `flags`, if there is one.
pub fn first_flagged(flags: &Vec<bool>) -> (found: Option<usize>)
    ensures
        match found {
            Some(i) => first_set(flags@, i as int),
            None => none_set(flags@),
        },
{
    let mut i: usize = 0;
    while i < flags.len()
        invariant
            i <= flags.len(),
            forall|j: int| 0 <= j < i ==> !#[trigger] flags@[j],
        decreases flags.len() - i,
    {
        if flags[i] {
            return Some(i);
        }
        i += 1;
    }
    None
}

/// The asset at the first `true` of `flags`, which say for each asset, in
/// feed order, whether it matches: of several matching assets the one that
/// the feed lists first wins. Without such an asset the result is
/// `NoMatchingAsset`.
pub fn pick_flagged(assets: &Vec<ReleaseAsset>, flags: &Vec<bool>) -> (r: Result<
    ReleaseAsset,
    InstallError,
>)
    ensures
        match picked(assets@, flags@) {
            Some(asset) => r == Ok::<ReleaseAsset, InstallError>(asset),
            None => r == Err::<ReleaseAsset, InstallError>(InstallError::NoMatchingAsset),
        },
{
    match first_flagged(flags) {
        Some(i) => {
            if i < assets.len() {
                proof {
                    lemma_picked_at(assets@, flags@, i as int);
                }
                Ok(assets[i].clone())
            } else {
                proof {
                    lemma_picked_none(assets@, flags@);
                }
                Err(InstallError::NoMatchingAsset)
            }
        },
        None => {
            proof {
                lemma_picked_none(assets@, flags@);
            }
            Err(InstallError::NoMatchingAsset)
        },
    }
}

/// Says for each asset, in feed order, whether its name matches the
/// variant's pattern. A pattern that is no valid expression matches nothing.
pub fn match_flags(assets: &Vec<ReleaseAsset>, variant: &VariantSelector) -> (flags: Vec<bool>)
    ensures
        flags@ == match_flags_of(assets@, variant.pattern@),
{
    let mut flags: Vec<bool> = Vec::new();
    let mut i: usize = 0;
    while i < assets.len()
        invariant
            i <= assets.len(),
            flags@.len() == i,
            forall|j: int|
                0 <= j < i ==> #[trigger] flags@[j] == matching(
                    variant.pattern@,
                    assets@[j].name@,
                ),
        decreases assets.len() - i,
    {
        let found = match_name(variant.pattern.as_str(), assets[i].name.as_str());
        let hit = match found {
            Some(b) => b,
            None => false,
        };
        flags.push(hit);
        i += 1;
    }
    assert(flags@ =~= match_flags_of(assets@, variant.pattern@));
    flags
}

/// The asset to install for `variant`: the first asset of the feed whose
/// name matches the variant's pattern, or `NoMatchingAsset` if none does.
pub fn select_asset(assets: &Vec<ReleaseAsset>, variant: &VariantSelector) -> (r: Result<
    ReleaseAsset,
    InstallError,
>)
    ensures
        match picked(assets@, match_flags_of(assets@, variant.pattern@)) {
            Some(asset) => r == Ok::<ReleaseAsset, InstallError>(asset),
            None => r == Err::<ReleaseAsset, InstallError>(InstallError::NoMatchingAsset),
        },
{
    let flags = match_flags(assets, variant);
    pick_flagged(assets, &flags)
}

/// Whether `r` is the selection for `variants` among `assets`: for each
/// variant, in their order, the asset picked for it, or `NoMatchingAsset`
/// where some variant has none.
pub open spec fn selected(
    assets: Seq<ReleaseAsset>,
    variants: Seq<VariantSelector>,
    r: Result<Vec<ReleaseAsset>, InstallError>,
) -> bool {
    match r {
        Ok(chosen) => {
            &&& chosen@.len() == variants.len()
            &&& forall|k: int|
                0 <= k < variants.len() ==> picked(
                    assets,
                    match_flags_of(assets, #[trigger] variants[k].pattern@),
                ) == Some(chosen@[k])
        },
        Err(e) => {
            &&& e == InstallError::NoMatchingAsset
            &&& exists|k: int|
                0 <= k < variants.len() && picked(
                    assets,
                    match_flags_of(assets, #[trigger] variants[k].pattern@),
                ) is None
        },
    }
}

/// The assets to install for `variants`, one for each and in their order, or
/// `NoMatchingAsset` as soon as one variant has no asset.
pub fn select_assets(assets: &Vec<ReleaseAsset>, variants: &Vec<VariantSelector>) -> (r: Result<
    Vec<ReleaseAsset>,
    InstallError,
>)
    ensures
        selected(assets@, variants@, r),
{
    let mut chosen: Vec<ReleaseAsset> = Vec::new();
    let mut k: usize = 0;
    while k < variants.len()
        invariant
            k <= variants.len(),
            chosen@.len() == k,
            forall|m: int|
                0 <= m < k ==> picked(
                    assets@,
                    match_flags_of(assets@, #[trigger] variants@[m].pattern@),
                ) == Some(chosen@[m]),
        decreases variants.len() - k,
    {
        match select_asset(assets, &variants[k]) {
            Ok(asset) => {
                chosen.push(asset);
            },
            Err(e) => {
                assert(picked(assets@, match_flags_of(assets@, variants@[k as int].pattern@))
                    is None);
                return Err(InstallError::NoMatchingAsset);
            },
        }
        k += 1;
    }
    Ok(chosen)
}

/// The assets of a release, from the asset list as the feed gave it, in
/// feed order. Metadata without an asset list (`None`), or with an entry
/// that lacks a name, an address or a size, is malformed: `ParseError`.
pub fn read_feed(entries: &Option<Vec<FeedAsset>>) -> (r: Result<Vec<ReleaseAsset>, InstallError>)
    ensures
        match *entries {
            Some(list) => if feed_complete(list@) {
                r is Ok && r->Ok_0@ == feed_assets(list@)
            } else {
                r == Err::<Vec<ReleaseAsset>, InstallError>(InstallError::ParseError)
            },
            None => r == Err::<Vec<ReleaseAsset>, InstallError>(InstallError::ParseError),
        },
{
    match entries {
        None => Err(InstallError::ParseError),
        Some(list) => {
            let mut assets: Vec<ReleaseAsset> = Vec::new();
            let mut i: usize = 0;
            while i < list.len()
                invariant
                    *entries == Some(*list),
                    i <= list@.len(),
                    assets@.len() == i,
                    forall|k: int|
                        0 <= k < i ==> (#[trigger] list@[k]).complete() && assets@[k]
                            == list@[k].asset(),
                decreases list.len() - i,
            {
                let entry = &list[i];
                match (&entry.name, &entry.download_url, entry.size) {
                    (Some(name), Some(download_url), Some(size)) => {
                        assets.push(
                            ReleaseAsset {
                                name: name.clone(),
                                download_url: download_url.clone(),
                                size,
                            },
                        );
                    },
                    _ => {
                        assert(!list@[i as int].complete());
                        return Err(InstallError::ParseError);
                    },
                }
                i += 1;
            }
            assert(assets@ =~= feed_assets(list@));
            Ok(assets)
        },
    }
}

/// The resolver's answer, given what fetching the feed gave: a failure to
/// fetch or to read the feed is passed on as it is; of a release that was
/// read, the assets for `variants`, one for each and in their order, or
/// `NoMatchingAsset` where a variant has none.
pub fn resolve(
    fetched: Result<Option<Vec<FeedAsset>>, InstallError>,
    variants: &Vec<VariantSelector>,
) -> (r: Result<Vec<ReleaseAsset>, InstallError>)
    ensures
        match fetched {
            Err(e) => r == Err::<Vec<ReleaseAsset>, InstallError>(e),
            Ok(None) => r == Err::<Vec<ReleaseAsset>, InstallError>(InstallError::ParseError),
            Ok(Some(list)) => if feed_complete(list@) {
                selected(feed_assets(list@), variants@, r)
            } else {
                r == Err::<Vec<ReleaseAsset>, InstallError>(InstallError::ParseError)
            },
        },
{
    match fetched {
        Err(e) => Err(e),
        Ok(entries) => match read_feed(&entries) {
            Err(e) => Err(e),
            Ok(assets) => select_assets(&assets, variants),
        },
    }
}

/// Whether every entry of the feed's asset list has every field.
pub open spec fn feed_complete(list: Seq<FeedAsset>) -> bool {
    forall|i: int| 0 <= i < list.len() ==> (#[trigger] list[i]).complete()
}

/// The assets that complete feed entries describe, in feed order.
pub open spec fn feed_assets(list: Seq<FeedAsset>) -> Seq<ReleaseAsset> {
    Seq::new(list.len(), |i: int| list[i].asset())
}

/// The address of the feed entry that describes the latest release of
/// `repo`, a repository of `org`.
pub fn latest_release_url(org: &str, repo: &str) -> (url: String)
    ensures
        url@ == "https://api.github.com/repos/"@ + org@ + "/"@ + repo@ + "/releases/latest"@,
{
    let mut url = String::from_str("https://api.github.com/repos/");
    url.append(org);
    url.append("/");
    url.append(repo);
    url.append("/releases/latest");
    url
}

} // verus!
