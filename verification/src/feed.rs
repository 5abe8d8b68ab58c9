use vstd::prelude::*;
use crate::error::{ErrorView, UpdateError};
use crate::json::{
    elements, elements_of, error_text, member, member_of, parse_bytes, parsed_bytes, text,
    text_member, wording_of,
};
use crate::text::{
    contains, contains_text, lemma_strip_leading, lowercase, lowercase_of, strip_leading,
    trim_leading,
};

verus! {

/// What a feed response holds under its version tag.
#[derive(Debug, Clone, PartialEq, Eq)]
pub enum TagField {
    /// The response has no such member.
    Missing,
    /// The member is there and is no string.
    NotText,
    /// The tag as the feed gives it.
    Text(String),
}

/// One downloadable file of a release, as the feed lists it. A field that
/// the feed leaves out, or fills with something that is no string, is
/// absent.
#[derive(Debug, Clone, PartialEq, Eq)]
pub struct FeedAsset {
    pub name: Option<String>,
    pub browser_download_url: Option<String>,
}

/// What the update check reads of a feed response. A response without a
/// list of assets has none.
#[derive(Debug, Clone, PartialEq, Eq)]
pub struct FeedResponse {
    pub tag_name: TagField,
    pub body: Option<String>,
    pub assets: Vec<FeedAsset>,
}

/// The latest release as the update check needs it. `asset_url` is empty
/// where the release has nothing to download for the platform.
#[derive(Debug, Clone, PartialEq, Eq)]
pub struct ReleaseDescriptor {
    pub version: String,
    pub notes: String,
    pub asset_url: String,
}

/// The mathematical value of a [`TagField`].
pub enum TagView {
    Missing,
    NotText,
    Text(Seq<char>),
}

/// The mathematical value of a [`FeedAsset`].
pub struct AssetView {
    pub name: Option<Seq<char>>,
    pub url: Option<Seq<char>>,
}

/// The mathematical value of a [`FeedResponse`].
pub struct FeedView {
    pub tag_name: TagView,
    pub body: Option<Seq<char>>,
    pub assets: Seq<AssetView>,
}

/// The mathematical value of a [`ReleaseDescriptor`].
pub struct ReleaseView {
    pub version: Seq<char>,
    pub notes: Seq<char>,
    pub asset_url: Seq<char>,
}

impl View for TagField {
    type V = TagView;

    open spec fn view(&self) -> TagView {
        match self {
            TagField::Missing => TagView::Missing,
            TagField::NotText => TagView::NotText,
            TagField::Text(tag) => TagView::Text(tag@),
        }
    }
}

impl View for FeedAsset {
    type V = AssetView;

    open spec fn view(&self) -> AssetView {
        AssetView { name: self.name.deep_view(), url: self.browser_download_url.deep_view() }
    }
}

impl View for FeedResponse {
    type V = FeedView;

    open spec fn view(&self) -> FeedView {
        FeedView {
            tag_name: self.tag_name@,
            body: self.body.deep_view(),
            assets: self.assets@.map_values(|asset: FeedAsset| asset@),
        }
    }
}

impl View for ReleaseDescriptor {
    type V = ReleaseView;

    open spec fn view(&self) -> ReleaseView {
        ReleaseView { version: self.version@, notes: self.notes@, asset_url: self.asset_url@ }
    }
}

/// The version reported for a tag that is no string.
pub open spec fn unknown_version() -> Seq<char> {
    "unknown"@
}

/// The notes reported for a release that has none.
pub open spec fn default_notes() -> Seq<char> {
    "No release notes available."@
}

/// An asset is built for a platform if its name, in lowercase, holds the
/// platform's keyword. An asset without a name is built for none.
pub open spec fn matches_platform(asset: AssetView, fragment: Seq<char>) -> bool {
    match asset.name {
        Some(name) => contains(lowercase_of(name), fragment),
        None => false,
    }
}

/// The first asset of the list that is built for the platform.
pub open spec fn first_match(assets: Seq<AssetView>, fragment: Seq<char>) -> Option<AssetView>
    decreases assets.len(),
{
    if assets.len() == 0 {
        None
    } else if matches_platform(assets[0], fragment) {
        Some(assets[0])
    } else {
        first_match(assets.drop_first(), fragment)
    }
}

/// The address of the first asset that is built for the platform; empty
/// where there is no such asset or it has no address.
pub open spec fn download_url(assets: Seq<AssetView>, fragment: Seq<char>) -> Seq<char> {
    match first_match(assets, fragment) {
        Some(AssetView { url: Some(url), .. }) => url,
        _ => Seq::empty(),
    }
}

/// The release that a feed response describes for the platform of
/// `fragment`. A response without a tag describes none. The version is the
/// tag without the `v`s at its start; notes that are missing are replaced
/// by a fixed sentence.
pub open spec fn release_of(feed: FeedView, fragment: Seq<char>) -> Result<
    ReleaseView,
    ErrorView,
> {
    match feed.tag_name {
        TagView::Missing => Err(ErrorView::NoReleaseFound),
        tag => Ok(
            ReleaseView {
                version: match tag {
                    TagView::Text(given) => strip_leading(given, 'v'),
                    _ => unknown_version(),
                },
                notes: match feed.body {
                    Some(body) => body,
                    None => default_notes(),
                },
                asset_url: download_url(feed.assets, fragment),
            },
        ),
    }
}

/// The asset that a JSON value stands for in a feed's list.
pub open spec fn asset_of(value: serde_json::Value) -> AssetView {
    AssetView {
        name: text_member(value, "name"@),
        url: text_member(value, "browser_download_url"@),
    }
}

/// The assets that a feed document lists: those of its member `assets`
/// where that is an array, none otherwise.
pub open spec fn assets_of(document: serde_json::Value) -> Seq<AssetView> {
    match member_of(document, "assets"@) {
        Some(listed) => match elements_of(listed) {
            Some(items) => items.map_values(|item: serde_json::Value| asset_of(item)),
            None => Seq::empty(),
        },
        None => Seq::empty(),
    }
}

/// The tag that a feed document holds.
pub open spec fn tag_of(document: serde_json::Value) -> TagView {
    match member_of(document, "tag_name"@) {
        None => TagView::Missing,
        Some(_) => match text_member(document, "tag_name"@) {
            Some(tag) => TagView::Text(tag),
            None => TagView::NotText,
        },
    }
}

/// What the update check reads of a feed document.
pub open spec fn feed_of(document: serde_json::Value) -> FeedView {
    FeedView {
        tag_name: tag_of(document),
        body: text_member(document, "body"@),
        assets: assets_of(document),
    }
}

/// The view of a release or of the error in its place.
pub open spec fn release_result_view(outcome: Result<ReleaseDescriptor, UpdateError>) -> Result<
    ReleaseView,
    ErrorView,
> {
    match outcome {
        Ok(release) => Ok(release@),
        Err(error) => Err(error@),
    }
}

/// What follows the first asset built for the platform is of no account:
/// the chosen asset is the one at the least position whose name matches.
pub proof fn lemma_first_match(assets: Seq<AssetView>, fragment: Seq<char>)
    ensures
        match first_match(assets, fragment) {
            Some(asset) => exists|at: int|
                0 <= at < assets.len() && #[trigger] assets[at] == asset && matches_platform(
                    asset,
                    fragment,
                ) && forall|before: int|
                    0 <= before < at ==> !matches_platform(#[trigger] assets[before], fragment),
            None => forall|at: int|
                0 <= at < assets.len() ==> !matches_platform(#[trigger] assets[at], fragment),
        },
    decreases assets.len(),
{
    if assets.len() > 0 && !matches_platform(assets[0], fragment) {
        let rest = assets.drop_first();
        lemma_first_match(rest, fragment);
        match first_match(rest, fragment) {
            Some(asset) => {
                let at = choose|at: int|
                    0 <= at < rest.len() && #[trigger] rest[at] == asset && matches_platform(
                        asset,
                        fragment,
                    ) && forall|before: int|
                        0 <= before < at ==> !matches_platform(#[trigger] rest[before], fragment);
                assert forall|before: int| 0 <= before < at + 1 implies !matches_platform(
                    #[trigger] assets[before],
                    fragment,
                ) by {
                    if before > 0 {
                        assert(assets[before] == rest[before - 1]);
                    }
                }
            },
            None => {
                assert forall|at: int| 0 <= at < assets.len() implies !matches_platform(
                    #[trigger] assets[at],
                    fragment,
                ) by {
                    if at > 0 {
                        assert(assets[at] == rest[at - 1]);
                    }
                }
            },
        }
    }
}

/// A response without a version tag describes no release, whatever else
/// it holds and whatever the platform.
pub proof fn lemma_missing_tag_is_no_release(feed: FeedView, fragment: Seq<char>)
    requires
        feed.tag_name is Missing,
    ensures
        release_of(feed, fragment) == Err::<ReleaseView, ErrorView>(ErrorView::NoReleaseFound),
{
}

/// The version of a release is its tag without the `v`s at the start:
/// the end of the tag from the first character on that is no `v`. A `v`
/// further inside stays.
pub proof fn lemma_version_is_stripped_tag(feed: FeedView, fragment: Seq<char>)
    requires
        feed.tag_name is Text,
    ensures
        release_of(feed, fragment) is Ok,
        ({
            let tag = feed.tag_name->Text_0;
            let version = release_of(feed, fragment)->Ok_0.version;
            &&& version.len() <= tag.len()
            &&& version == tag.skip(tag.len() - version.len())
            &&& forall|at: int| 0 <= at < tag.len() - version.len() ==> tag[at] == 'v'
            &&& version.len() > 0 ==> version[0] != 'v'
        }),
{
    lemma_strip_leading(feed.tag_name->Text_0, 'v');
}

/// The choice of an asset does not see the case of its name: two assets
/// whose names are the same in lowercase are built for the same
/// platforms.
pub proof fn lemma_selection_ignores_case(
    first: AssetView,
    second: AssetView,
    fragment: Seq<char>,
)
    requires
        first.name is Some,
        second.name is Some,
        lowercase_of(first.name->0) == lowercase_of(second.name->0),
    ensures
        matches_platform(first, fragment) == matches_platform(second, fragment),
{
}

/// Where no asset's name holds the platform's keyword, the release has an
/// empty download address.
pub proof fn lemma_no_match_gives_empty_url(assets: Seq<AssetView>, fragment: Seq<char>)
    requires
        forall|at: int| 0 <= at < assets.len() ==> !matches_platform(assets[at], fragment),
    ensures
        download_url(assets, fragment) == Seq::<char>::empty(),
{
    lemma_first_match(assets, fragment);
}

fn is_for_platform(asset: &FeedAsset, fragment: &str) -> (matching: bool)
    ensures
        matching == matches_platform(asset@, fragment@),
{
    match &asset.name {
        Some(name) => {
            let lowered = lowercase(name.as_str());
            contains_text(lowered.as_str(), fragment)
        },
        None => false,
    }
}

/// The address to download for the platform of `fragment`: that of the
/// first asset whose name, in lowercase, holds `fragment`.
pub fn select_asset_url(assets: &Vec<FeedAsset>, fragment: &str) -> (url: String)
    ensures
        url@ == download_url(assets@.map_values(|asset: FeedAsset| asset@), fragment@),
{
    let ghost views = assets@.map_values(|asset: FeedAsset| asset@);
    let mut at: usize = 0;
    proof {
        assert(views.skip(0) =~= views);
    }
    while at < assets.len()
        invariant
            at <= assets.len(),
            views == assets@.map_values(|asset: FeedAsset| asset@),
            first_match(views, fragment@) == first_match(views.skip(at as int), fragment@),
        decreases assets.len() - at,
    {
        proof {
            assert(views.skip(at as int).drop_first() =~= views.skip(at + 1));
        }
        if is_for_platform(&assets[at], fragment) {
            return match &assets[at].browser_download_url {
                Some(url) => url.clone(),
                None => String::new(),
            };
        }
        at += 1;
    }
    String::new()
}

/// Describes the latest release from what the feed answered, for the
/// platform whose keyword is `fragment`.
pub fn describe_release(feed: &FeedResponse, fragment: &str) -> (outcome: Result<
    ReleaseDescriptor,
    UpdateError,
>)
    ensures
        release_result_view(outcome) == release_of(feed@, fragment@),
{
    let version = match &feed.tag_name {
        TagField::Missing => {
            return Err(UpdateError::NoReleaseFound);
        },
        TagField::NotText => "unknown".to_owned(),
        TagField::Text(tag) => trim_leading(tag.as_str(), 'v'),
    };
    let notes = match &feed.body {
        Some(body) => body.clone(),
        None => "No release notes available.".to_owned(),
    };
    let asset_url = select_asset_url(&feed.assets, fragment);
    Ok(ReleaseDescriptor { version, notes, asset_url })
}

fn text_under(value: &serde_json::Value, key: &str) -> (found: Option<String>)
    ensures
        found.deep_view() == text_member(*value, key@),
{
    match member(value, key) {
        Some(inner) => match text(inner) {
            Some(characters) => Some(characters.to_owned()),
            None => None,
        },
        None => None,
    }
}

fn read_assets(document: &serde_json::Value) -> (assets: Vec<FeedAsset>)
    ensures
        assets@.map_values(|asset: FeedAsset| asset@) == assets_of(*document),
{
    let mut assets: Vec<FeedAsset> = Vec::new();
    let items = match member(document, "assets") {
        Some(listed) => match elements(listed) {
            Some(items) => items,
            None => {
                return assets;
            },
        },
        None => {
            return assets;
        },
    };
    let mut at: usize = 0;
    while at < items.len()
        invariant
            at <= items.len(),
            assets@.len() == at,
            forall|k: int| 0 <= k < at ==> (#[trigger] assets@[k])@ == asset_of(items@[k]),
        decreases items.len() - at,
    {
        let name = text_under(&items[at], "name");
        let browser_download_url = text_under(&items[at], "browser_download_url");
        assets.push(FeedAsset { name, browser_download_url });
        at += 1;
    }
    proof {
        assert(assets@.map_values(|asset: FeedAsset| asset@) =~= items@.map_values(
            |item: serde_json::Value| asset_of(item),
        ));
    }
    assets
}

/// Reads out of a feed document what the update check needs.
pub(crate) fn read_feed(document: &serde_json::Value) -> (feed: FeedResponse)
    ensures
        feed@ == feed_of(*document),
{
    let tag_name = match member(document, "tag_name") {
        None => TagField::Missing,
        Some(_) => match text_under(document, "tag_name") {
            Some(tag) => TagField::Text(tag),
            None => TagField::NotText,
        },
    };
    let body = text_under(document, "body");
    let assets = read_assets(document);
    FeedResponse { tag_name, body, assets }
}

/// What the feed's answer `body` says of the latest release, for the
/// platform whose keyword is `fragment`. An answer that is no JSON
/// document is a failure of the transport, told in the parser's words; any
/// document is read, and all that is asked of it is a version tag.
pub open spec fn latest_release_of(body: Seq<u8>, fragment: Seq<char>) -> Result<
    ReleaseView,
    ErrorView,
> {
    match parsed_bytes(body) {
        Ok(document) => release_of(feed_of(document), fragment),
        Err(error) => Err(ErrorView::Network(wording_of(error))),
    }
}

/// Describes the latest release from the bytes that the feed answered
/// with, for the platform whose keyword is `fragment`.
pub fn latest_release(body: &[u8], fragment: &str) -> (outcome: Result<
    ReleaseDescriptor,
    UpdateError,
>)
    ensures
        release_result_view(outcome) == latest_release_of(body@, fragment@),
{
    match parse_bytes(body) {
        Ok(document) => {
            let feed = read_feed(&document);
            describe_release(&feed, fragment)
        },
        Err(error) => Err(UpdateError::Network(error_text(&error))),
    }
}

} // verus!
