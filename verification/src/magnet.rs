//! The parts of a magnet link and its textual form.

use magnet_url::Magnet;
use vstd::prelude::*;

verus! {

/// The parts of a magnet link, each as it stands in the link (values are
/// still percent-encoded).
#[derive(Clone, Debug, PartialEq, Eq)]
pub struct MagnetDescriptor {
    /// Display name (`dn`).
    pub display_name: Option<String>,
    /// Kind of hash used in the exact topic, such as `btih`.
    pub hash_type: Option<String>,
    /// Exact topic (`xt`): the hash itself.
    pub exact_topic: Option<String>,
    /// Exact length (`xl`): total size in bytes.
    pub size: Option<u64>,
    /// Exact source (`xs`).
    pub exact_source: Option<String>,
    /// Tracker addresses (`tr`), in link order.
    pub trackers: Vec<String>,
    /// Keyword topic (`kt`).
    pub keyword_topic: Option<String>,
    /// Web seed (`ws`).
    pub web_seed: Option<String>,
    /// Acceptable source (`as`).
    pub acceptable_source: Option<String>,
    /// Manifest topic (`mt`).
    pub manifest_topic: Option<String>,
}

/// What a [`MagnetDescriptor`] holds, as mathematical values.
pub struct MagnetView {
    pub display_name: Option<Seq<char>>,
    pub hash_type: Option<Seq<char>>,
    pub exact_topic: Option<Seq<char>>,
    pub size: Option<u64>,
    pub exact_source: Option<Seq<char>>,
    pub trackers: Seq<Seq<char>>,
    pub keyword_topic: Option<Seq<char>>,
    pub web_seed: Option<Seq<char>>,
    pub acceptable_source: Option<Seq<char>>,
    pub manifest_topic: Option<Seq<char>>,
}

impl View for MagnetDescriptor {
    type V = MagnetView;

    open spec fn view(&self) -> MagnetView {
        MagnetView {
            display_name: self.display_name.deep_view(),
            hash_type: self.hash_type.deep_view(),
            exact_topic: self.exact_topic.deep_view(),
            size: self.size,
            exact_source: self.exact_source.deep_view(),
            trackers: self.trackers.deep_view(),
            keyword_topic: self.keyword_topic.deep_view(),
            web_seed: self.web_seed.deep_view(),
            acceptable_source: self.acceptable_source.deep_view(),
            manifest_topic: self.manifest_topic.deep_view(),
        }
    }
}

/// The magnet URI that `magnet_url` writes for a link with these parts.
pub uninterp spec fn magnet_uri(parts: MagnetView) -> Seq<char>;

/// The scheme prefix every magnet URI starts with.
pub open spec fn magnet_prefix() -> Seq<char> {
    "magnet:?"@
}

/// Calls `Display` for `magnet_url::Magnet` (through `to_string`) on a
/// `Magnet` whose ten fields are copies of the descriptor's. The text that
/// comes back is a function of those fields alone and is named
/// [`magnet_uri`]; the one thing claimed of it is that it begins with
/// `magnet:?`, the literal the formatter starts from.
#[verifier::external_body]
pub(crate) fn write_magnet(magnet: &MagnetDescriptor) -> (text: String)
    ensures
        text@ == magnet_uri(magnet@),
        text@.len() >= magnet_prefix().len(),
        text@.subrange(0, magnet_prefix().len() as int) == magnet_prefix(),
{
    let link = Magnet {
        dn: magnet.display_name.clone(),
        hash_type: magnet.hash_type.clone(),
        xt: magnet.exact_topic.clone(),
        xl: magnet.size,
        xs: magnet.exact_source.clone(),
        tr: magnet.trackers.clone(),
        kt: magnet.keyword_topic.clone(),
        ws: magnet.web_seed.clone(),
        acceptable_source: magnet.acceptable_source.clone(),
        mt: magnet.manifest_topic.clone(),
    };
    link.to_string()
}

} // verus!
