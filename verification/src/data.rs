//! The data model: server capabilities, normalized search parameters,
//! torrent records, host configuration, and the response/error types.

use vstd::prelude::*;

verus! {

/// The maximum and default for the `limit` parameter of search queries.
///
/// `max` is the hard ceiling on the number of items a search may return;
/// `default` is used when a request names no limit. A configuration with
/// `default > max` is still usable: normalization clamps to `max`.
#[derive(Debug, Clone, PartialEq, Eq)]
pub struct Limits {
    /// The maximum number of entries that can be listed in a search query
    pub max: u32,
    /// The default number of entries to be listed in a search query
    pub default: u32,
}

/// Describes one search mode (`search`, `tv-search`, `movie-search`,
/// `audio-search` or `book-search`): whether it is available and which
/// request parameters it supports. Purely descriptive; nothing is
/// enforced against incoming requests.
#[derive(Debug, Clone, PartialEq, Eq)]
pub struct SearchInfo {
    /// The mode tag; one of `search`, `tv-search`, `movie-search`,
    /// `audio-search`, `book-search`
    pub search_type: String,
    /// Whether this search mode is available
    pub available: bool,
    /// The names of the parameters this mode supports
    pub supported_params: Vec<String>,
}

/// A subcategory of a [`Category`].
#[derive(Debug, Clone, PartialEq, Eq)]
pub struct Subcategory {
    /// The numeric id of the subcategory, unique within its category
    pub id: u32,
    /// The name of the subcategory
    pub name: String,
}

/// A search category with its ordered subcategories.
#[derive(Debug, Clone, PartialEq, Eq)]
pub struct Category {
    /// The numeric id of the category, unique among categories
    pub id: u32,
    /// The name of the category
    pub name: String,
    /// The subcategories of this category, in declaration order
    pub subcategories: Vec<Subcategory>,
}

/// A genre the server knows, tied to a category by id.
#[derive(Debug, Clone, PartialEq, Eq)]
pub struct Genre {
    /// The numeric id of the genre
    pub id: u32,
    /// The id of the category this genre belongs to (referential only)
    pub category_id: u32,
    /// The name of the genre
    pub name: String,
}

/// A tag torrents may carry, with a human-readable description.
#[derive(Debug, Clone, PartialEq, Eq)]
pub struct Tag {
    /// The name of the tag, unique among tags
    pub name: String,
    /// The description of the tag
    pub description: String,
}

/// The server's static capability declarations, rendered by the
/// capabilities encoder and consulted by the parameter normalizer.
///
/// `server_info` is a free-form key/value mapping of descriptive fields
/// (`title`, `email`, `image`, `version`, ...), kept as an ordered list
/// of pairs; any subset may be absent.
#[derive(Debug, Clone, PartialEq, Eq)]
pub struct Caps {
    /// Descriptive server fields, each a key/value pair; optional
    pub server_info: Option<Vec<(String, String)>>,
    /// The max and default number of items returned by queries
    pub limits: Limits,
    /// One entry per supported search mode, in declaration order
    pub searching: Vec<SearchInfo>,
    /// The server's categories, in declaration order
    pub categories: Vec<Category>,
    /// The server's genres; optional
    pub genres: Option<Vec<Genre>>,
    /// The tags torrents may carry; optional
    pub tags: Option<Vec<Tag>>,
}

/// The host's search hook: invoked for every authorized search-mode
/// request with the normalized parameters, it returns the matching
/// torrent records or a host-defined error string.
///
/// Implementations must be safe to call concurrently from several
/// in-flight requests; nothing in this layer serializes them.
pub trait SearchProvider {
    /// Performs the search described by `parameters`.
    fn search(&self, parameters: SearchParameters) -> Result<Vec<Torrent>, String>;
}

/// The host's credential check: given the `apikey` of a request, decides
/// whether the request may proceed. An `Err` is a failure of the check
/// itself, distinct from a denial, and is surfaced as an internal error.
///
/// Implementations must be safe to call concurrently from several
/// in-flight requests.
pub trait AuthProvider {
    /// Checks the given credential.
    fn check(&self, apikey: String) -> Result<bool, String>;
}

/// The host configuration: the capability declarations, the search hook,
/// and the optional credential check. Constructed once by the host and
/// treated as read-only shared state for the life of the server.
pub struct Config<S, A> {
    /// The function used for all search modes
    pub search: S,
    /// The credential check; `None` means no authorization is required
    pub auth: Option<A>,
    /// The capabilities of the indexer
    pub caps: Caps,
}

/// A normalized search query, as handed to the host's search hook.
/// Produced by [`crate::api::SearchForm::to_parameters`]; its `limit` is
/// always in `1 ..= caps.limits.max` (for a positive `max`).
#[derive(Debug, Clone, PartialEq, Eq)]
pub struct SearchParameters {
    /// The mode tag; one of `search`, `tv-search`, `movie-search`,
    /// `audio-search`, `book-search`
    pub search_type: String,
    /// The free-text query, if any
    pub q: Option<String>,
    /// The credential sent with the request, if any
    pub apikey: Option<String>,
    /// The numeric category ids the search is restricted to, if given
    pub categories: Option<Vec<u32>>,
    /// The extended-attribute names requested, if given
    pub attributes: Option<Vec<String>>,
    /// Whether *all* extended attributes were requested; overrules
    /// `attributes` when set
    pub extended_attrs: Option<bool>,
    /// How many items to skip in the results, if given
    pub offset: Option<u32>,
    /// The maximum number of items to return, already clamped
    pub limit: u32,
}

/// One torrent record, as returned by the host's search hook.
///
/// At least one of `torrent_file_url` and `magnet_uri` must be present:
/// a record with neither has no retrievable payload, and the feed
/// encoder reports it as [`TorznabError::MalformedLocator`].
#[derive(Debug, Clone, PartialEq, Eq)]
pub struct Torrent {
    /// The title of the torrent
    pub title: String,
    /// The description of the torrent; optional
    pub description: Option<String>,
    /// The size of the torrent, in bytes
    pub size: u64,
    /// The ids of the (sub)categories this torrent falls under
    pub category_ids: Vec<u32>,
    /// The URL of the `.torrent` file
    pub torrent_file_url: Option<String>,
    /// The magnet URI of the torrent
    pub magnet_uri: Option<String>,
    /// Any further attributes, each a key/value pair; a `link` key names
    /// the webpage of the torrent and takes precedence as its locator
    pub other_attributes: Option<Vec<(String, String)>>,
}

/// What the feed encoder can fail with.
#[derive(Debug, Clone, PartialEq, Eq)]
pub enum TorznabError {
    /// A torrent record carries neither a `.torrent` file URL nor a
    /// magnet URI; the record has no retrievable payload and the whole
    /// response is refused rather than emitting a broken entry.
    MalformedLocator,
}

impl TorznabError {
    /// A short diagnostic line for this error.
    pub fn message(&self) -> (r: String)
        ensures
            r@ == "torrent record has neither a .torrent file URL nor a magnet URI"@,
    {
        "torrent record has neither a .torrent file URL nor a magnet URI".to_owned()
    }
}

/// An HTTP-level outcome: a status code and an XML (or diagnostic) body.
/// The host's HTTP layer sends it back verbatim.
#[derive(Debug, Clone, PartialEq, Eq)]
pub struct Response {
    /// The HTTP status code: 200, 401 or 500
    pub status: u16,
    /// The response body
    pub body: String,
}

} // verus!
