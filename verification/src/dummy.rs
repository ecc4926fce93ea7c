//! A bare-minimum host configuration, for exercising the API: a search
//! hook that returns one fixed record and a credential check that
//! accepts every key.

use crate::data::{AuthProvider, Caps, Category, Config, Genre, Limits, SearchInfo,
    SearchParameters, SearchProvider, Subcategory, Tag, Torrent};
use vstd::prelude::*;

verus! {

/// A search hook that returns the one record of [`dummy_search_func`].
pub struct DummySearch;

/// A credential check that accepts every key.
pub struct DummyAuth;

/// Returns one fixed, well-formed torrent record, whatever the query.
pub fn dummy_search_func(_a: SearchParameters) -> (r: Result<Vec<Torrent>, String>)
    ensures
        r is Ok,
        r->Ok_0@.len() == 1,
        r->Ok_0@[0].title@ == "totally normal torrent"@,
        r->Ok_0@[0].description is None,
        r->Ok_0@[0].size == 9872349573u64,
        r->Ok_0@[0].category_ids@ == seq![1010u32],
        r->Ok_0@[0].torrent_file_url is Some && r->Ok_0@[0].torrent_file_url->0@
            == "http://localhost/totally-normal.torrent"@,
        r->Ok_0@[0].magnet_uri is Some && r->Ok_0@[0].magnet_uri->0@
            == "magnet:?xt=urn:btih:blahblahblahdothechachacha"@,
        r->Ok_0@[0].other_attributes is None,
{
    let mut category_ids: Vec<u32> = Vec::new();
    category_ids.push(1010);
    proof {
        assert(category_ids@ =~= seq![1010u32]);
    }
    let mut torrents: Vec<Torrent> = Vec::new();
    torrents.push(
        Torrent {
            title: "totally normal torrent".to_owned(),
            description: None,
            size: 9872349573,
            category_ids,
            torrent_file_url: Some("http://localhost/totally-normal.torrent".to_owned()),
            magnet_uri: Some("magnet:?xt=urn:btih:blahblahblahdothechachacha".to_owned()),
            other_attributes: None,
        },
    );
    Ok(torrents)
}

/// Accepts every credential.
pub fn dummy_auth_func(_a: String) -> (r: Result<bool, String>)
    ensures
        r == Result::<bool, String>::Ok(true),
{
    Ok(true)
}

impl SearchProvider for DummySearch {
    fn search(&self, parameters: SearchParameters) -> Result<Vec<Torrent>, String> {
        dummy_search_func(parameters)
    }
}

impl AuthProvider for DummyAuth {
    fn check(&self, apikey: String) -> Result<bool, String> {
        dummy_auth_func(apikey)
    }
}

/// Creates a bare-minimum configuration: one search mode, one category
/// with one subcategory, one genre, one tag, descriptive server info,
/// and limits of 100/20, with the dummy hooks installed.
pub fn create_empty_config() -> (c: Config<DummySearch, DummyAuth>)
    ensures
        c.auth is Some,
        c.caps.limits == (Limits { max: 100, default: 20 }),
        c.caps.server_info is Some,
        c.caps.server_info->0@.len() == 3,
        c.caps.server_info->0@[0].0@ == "title"@,
        c.caps.server_info->0@[0].1@ == "Test Torznab server"@,
        c.caps.server_info->0@[1].0@ == "email"@,
        c.caps.server_info->0@[1].1@ == "test@example.com"@,
        c.caps.server_info->0@[2].0@ == "version"@,
        c.caps.server_info->0@[2].1@ == "1.0"@,
        c.caps.searching@.len() == 1,
        c.caps.searching@[0].search_type@ == "search"@,
        c.caps.searching@[0].available == true,
        c.caps.searching@[0].supported_params@.len() == 1,
        c.caps.searching@[0].supported_params@[0]@ == "q"@,
        c.caps.categories@.len() == 1,
        c.caps.categories@[0].id == 1000,
        c.caps.categories@[0].name@ == "a"@,
        c.caps.categories@[0].subcategories@.len() == 1,
        c.caps.categories@[0].subcategories@[0].id == 1010,
        c.caps.categories@[0].subcategories@[0].name@ == "b"@,
        c.caps.genres is Some,
        c.caps.genres->0@.len() == 1,
        c.caps.genres->0@[0].id == 1,
        c.caps.genres->0@[0].category_id == 1000,
        c.caps.genres->0@[0].name@ == "c"@,
        c.caps.tags is Some,
        c.caps.tags->0@.len() == 1,
        c.caps.tags->0@[0].name@ == "a"@,
        c.caps.tags->0@[0].description@ == "b"@,
{
    let mut supported_params: Vec<String> = Vec::new();
    supported_params.push("q".to_owned());
    let mut searching: Vec<SearchInfo> = Vec::new();
    searching.push(
        SearchInfo { search_type: "search".to_owned(), available: true, supported_params },
    );

    let mut subcategories: Vec<Subcategory> = Vec::new();
    subcategories.push(Subcategory { id: 1010, name: "b".to_owned() });
    let mut categories: Vec<Category> = Vec::new();
    categories.push(Category { id: 1000, name: "a".to_owned(), subcategories });

    let mut genres: Vec<Genre> = Vec::new();
    genres.push(Genre { id: 1, category_id: 1000, name: "c".to_owned() });

    let mut tags: Vec<Tag> = Vec::new();
    tags.push(Tag { name: "a".to_owned(), description: "b".to_owned() });

    let mut server_info: Vec<(String, String)> = Vec::new();
    server_info.push(("title".to_owned(), "Test Torznab server".to_owned()));
    server_info.push(("email".to_owned(), "test@example.com".to_owned()));
    server_info.push(("version".to_owned(), "1.0".to_owned()));

    Config {
        search: DummySearch,
        auth: Some(DummyAuth),
        caps: Caps {
            server_info: Some(server_info),
            limits: Limits { max: 100, default: 20 },
            searching,
            categories,
            genres: Some(genres),
            tags: Some(tags),
        },
    }
}

} // verus!
