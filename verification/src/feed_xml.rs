//! The search-feed encoder: renders a list of torrent records as a
//! Torznab RSS document, applying the locator-resolution policy per
//! item. A record with neither a `.torrent` file URL nor a magnet URI
//! is a contract violation by the host's search hook: the encoder
//! refuses the whole response instead of emitting a broken entry, and
//! no partial document is returned.

use crate::data::{Caps, Torrent, TorznabError};
use crate::text::{dec_digits, u32_to_dec, u64_to_dec};
use crate::xml_emit::{escape_text, escaped_text, push_attr, push_text_elem, spec_attr,
    spec_text_elem};
use vstd::prelude::*;
use vstd::string::*;

verus! {

/// The value of the first pair of `pairs` whose key is `key`.
pub open spec fn spec_lookup(pairs: Seq<(String, String)>, key: Seq<char>) -> Option<Seq<char>>
    decreases pairs.len(),
{
    if pairs.len() == 0 {
        None
    } else if pairs.first().0@ == key {
        Some(pairs.first().1@)
    } else {
        spec_lookup(pairs.drop_first(), key)
    }
}

/// The webpage link of a torrent, when its attribute map names one.
pub open spec fn spec_link_attr(t: Torrent) -> Option<Seq<char>> {
    match t.other_attributes {
        Some(v) => spec_lookup(v@, "link"@),
        None => None,
    }
}

/// Whether the torrent has a retrievable locator: a `.torrent` file URL
/// or a magnet URI.
pub open spec fn has_locator(t: Torrent) -> bool {
    t.torrent_file_url is Some || t.magnet_uri is Some
}

/// Whether every record of the list has a locator.
pub open spec fn all_have_locator(ts: Seq<Torrent>) -> bool {
    forall|i: int| 0 <= i < ts.len() ==> has_locator(#[trigger] ts[i])
}

/// The locator chosen for the `link` element, by ordered precedence:
/// the explicit `link` attribute first, then the `.torrent` file URL,
/// then the magnet URI.
pub open spec fn spec_link_text(t: Torrent) -> Seq<char> {
    if spec_link_attr(t) is Some {
        spec_link_attr(t)->0
    } else if t.torrent_file_url is Some {
        t.torrent_file_url->0@
    } else {
        t.magnet_uri->0@
    }
}

/// The `enclosure` element of an item: none when the explicit `link`
/// attribute was chosen; otherwise the chosen locator with length `0`
/// (the true size travels in the `size` attribute) and the MIME type of
/// a `.torrent` file or of a magnet link.
pub open spec fn spec_enclosure(t: Torrent) -> Seq<char> {
    if spec_link_attr(t) is Some {
        Seq::empty()
    } else if t.torrent_file_url is Some {
        "<enclosure"@ + spec_attr("url"@, t.torrent_file_url->0@) + spec_attr("length"@, "0"@)
            + spec_attr("type"@, "application/x-bittorrent"@) + "></enclosure>"@
    } else {
        "<enclosure"@ + spec_attr("url"@, t.magnet_uri->0@) + spec_attr("length"@, "0"@)
            + spec_attr("type"@, "application/x-bittorrent;x-scheme-handler/magnet"@)
            + "></enclosure>"@
    }
}

/// One `torznab:attr` element.
pub open spec fn spec_torznab_attr(name: Seq<char>, value: Seq<char>) -> Seq<char> {
    "<torznab:attr"@ + spec_attr("name"@, name) + spec_attr("value"@, value)
        + "></torznab:attr>"@
}

/// The category attribute elements, one per id, in list order;
/// duplicates are kept as given.
pub open spec fn spec_cat_attrs(ids: Seq<u32>) -> Seq<char>
    decreases ids.len(),
{
    if ids.len() == 0 {
        Seq::empty()
    } else {
        spec_cat_attrs(ids.drop_last()) + spec_torznab_attr(
            "category"@,
            dec_digits(ids.last() as nat),
        )
    }
}

/// The remaining free-form attributes of an item: every pair except
/// `link`, which the locator policy consumes, in list order.
pub open spec fn spec_other_attrs(pairs: Seq<(String, String)>) -> Seq<char>
    decreases pairs.len(),
{
    if pairs.len() == 0 {
        Seq::empty()
    } else {
        spec_other_attrs(pairs.drop_last()) + (if pairs.last().0@ == "link"@ {
            Seq::<char>::empty()
        } else {
            spec_torznab_attr(pairs.last().0@, pairs.last().1@)
        })
    }
}

/// One feed item: title, description (an empty element when absent),
/// the size attribute, the category attributes, the resolved link, the
/// enclosure when one is due, and the remaining free-form attributes.
pub open spec fn spec_item(t: Torrent) -> Seq<char> {
    "<item>"@ + spec_text_elem("title"@, t.title@) + "<description>"@ + (match t.description {
        Some(d) => escaped_text(d@),
        None => Seq::empty(),
    }) + "</description>"@ + spec_torznab_attr("size"@, dec_digits(t.size as nat)) + spec_cat_attrs(
        t.category_ids@,
    ) + spec_text_elem("link"@, spec_link_text(t)) + spec_enclosure(t) + (match t.other_attributes {
        Some(v) => spec_other_attrs(v@),
        None => Seq::empty(),
    }) + "</item>"@
}

/// The feed items, in the order the host's search hook returned them.
pub open spec fn spec_items(ts: Seq<Torrent>) -> Seq<char>
    decreases ts.len(),
{
    if ts.len() == 0 {
        Seq::empty()
    } else {
        spec_items(ts.drop_last()) + spec_item(ts.last())
    }
}

/// The channel title: the `title` server-info field when present, else
/// the literal fallback.
pub open spec fn spec_feed_title(c: Caps) -> Seq<char> {
    match c.server_info {
        Some(v) => match spec_lookup(v@, "title"@) {
            Some(t) => t,
            None => "Torznab indexer"@,
        },
        None => "Torznab indexer"@,
    }
}

/// Everything of the feed document before the items: the `rss` root
/// with its namespace declarations, the channel, the self-referencing
/// Atom link placeholder, and the channel title.
pub open spec fn spec_feed_prefix(c: Caps) -> Seq<char> {
    "<rss"@ + spec_attr("version"@, "1.0"@) + spec_attr(
        "xmlns:atom"@,
        "http://www.w3.org/2005/Atom"@,
    ) + spec_attr("xmlns:torznab"@, "http://torznab.com/schemas/2015/feed"@) + ">"@ + "<channel>"@
        + "<atom:link"@ + spec_attr("rel"@, "self"@) + spec_attr("type"@, "application/rss+xml"@)
        + "></atom:link>"@ + spec_text_elem("title"@, spec_feed_title(c))
}

/// The whole feed document for a list of records.
pub open spec fn spec_feed_xml(c: Caps, ts: Seq<Torrent>) -> Seq<char> {
    spec_feed_prefix(c) + spec_items(ts) + "</channel></rss>"@
}

/// Link resolution is order-respecting: a torrent without an explicit
/// `link` attribute that carries both a `.torrent` file URL and a
/// magnet URI is always linked by the file URL, with the enclosure of a
/// `.torrent` file.
pub proof fn lemma_link_prefers_file_url(t: Torrent)
    requires
        spec_link_attr(t) is None,
        t.torrent_file_url is Some,
        t.magnet_uri is Some,
    ensures
        spec_link_text(t) == t.torrent_file_url->0@,
        spec_enclosure(t) == "<enclosure"@ + spec_attr("url"@, t.torrent_file_url->0@) + spec_attr(
            "length"@,
            "0"@,
        ) + spec_attr("type"@, "application/x-bittorrent"@) + "></enclosure>"@,
{
}

/// Finds the value of the first pair whose key equals `key`.
fn lookup_value(pairs: &Vec<(String, String)>, key: &str) -> (r: Option<String>)
    ensures
        (r is Some) == (spec_lookup(pairs@, key@) is Some),
        r is Some ==> r->0@ == spec_lookup(pairs@, key@)->0,
{
    let key_string = key.to_owned();
    proof {
        assert(pairs@.skip(0) =~= pairs@);
    }
    let mut i: usize = 0;
    while i < pairs.len()
        invariant
            0 <= i <= pairs.len(),
            key_string@ == key@,
            spec_lookup(pairs@, key@) == spec_lookup(pairs@.skip(i as int), key@),
        decreases pairs.len() - i,
    {
        let p = &pairs[i];
        proof {
            assert(pairs@.skip(i as int).first() == pairs@[i as int]);
        }
        if p.0 == key_string {
            return Some(p.1.clone());
        }
        proof {
            assert(pairs@.skip(i as int).drop_first() =~= pairs@.skip(i + 1));
        }
        i += 1;
    }
    proof {
        assert(pairs@.skip(pairs@.len() as int) =~= Seq::<(String, String)>::empty());
    }
    None
}

/// Appends `<torznab:attr name="..." value="..."/>` (as an explicit
/// start/end pair) to `out`.
fn push_torznab_attr(out: &mut String, name: &str, value: &str)
    ensures
        final(out)@ == old(out)@ + spec_torznab_attr(name@, value@),
{
    out.append("<torznab:attr");
    push_attr(out, "name", name);
    push_attr(out, "value", value);
    out.append("></torznab:attr>");
}

fn push_cat_attrs(out: &mut String, ids: &Vec<u32>)
    ensures
        final(out)@ == old(out)@ + spec_cat_attrs(ids@),
{
    let ghost pre = out@;
    let mut i: usize = 0;
    while i < ids.len()
        invariant
            0 <= i <= ids.len(),
            out@ == pre + spec_cat_attrs(ids@.take(i as int)),
        decreases ids.len() - i,
    {
        let id_dec = u32_to_dec(ids[i]);
        push_torznab_attr(out, "category", id_dec.as_str());
        proof {
            let t1 = ids@.take(i + 1);
            assert(t1.drop_last() =~= ids@.take(i as int));
            assert(t1.last() == ids@[i as int]);
        }
        i += 1;
    }
    proof {
        assert(ids@.take(ids@.len() as int) =~= ids@);
    }
}

/// Emits the `link` element and, unless the explicit `link` attribute
/// was chosen, the matching `enclosure`.
fn push_locator(out: &mut String, t: &Torrent)
    requires
        has_locator(*t),
    ensures
        final(out)@ == old(out)@ + spec_text_elem("link"@, spec_link_text(*t)) + spec_enclosure(
            *t,
        ),
{
    let link_attr: Option<String> = match &t.other_attributes {
        Some(pairs) => lookup_value(pairs, "link"),
        None => None,
    };
    match link_attr {
        Some(l) => {
            push_text_elem(out, "link", l.as_str());
        },
        None => {
            match &t.torrent_file_url {
                Some(url) => {
                    push_text_elem(out, "link", url.as_str());
                    out.append("<enclosure");
                    push_attr(out, "url", url.as_str());
                    push_attr(out, "length", "0");
                    push_attr(out, "type", "application/x-bittorrent");
                    out.append("></enclosure>");
                },
                None => {
                    let m = t.magnet_uri.as_ref().unwrap();
                    push_text_elem(out, "link", m.as_str());
                    out.append("<enclosure");
                    push_attr(out, "url", m.as_str());
                    push_attr(out, "length", "0");
                    push_attr(out, "type", "application/x-bittorrent;x-scheme-handler/magnet");
                    out.append("></enclosure>");
                },
            }
        },
    }
}

fn push_other_attrs(out: &mut String, pairs: &Vec<(String, String)>)
    ensures
        final(out)@ == old(out)@ + spec_other_attrs(pairs@),
{
    let link_key = "link".to_owned();
    let ghost pre = out@;
    let mut i: usize = 0;
    while i < pairs.len()
        invariant
            0 <= i <= pairs.len(),
            link_key@ == "link"@,
            out@ == pre + spec_other_attrs(pairs@.take(i as int)),
        decreases pairs.len() - i,
    {
        let p = &pairs[i];
        if p.0 == link_key {
        } else {
            push_torznab_attr(out, p.0.as_str(), p.1.as_str());
        }
        proof {
            let t1 = pairs@.take(i + 1);
            assert(t1.drop_last() =~= pairs@.take(i as int));
            assert(t1.last() == pairs@[i as int]);
        }
        i += 1;
    }
    proof {
        assert(pairs@.take(pairs@.len() as int) =~= pairs@);
    }
}

#[verifier::rlimit(100)]
fn push_item(out: &mut String, t: &Torrent)
    requires
        has_locator(*t),
    ensures
        final(out)@ == old(out)@ + spec_item(*t),
{
    out.append("<item>");
    push_text_elem(out, "title", t.title.as_str());
    out.append("<description>");
    match &t.description {
        Some(d) => {
            let e = escape_text(d.as_str());
            out.append(e.as_str());
        },
        None => {},
    }
    out.append("</description>");

    let size_dec = u64_to_dec(t.size);
    push_torznab_attr(out, "size", size_dec.as_str());
    push_cat_attrs(out, &t.category_ids);
    push_locator(out, t);
    match &t.other_attributes {
        Some(pairs) => {
            push_other_attrs(out, pairs);
        },
        None => {},
    }
    out.append("</item>");
}

fn feed_title_exec(caps: &Caps) -> (r: String)
    ensures
        r@ == spec_feed_title(*caps),
{
    match &caps.server_info {
        Some(pairs) => match lookup_value(pairs, "title") {
            Some(t) => t,
            None => "Torznab indexer".to_owned(),
        },
        None => "Torznab indexer".to_owned(),
    }
}

/// Renders the feed document for the given records, in the order they
/// were handed over: the encoder neither filters nor paginates. Fails
/// with [`TorznabError::MalformedLocator`] — returning no document at
/// all — exactly when some record has neither a `.torrent` file URL nor
/// a magnet URI.
pub fn encode_feed(caps: &Caps, torrents: &Vec<Torrent>) -> (r: Result<String, TorznabError>)
    ensures
        r is Ok <==> all_have_locator(torrents@),
        r is Ok ==> r->Ok_0@ == spec_feed_xml(*caps, torrents@),
        r is Err ==> r->Err_0 == TorznabError::MalformedLocator,
{
    let mut out = String::new();
    out.append("<rss");
    push_attr(&mut out, "version", "1.0");
    push_attr(&mut out, "xmlns:atom", "http://www.w3.org/2005/Atom");
    push_attr(&mut out, "xmlns:torznab", "http://torznab.com/schemas/2015/feed");
    out.append(">");
    out.append("<channel>");
    out.append("<atom:link");
    push_attr(&mut out, "rel", "self");
    push_attr(&mut out, "type", "application/rss+xml");
    out.append("></atom:link>");
    let title = feed_title_exec(caps);
    push_text_elem(&mut out, "title", title.as_str());
    proof {
        assert(out@ == spec_feed_prefix(*caps));
    }

    let ghost pre = out@;
    let mut i: usize = 0;
    while i < torrents.len()
        invariant
            0 <= i <= torrents.len(),
            out@ == pre + spec_items(torrents@.take(i as int)),
            pre == spec_feed_prefix(*caps),
            all_have_locator(torrents@.take(i as int)),
        decreases torrents.len() - i,
    {
        let t = &torrents[i];
        if t.torrent_file_url.is_none() && t.magnet_uri.is_none() {
            proof {
                assert(!has_locator(torrents@[i as int]));
            }
            return Err(TorznabError::MalformedLocator);
        }
        push_item(&mut out, t);
        proof {
            let t1 = torrents@.take(i + 1);
            assert(t1.drop_last() =~= torrents@.take(i as int));
            assert(t1.last() == torrents@[i as int]);
            assert forall|j: int| 0 <= j < t1.len() implies has_locator(#[trigger] t1[j]) by {
                if j < i {
                    assert(t1[j] == torrents@.take(i as int)[j]);
                } else {
                    assert(t1[j] == torrents@[i as int]);
                }
            }
        }
        i += 1;
    }
    proof {
        assert(torrents@.take(torrents@.len() as int) =~= torrents@);
    }
    out.append("</channel></rss>");
    Ok(out)
}

} // verus!
