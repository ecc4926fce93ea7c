//! Tests for the search-feed encoder and its locator-resolution policy.

use torznab_toolkit::data::{Torrent, TorznabError};
use torznab_toolkit::dummy::create_empty_config;
use torznab_toolkit::feed_xml::encode_feed;

fn base_torrent() -> Torrent {
    Torrent {
        title: "t".to_string(),
        description: None,
        size: 1000,
        category_ids: vec![],
        torrent_file_url: Some("http://x/t.torrent".to_string()),
        magnet_uri: None,
        other_attributes: None,
    }
}

#[test]
fn whole_document_of_one_record() {
    let conf = create_empty_config();
    let torrents = vec![Torrent {
        title: "totally normal torrent".to_string(),
        description: None,
        size: 9872349573,
        category_ids: vec![1010],
        torrent_file_url: Some("http://localhost/totally-normal.torrent".to_string()),
        magnet_uri: Some("magnet:?xt=urn:btih:blahblahblahdothechachacha".to_string()),
        other_attributes: None,
    }];
    let xml = encode_feed(&conf.caps, &torrents).unwrap();
    assert_eq!(
        xml,
        "<rss version=\"1.0\" xmlns:atom=\"http://www.w3.org/2005/Atom\" \
         xmlns:torznab=\"http://torznab.com/schemas/2015/feed\">\
         <channel>\
         <atom:link rel=\"self\" type=\"application/rss+xml\"></atom:link>\
         <title>Test Torznab server</title>\
         <item><title>totally normal torrent</title><description></description>\
         <torznab:attr name=\"size\" value=\"9872349573\"></torznab:attr>\
         <torznab:attr name=\"category\" value=\"1010\"></torznab:attr>\
         <link>http://localhost/totally-normal.torrent</link>\
         <enclosure url=\"http://localhost/totally-normal.torrent\" length=\"0\" \
         type=\"application/x-bittorrent\"></enclosure>\
         </item>\
         </channel></rss>"
    );
}

#[test]
fn explicit_link_attribute_wins_and_suppresses_enclosure() {
    let conf = create_empty_config();
    let mut t = base_torrent();
    t.other_attributes = Some(vec![("link".to_string(), "http://x/t".to_string())]);
    let xml = encode_feed(&conf.caps, &vec![t]).unwrap();
    assert!(xml.contains("<link>http://x/t</link>"));
    assert!(!xml.contains("<enclosure"));
    // the consumed link attribute is not re-emitted
    assert!(!xml.contains("name=\"link\""));
}

#[test]
fn file_url_preferred_over_magnet() {
    let conf = create_empty_config();
    let mut t = base_torrent();
    t.magnet_uri = Some("magnet:?xt=urn:btih:abc".to_string());
    let xml = encode_feed(&conf.caps, &vec![t]).unwrap();
    assert!(xml.contains("<link>http://x/t.torrent</link>"));
    assert!(xml.contains(
        "<enclosure url=\"http://x/t.torrent\" length=\"0\" type=\"application/x-bittorrent\"></enclosure>"
    ));
}

#[test]
fn magnet_fallback_gets_magnet_mime_type() {
    let conf = create_empty_config();
    let mut t = base_torrent();
    t.torrent_file_url = None;
    t.magnet_uri = Some("magnet:?xt=urn:btih:abc".to_string());
    let xml = encode_feed(&conf.caps, &vec![t]).unwrap();
    assert!(xml.contains("<link>magnet:?xt=urn:btih:abc</link>"));
    assert!(xml.contains(
        "<enclosure url=\"magnet:?xt=urn:btih:abc\" length=\"0\" \
         type=\"application/x-bittorrent;x-scheme-handler/magnet\"></enclosure>"
    ));
}

#[test]
fn record_without_locator_is_refused() {
    let conf = create_empty_config();
    let mut t = base_torrent();
    t.torrent_file_url = None;
    t.magnet_uri = None;
    // an explicit link attribute does not make up for the missing locator
    t.other_attributes = Some(vec![("link".to_string(), "http://x/t".to_string())]);
    let r = encode_feed(&conf.caps, &vec![t]);
    assert_eq!(r, Err(TorznabError::MalformedLocator));
}

#[test]
fn malformed_locator_has_a_diagnostic_message() {
    let e = TorznabError::MalformedLocator;
    assert_eq!(
        e.message(),
        "torrent record has neither a .torrent file URL nor a magnet URI"
    );
}

#[test]
fn other_attributes_emitted_in_order() {
    let conf = create_empty_config();
    let mut t = base_torrent();
    t.other_attributes = Some(vec![
        ("seeders".to_string(), "12".to_string()),
        ("peers".to_string(), "3".to_string()),
    ]);
    let xml = encode_feed(&conf.caps, &vec![t]).unwrap();
    assert!(xml.contains(
        "<torznab:attr name=\"seeders\" value=\"12\"></torznab:attr>\
         <torznab:attr name=\"peers\" value=\"3\"></torznab:attr>"
    ));
}

#[test]
fn description_and_title_are_escaped() {
    let conf = create_empty_config();
    let mut t = base_torrent();
    t.title = "a<b>&c".to_string();
    t.description = Some("x & y < z".to_string());
    let xml = encode_feed(&conf.caps, &vec![t]).unwrap();
    assert!(xml.contains("<title>a&lt;b&gt;&amp;c</title>"));
    assert!(xml.contains("<description>x &amp; y &lt; z</description>"));
}

#[test]
fn fallback_title_when_no_server_title() {
    let mut conf = create_empty_config();
    conf.caps.server_info = None;
    let xml = encode_feed(&conf.caps, &vec![base_torrent()]).unwrap();
    assert!(xml.contains("<title>Torznab indexer</title>"));
}

#[test]
fn duplicate_category_ids_are_kept() {
    let conf = create_empty_config();
    let mut t = base_torrent();
    t.category_ids = vec![5000, 5000, 5040];
    let xml = encode_feed(&conf.caps, &vec![t]).unwrap();
    assert!(xml.contains(
        "<torznab:attr name=\"category\" value=\"5000\"></torznab:attr>\
         <torznab:attr name=\"category\" value=\"5000\"></torznab:attr>\
         <torznab:attr name=\"category\" value=\"5040\"></torznab:attr>"
    ));
}
