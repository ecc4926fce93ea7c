//! Tests for the capabilities encoder.

use torznab_toolkit::caps_xml::encode_caps;
use torznab_toolkit::data::{Caps, Category, Limits, SearchInfo, Subcategory};
use torznab_toolkit::dummy::create_empty_config;

fn minimal_caps() -> Caps {
    Caps {
        server_info: None,
        limits: Limits { max: 50, default: 10 },
        searching: vec![],
        categories: vec![],
        genres: None,
        tags: None,
    }
}

#[test]
fn whole_document_of_the_bare_config() {
    let conf = create_empty_config();
    let xml = encode_caps(&conf.caps);
    assert_eq!(
        xml,
        "<caps>\
         <server title=\"Test Torznab server\" email=\"test@example.com\" version=\"1.0\"></server>\
         <limits max=\"100\" default=\"20\"></limits>\
         <searching><search available=\"yes\" supportedParams=\"q\"></search></searching>\
         <categories><category id=\"1000\" name=\"a\"><subcat id=\"1010\" name=\"b\"></subcat></category></categories>\
         <genres><genre id=\"1\" categoryid=\"1000\" name=\"c\"></genre></genres>\
         <tags><tag name=\"a\" description=\"b\"></tag></tags>\
         </caps>"
    );
}

#[test]
fn minimal_document() {
    let xml = encode_caps(&minimal_caps());
    assert_eq!(
        xml,
        "<caps><server></server><limits max=\"50\" default=\"10\"></limits>\
         <searching></searching><categories></categories></caps>"
    );
}

#[test]
fn genres_wrapper_absent_when_none() {
    let caps = minimal_caps();
    let xml = encode_caps(&caps);
    assert!(!xml.contains("<genres"));
}

#[test]
fn genres_wrapper_absent_when_list_empty() {
    let mut caps = minimal_caps();
    caps.genres = Some(vec![]);
    let xml = encode_caps(&caps);
    assert!(!xml.contains("<genres"));
}

#[test]
fn unavailable_mode_renders_no() {
    let mut caps = minimal_caps();
    caps.searching = vec![SearchInfo {
        search_type: "movie-search".to_string(),
        available: false,
        supported_params: vec!["q".to_string(), "imdbid".to_string()],
    }];
    let xml = encode_caps(&caps);
    assert!(xml.contains(
        "<movie-search available=\"no\" supportedParams=\"q,imdbid\"></movie-search>"
    ));
}

#[test]
fn attribute_values_are_escaped() {
    let mut caps = minimal_caps();
    caps.server_info = Some(vec![(
        "title".to_string(),
        "Tom & \"Jerry\" <show> 'x'\n".to_string(),
    )]);
    caps.categories = vec![Category {
        id: 7,
        name: "a&b".to_string(),
        subcategories: vec![Subcategory {
            id: 8,
            name: "c<d".to_string(),
        }],
    }];
    let xml = encode_caps(&caps);
    assert!(xml.contains(
        "<server title=\"Tom &amp; &quot;Jerry&quot; &lt;show&gt; &apos;x&apos;&#xA;\"></server>"
    ));
    assert!(xml.contains("<category id=\"7\" name=\"a&amp;b\">"));
    assert!(xml.contains("<subcat id=\"8\" name=\"c&lt;d\"></subcat>"));
}
