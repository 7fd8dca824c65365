use dr_downloader::catalog::{
    collection_items_from_body, construct_ep_query_url, construct_show_query_url,
    get_episode_info, parse_show_path_from_url,
};
use dr_downloader::error::{FetchError, ParseError};
use dr_downloader::urltype::{verify_url, URLType};

#[test]
fn classify_collection_markers() {
    let serie = "https://service.example/drtv/serie/show_123/season_1/episode_45_999";
    assert!(matches!(URLType::get(serie), Ok(URLType::Playlist)));
    let saeson = "https://www.dr.dk/drtv/saeson/x_10";
    assert!(matches!(URLType::get(saeson), Ok(URLType::Playlist)));
}

#[test]
fn classify_item_markers() {
    assert!(matches!(
        URLType::get("https://host/drtv/episode/abc_45"),
        Ok(URLType::Video)
    ));
    // The short item marker alone classifies as a video too.
    assert!(matches!(URLType::get("https://host/se/abc_45"), Ok(URLType::Video)));
}

#[test]
fn classify_unrecognized() {
    assert!(matches!(
        URLType::get("https://host/drtv/abc_45"),
        Err(ParseError::UnrecognizedKind)
    ));
    assert!(matches!(URLType::get(""), Err(ParseError::UnrecognizedKind)));
}

#[test]
fn guard_accepts_service_urls() {
    assert!(verify_url("https://www.dr.dk/drtv/serie/sommer_123").is_ok());
    assert!(verify_url("http://www.dr.dk/drtv/episode/x_1").is_ok());
    assert!(verify_url("prefix https://www.dr.dk/drtv/abc then x_9 suffix").is_ok());
}

#[test]
fn guard_rejects_foreign_or_incomplete_urls() {
    assert!(matches!(
        verify_url("https://example.com/serie/x_1"),
        Err(ParseError::MalformedUrl)
    ));
    // No trailing numeric id after an underscore.
    assert!(matches!(
        verify_url("https://www.dr.dk/drtv/serie/abc"),
        Err(ParseError::MalformedUrl)
    ));
    // A line break between the prefix and the id stops the match.
    assert!(matches!(
        verify_url("https://www.dr.dk/drtv/\nabc_1"),
        Err(ParseError::MalformedUrl)
    ));
    assert!(matches!(verify_url(""), Err(ParseError::MalformedUrl)));
}

#[test]
fn parse_item_identity_name_and_id() {
    let info = get_episode_info("https://www.dr.dk/drtv/episode/show_123").unwrap();
    assert_eq!(&info.name, "show_123");
    assert_eq!(&info.id, "123");

    let info = get_episode_info("https://service.example/drtv/serie/show_123/season_1/episode_45_999")
        .unwrap();
    assert_eq!(&info.name, "episode_45_999");
    assert_eq!(&info.id, "999");
}

#[test]
fn parse_item_identity_trailing_slash() {
    let info = get_episode_info("https://host/drtv/abc_1/").unwrap();
    assert_eq!(&info.name, "abc_1");
    assert_eq!(&info.id, "1");
}

#[test]
fn parse_item_identity_idempotent_and_strips_line_endings() {
    let url = "https://www.dr.dk/drtv/episode/show_123";
    let once = get_episode_info(url).unwrap();
    let twice = get_episode_info(url).unwrap();
    assert_eq!(once, twice);

    let with_crlf = get_episode_info("https://www.dr.dk/drtv/episode/show_123\r\n").unwrap();
    assert_eq!(once, with_crlf);
    let with_lf = get_episode_info("https://www.dr.dk/drtv/episode/show_123\n").unwrap();
    assert_eq!(once, with_lf);
}

#[test]
fn parse_item_identity_rejects_missing_separators() {
    assert!(matches!(get_episode_info("no separators at all"), Err(ParseError::MalformedUrl)));
    assert!(matches!(get_episode_info("slash/but/no/underscore"), Err(ParseError::MalformedUrl)));
    assert!(matches!(get_episode_info("underscore_but_no_slash"), Err(ParseError::MalformedUrl)));
}

#[test]
fn show_path_is_percent_encoded() {
    assert_eq!(
        parse_show_path_from_url("https://www.dr.dk/drtv/serie/x y"),
        "%2Fserie%2Fx%20y"
    );
    // Without the marker the whole URL is the path.
    assert_eq!(parse_show_path_from_url("a/b"), "a%2Fb");
}

#[test]
fn show_query_url_exact() {
    let url = construct_show_query_url("https://www.dr.dk/drtv/serie/abc");
    assert_eq!(
        url,
        "https://www.dr-massive.com/api/page?device=web_browser&ff=idp%2Cldp%2Crpt&geoLocation=dk&isDeviceAbroad=false&item_detail_expand=children&lang=da&list_page_size=24&max_list_prefetch=3&path=%2Fserie%2Fabc&segments=drtv%2Coptedin&sub=Anonymous&text_entry_format=html"
    );
}

#[test]
fn episode_query_url_exact() {
    assert_eq!(
        construct_ep_query_url("999"),
        "https://production.dr-massive.com/api/account/items/999/videos?delivery=stream&device=web_browser&ff=idp%2Cldp%2Crpt&lang=da&resolution=HD-1080&sub=Anonymous"
    );
}

#[test]
fn collection_items_from_mocked_body() {
    let url = "https://service.example/drtv/serie/show_123/season_1/episode_45_999";
    let body = "{\"item\":{\"episodes\":{\"items\":[{\"watchPath\":\"/a_1\"},{\"watchPath\":\"/b_2\"}]}}}";
    let items = collection_items_from_body(url, body).unwrap();
    assert_eq!(items.len(), 2);
    assert_eq!(&items[0], "https://service.example/drtv/a_1");
    assert_eq!(&items[1], "https://service.example/drtv/b_2");
}

#[test]
fn collection_items_fixed_prefix_without_marker() {
    let body = "{\"item\":{\"episodes\":{\"items\":[{\"watchPath\":\"/a_1\"}]}}}";
    let items = collection_items_from_body("https://somewhere.else/x", body).unwrap();
    assert_eq!(&items[0], "https://www.dr.dk/drtv/a_1");
}

#[test]
fn collection_items_unexpected_shape() {
    assert!(matches!(
        collection_items_from_body("https://www.dr.dk/drtv/serie/a_1", "{}"),
        Err(FetchError::UnexpectedShape)
    ));
    assert!(matches!(
        collection_items_from_body("https://www.dr.dk/drtv/serie/a_1", "not json"),
        Err(FetchError::UnexpectedShape)
    ));
    // An element without the expected field spoils the whole listing.
    let body = "{\"item\":{\"episodes\":{\"items\":[{\"other\":\"x\"}]}}}";
    assert!(matches!(
        collection_items_from_body("https://www.dr.dk/drtv/serie/a_1", body),
        Err(FetchError::UnexpectedShape)
    ));
}
