use sinuous::favorites::{favorites_browse_payload, html_unescape, parse_favorite_playlists};
use sinuous::group::{SpeakerGroup, SpeakerInfo};
use sinuous::selector::{parse_device_selector, parse_ipv4, Ipv4Address};
use sinuous::state::{queue_selection, SpeakerState};
use sinuous::strutil::{contains_sub, extract_tag_content, find_sub, replace_all, starts_with_sub};
use sinuous::track::{format_duration, Track, TrackInfo};
use sinuous::ViewMode;

fn info(uuid: &str, name: &str) -> SpeakerInfo {
    SpeakerInfo { uuid: uuid.to_string(), name: name.to_string() }
}

fn track(uri: &str) -> Track {
    Track { uri: uri.to_string(), title: "t".to_string(), album: None, creator: None, duration: None }
}

#[test]
fn two_item_listing_keeps_only_the_playlist_item() {
    let xml = "<DIDL-Lite><item id=\"1\"><dc:title>Morning Mix</dc:title>\
<r:description>A blend</r:description><r:resMD>&lt;meta A/&gt;</r:resMD>\
<res protocolInfo=\"a:b:c\">x-file-cifs:morning-playlist-1</res></item>\
<item id=\"2\"><dc:title>Lone Track</dc:title><r:description>one song</r:description>\
<r:resMD>&lt;meta B/&gt;</r:resMD><res protocolInfo=\"a:b:c\">x-file-cifs:track-2</res>\
</item></DIDL-Lite>";
    let favs = parse_favorite_playlists(xml);
    assert_eq!(favs.len(), 1);
    assert_eq!(favs[0].title, "Morning Mix");
    assert_eq!(favs[0].description, "A blend");
    assert_eq!(favs[0].uri, "x-file-cifs:morning-playlist-1");
    assert_eq!(favs[0].metadata, "&lt;meta A/&gt;");
}

#[test]
fn container_scheme_and_class_marker_also_pass_the_filter() {
    let by_scheme = "<x><item a><dc:title>S</dc:title>\
<res p=\"1\">x-rincon-cpcontainer:100c2068token</res></item>";
    let favs = parse_favorite_playlists(by_scheme);
    assert_eq!(favs.len(), 1);
    assert_eq!(favs[0].uri, "x-rincon-cpcontainer:100c2068token");

    let by_class = "<x><item b><upnp:class>object.container.playlistContainer</upnp:class>\
<dc:title>C</dc:title><res p=\"1\">x-other:nothing-here</res></item>";
    let favs = parse_favorite_playlists(by_class);
    assert_eq!(favs.len(), 1);
    assert_eq!(favs[0].title, "C");

    let plain = "<x><item c><dc:title>N</dc:title><res p=\"1\">x-other:nothing-here</res></item>";
    assert_eq!(parse_favorite_playlists(plain).len(), 0);
}

#[test]
fn missing_fields_fall_back_to_defaults() {
    let xml = "<item x><res p=\"1\">a-playlist-uri</res></item>";
    let favs = parse_favorite_playlists(xml);
    assert_eq!(favs.len(), 1);
    assert_eq!(favs[0].title, "Unknown");
    assert_eq!(favs[0].description, "");
    assert_eq!(favs[0].metadata, "");
}

#[test]
fn listing_without_items_is_empty() {
    assert_eq!(parse_favorite_playlists("").len(), 0);
    assert_eq!(parse_favorite_playlists("<DIDL-Lite></DIDL-Lite>").len(), 0);
}

#[test]
fn item_without_closing_res_tag_gets_an_empty_uri() {
    let xml = "<item x><dc:title>T</dc:title><res p=\"1\">unterminated playlistContainer";
    let favs = parse_favorite_playlists(xml);
    // kept by the class marker in the raw text, with no extractable URI
    assert_eq!(favs.len(), 1);
    assert_eq!(favs[0].uri, "");
}

#[test]
fn unescape_handles_all_five_entities() {
    assert_eq!(
        html_unescape("a&amp;b &lt;x&gt; &quot;q&quot; &apos;s&apos;"),
        "a&b <x> \"q\" 's'"
    );
    assert_eq!(html_unescape("no entities"), "no entities");
    assert_eq!(html_unescape(""), "");
}

#[test]
fn unescape_applies_the_replacements_in_order() {
    // &amp;lt; first becomes &lt;, which the later pass turns into <
    assert_eq!(html_unescape("&amp;lt;"), "<");
}

#[test]
fn substring_search_finds_the_first_occurrence() {
    assert_eq!(find_sub("abcabc", "bc", 0), Some(1));
    assert_eq!(find_sub("abcabc", "bc", 2), Some(4));
    assert_eq!(find_sub("abcabc", "zz", 0), None);
    assert!(contains_sub("hay playlist stack", "playlist"));
    assert!(!contains_sub("haystack", "playlist"));
    assert!(starts_with_sub("x-rincon-cpcontainer:abc", "x-rincon-cpcontainer:"));
    assert!(!starts_with_sub("y-rincon-cpcontainer:abc", "x-rincon-cpcontainer:"));
}

#[test]
fn tag_extraction_takes_the_first_pair() {
    assert_eq!(extract_tag_content("<a>x</a><a>y</a>", "<a>", "</a>"), Some("x"));
    assert_eq!(extract_tag_content("<a>x</a>", "<b>", "</b>"), None);
    assert_eq!(extract_tag_content("<a>x", "<a>", "</a>"), None);
    assert_eq!(extract_tag_content("<res p=\"1\">uri</res>", "<res", "</res>"), Some(" p=\"1\">uri"));
}

#[test]
fn replace_all_scans_left_to_right_without_overlap() {
    assert_eq!(replace_all("aaa", "aa", "b"), "ba");
    assert_eq!(replace_all("xyx", "y", "yy"), "xyyx");
    assert_eq!(replace_all("", "a", "b"), "");
}

#[test]
fn durations_render_as_minutes_and_two_digit_seconds() {
    assert_eq!(format_duration(0), "0:00");
    assert_eq!(format_duration(59), "0:59");
    assert_eq!(format_duration(61), "1:01");
    assert_eq!(format_duration(125), "2:05");
    assert_eq!(format_duration(600), "10:00");
    assert_eq!(format_duration(3600), "60:00");
}

#[test]
fn selector_elements_parse_as_addresses_first_then_names() {
    let (ips, names) = parse_device_selector("192.168.1.5,Living Room,10.0.0.300");
    assert_eq!(ips, vec![Ipv4Address { a: 192, b: 168, c: 1, d: 5 }]);
    assert_eq!(names, vec!["Living Room".to_string(), "10.0.0.300".to_string()]);
}

#[test]
fn empty_selector_gives_one_empty_name() {
    let (ips, names) = parse_device_selector("");
    assert!(ips.is_empty());
    assert_eq!(names, vec![String::new()]);
}

#[test]
fn address_literals_are_strict() {
    assert_eq!(parse_ipv4("1.2.3.4"), Some(Ipv4Address { a: 1, b: 2, c: 3, d: 4 }));
    assert_eq!(parse_ipv4("255.255.255.255"), Some(Ipv4Address { a: 255, b: 255, c: 255, d: 255 }));
    assert_eq!(parse_ipv4("0.0.0.0"), Some(Ipv4Address { a: 0, b: 0, c: 0, d: 0 }));
    assert_eq!(parse_ipv4("256.1.1.1"), None);
    assert_eq!(parse_ipv4("01.1.1.1"), None);
    assert_eq!(parse_ipv4("1.2.3"), None);
    assert_eq!(parse_ipv4("1.2.3.4.5"), None);
    assert_eq!(parse_ipv4("1.2.3."), None);
    assert_eq!(parse_ipv4("a.b.c.d"), None);
    assert_eq!(parse_ipv4(""), None);
}

#[test]
fn group_puts_its_coordinator_first_and_joins_names() {
    let g = SpeakerGroup::new(
        "u2".to_string(),
        vec![info("u1", "Kitchen"), info("u2", "Den"), info("u3", "Porch")],
    );
    assert_eq!(g.coordinator, "u2");
    let uuids: Vec<&str> = g.speakers.iter().map(|s| s.uuid.as_str()).collect();
    assert_eq!(uuids, vec!["u2", "u1", "u3"]);
    assert_eq!(g.name(), "Den + Kitchen + Porch");

    let single = SpeakerGroup::new("u9".to_string(), vec![info("u9", "Attic")]);
    assert_eq!(single.name(), "Attic");
}

#[test]
fn queue_selection_matches_the_playing_uri() {
    let st = SpeakerState {
        is_playing: true,
        current_volume: 10,
        group_names: vec!["G".to_string()],
        selected_group: 0,
        now_playing: Some(TrackInfo { track: track("x:two"), elapsed: 0, duration: 10 }),
        queue: vec![track("x:one"), track("x:two"), track("x:two")],
        current_view: ViewMode::Queue,
        favorites: Vec::new(),
        selected_favorite: 0,
    };
    assert_eq!(queue_selection(&st), Some(1));

    let mut idle = st;
    idle.now_playing = None;
    assert_eq!(queue_selection(&idle), None);
    idle.now_playing = Some(TrackInfo { track: track("x:absent"), elapsed: 0, duration: 10 });
    assert_eq!(queue_selection(&idle), None);
}

#[test]
fn browse_payload_asks_for_one_bounded_page_of_the_favorites_container() {
    let p = favorites_browse_payload();
    assert_eq!(
        p,
        "<ObjectID>FV:2</ObjectID>\n<BrowseFlag>BrowseDirectChildren</BrowseFlag>\n<Filter>*</Filter>\n<StartingIndex>0</StartingIndex>\n<RequestedCount>100</RequestedCount>\n<SortCriteria></SortCriteria>"
    );
}
