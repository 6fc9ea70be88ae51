use bom_buddy::location::{find_search_result, parse_location_id, SearchResult, State};
use bom_buddy::util::{format_duration, nearby_count};

#[test]
fn product_codes() {
    assert_eq!(State::Act.get_product_code("60910"), "IDN60910");
    assert_eq!(State::Nt.get_product_code("60910"), "IDD60910");
    assert_eq!(State::Wa.get_product_code("1"), "IDW1");
    assert_eq!(State::Qld.code(), "QLD");
}

#[test]
fn location_ids() {
    assert_eq!(parse_location_id("Canberra-r3dp5hh"), Some(("Canberra".to_string(), "r3dp5hh".to_string())));
    assert_eq!(parse_location_id("Wagga-Wagga-r1f9"), Some(("Wagga".to_string(), "Wagga-r1f9".to_string())));
    assert_eq!(parse_location_id("Canberra"), None);
    let results = vec![
        SearchResult { geohash: "r3dp5hh".to_string(), id: "Canberra-r3dp5hh".to_string(), name: "Canberra".to_string(), postcode: "2600".to_string(), state: State::Act },
        SearchResult { geohash: "r3dp5hj".to_string(), id: "Canberra-r3dp5hj".to_string(), name: "Canberra".to_string(), postcode: "2601".to_string(), state: State::Act },
    ];
    assert_eq!(find_search_result(&results, "Canberra", "r3dp5hj"), Some(1));
    assert_eq!(find_search_result(&results, "Canberra", "zzz"), None);
}

#[test]
fn durations() {
    assert_eq!(format_duration(3723), "1h2m03s");
    assert_eq!(format_duration(125), "2m05s");
    assert_eq!(format_duration(7), "07s");
    assert_eq!(format_duration(3600), "1h0m00s");
}

#[test]
fn nearby_radars() {
    assert_eq!(nearby_count(&vec![10, 50, 250, 300]), 2);
    assert_eq!(nearby_count(&vec![250, 300]), 1);
    assert_eq!(nearby_count(&vec![10, 50]), 1);
}
