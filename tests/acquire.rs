use bom_buddy::acquire::{
    after_fetch, after_missing, FetchDecision, FetchOutcome, layers_without_frames, max_frame_gap, next_radar_check, plan_next, prune_index,
    select_listed, split_features, AcquireStep,
};
use bom_buddy::radar::{FilenameError, RadarImageDataLayer, RadarImageFeature, RadarType};

fn layer(name: &str) -> RadarImageDataLayer {
    RadarImageDataLayer::from_filename(name).unwrap()
}

#[test]
fn prediction_waits_then_fetches() {
    let last = layer("IDR023.T.202311130334.png");
    let t = last.datetime;
    // next image at 03:39, expected two minutes later
    assert!(matches!(plan_next(&last, t + 5 * 60 + 119), AcquireStep::Wait));
    match plan_next(&last, t + 5 * 60 + 120) {
        AcquireStep::Fetch(next) => {
            assert_eq!(next.filename, "IDR023.T.202311130339.png");
            assert_eq!(next.datetime, t + 300);
            assert!(next.png_buf.is_empty());
        }
        other => panic!("unexpected {:?}", other),
    }
}

#[test]
fn long_gap_lists_directory() {
    let last = layer("IDR023.T.202311130334.png");
    let t = last.datetime;
    assert!(matches!(plan_next(&last, t + 18 * 300), AcquireStep::Fetch(_)));
    assert!(matches!(plan_next(&last, t + 18 * 300 + 1), AcquireStep::List));
}

#[test]
fn missing_prediction_falls_back_to_listing() {
    let last = layer("IDR023.T.202311130334.png");
    let expected = last.expected_next();
    let due = expected.datetime + 120;
    assert!(!after_missing(&expected, due));
    assert!(!after_missing(&expected, due + 60));
    assert!(after_missing(&expected, due + 61));
    // the listing then only yields layers from the last known one on
    let listing: Vec<String> = vec![
        "IDR023.T.202311130324.png".to_string(),
        "IDR023.T.202311130334.png".to_string(),
        "IDR023.T.202311130344.png".to_string(),
        "IDR023.T.202311130349.png".to_string(),
    ];
    let existing = vec!["IDR023.T.202311130334.png".to_string()];
    let found = select_listed(&listing, 2, RadarType::OneTwentyEightKm, &existing, &vec![], Some(last.datetime), None).unwrap();
    let names: Vec<&str> = found.iter().map(|l| l.filename.as_str()).collect();
    assert_eq!(names, vec!["IDR023.T.202311130344.png", "IDR023.T.202311130349.png"]);
    assert!(found.iter().all(|l| l.datetime >= last.datetime));
}

#[test]
fn listing_filters_radar_type_and_staged() {
    let listing: Vec<String> = vec![
        "IDR022.T.202311130339.png".to_string(),
        "IDR023.T.202311130339.png".to_string(),
        "IDR713.T.202311130339.png".to_string(),
        "IDR023.T.202311130344.png".to_string(),
        "IDR023.T.202311130349.png".to_string(),
        "IDR023.T.202311130354.png".to_string(),
    ];
    let staged = vec![layer("IDR023.T.202311130344.png")];
    let found = select_listed(&listing, 2, RadarType::OneTwentyEightKm, &vec![], &staged, None, Some(2)).unwrap();
    let names: Vec<&str> = found.iter().map(|l| l.filename.as_str()).collect();
    assert_eq!(names, vec!["IDR023.T.202311130349.png", "IDR023.T.202311130354.png"]);
    let all = select_listed(&listing, 2, RadarType::OneTwentyEightKm, &vec![], &vec![], None, None).unwrap();
    assert_eq!(all.len(), 4);
    let none = select_listed(&listing, 5, RadarType::OneTwentyEightKm, &vec![], &vec![], None, None).unwrap();
    assert!(none.is_empty());
}

#[test]
fn listing_with_bad_name_fails() {
    let listing: Vec<String> = vec!["IDR023.T.2023111303.png".to_string()];
    let r = select_listed(&listing, 2, RadarType::OneTwentyEightKm, &vec![], &vec![], None, None);
    assert_eq!(r.unwrap_err(), FilenameError::InvalidTimestamp);
}

#[test]
fn next_check_after_radar_update() {
    let a = layer("IDR023.T.202311130334.png");
    let b = layer("IDR02C.T.202311130330.png");
    // 03:34 + 5 min + 2 min = 03:41; 03:30 + 15 min + 15 min = 04:00
    let now = a.datetime;
    assert_eq!(next_radar_check(&vec![a.clone(), b.clone()], now), a.datetime + 420);
    assert_eq!(next_radar_check(&vec![b.clone()], now), b.datetime + 1800);
    assert_eq!(next_radar_check(&vec![a.clone()], a.datetime + 420), a.datetime + 480);
    assert_eq!(next_radar_check(&vec![], now), now + 60);
}

#[test]
fn pruning_caps_frames() {
    let times: Vec<i64> = (0..10).map(|i| i * 300).collect();
    assert_eq!(prune_index(&times, Some(4), 1200), 6);
    assert_eq!(prune_index(&times, Some(20), 1200), 0);
    assert_eq!(prune_index(&times, None, 1200), 0);
}

#[test]
fn pruning_drops_runs_before_gaps() {
    let times: Vec<i64> = vec![0, 300, 600, 5000, 5300, 9000, 9300, 9600];
    let gap = max_frame_gap(RadarType::SixtyFourKm);
    assert_eq!(gap, 1200);
    assert_eq!(prune_index(&times, None, gap), 5);
    assert_eq!(prune_index(&times, Some(2), gap), 6);
    assert_eq!(prune_index(&times, Some(6), gap), 5);
    let exact: Vec<i64> = vec![0, 1200, 2400];
    assert_eq!(prune_index(&exact, None, gap), 0);
    assert_eq!(prune_index(&vec![], Some(3), gap), 0);
}

#[test]
fn features_split_around_the_data() {
    let features = vec![
        RadarImageFeature::Background,
        RadarImageFeature::Range,
        RadarImageFeature::Topography,
        RadarImageFeature::Locations,
    ];
    let (base, top) = split_features(&features);
    assert_eq!(base, vec![RadarImageFeature::Background, RadarImageFeature::Topography]);
    assert_eq!(top, vec![RadarImageFeature::Range, RadarImageFeature::Locations]);
}

#[test]
fn frames_are_built_only_when_missing() {
    let layers = vec![100, 200, 300, 400];
    let frames = vec![200, 400, 500];
    assert_eq!(layers_without_frames(&layers, &frames), vec![0, 2]);
    assert_eq!(layers_without_frames(&layers, &vec![]), vec![0, 1, 2, 3]);
}

#[test]
fn listing_is_sorted_before_capping() {
    let listing: Vec<String> = vec![
        "IDR023.T.202311130354.png".to_string(),
        "IDR023.T.202311130339.png".to_string(),
        "IDR023.T.202311130349.png".to_string(),
        "IDR023.T.202311130344.png".to_string(),
    ];
    let found = select_listed(&listing, 2, RadarType::OneTwentyEightKm, &vec![], &vec![], None, Some(3)).unwrap();
    let names: Vec<&str> = found.iter().map(|l| l.filename.as_str()).collect();
    assert_eq!(names, vec!["IDR023.T.202311130344.png", "IDR023.T.202311130349.png", "IDR023.T.202311130354.png"]);
}

#[test]
fn listed_twice_is_taken_once() {
    let listing: Vec<String> = vec![
        "IDR023.T.202311130339.png".to_string(),
        "IDR023.T.202311130339.png".to_string(),
    ];
    let found = select_listed(&listing, 2, RadarType::OneTwentyEightKm, &vec![], &vec![], None, None).unwrap();
    assert_eq!(found.len(), 1);
}

#[test]
fn fetch_outcomes_decide_the_next_step() {
    let last = layer("IDR023.T.202311130334.png");
    let expected = last.expected_next();
    let due = expected.datetime + 120;
    match after_fetch(expected.clone(), FetchOutcome::Found(vec![1, 2]), due) {
        FetchDecision::Continue(l) => {
            assert_eq!(l.filename, expected.filename);
            assert_eq!(l.png_buf, vec![1, 2]);
        }
        other => panic!("unexpected {:?}", other),
    }
    assert!(matches!(after_fetch(expected.clone(), FetchOutcome::Missing, due + 60), FetchDecision::Stop));
    assert!(matches!(after_fetch(expected, FetchOutcome::Missing, due + 61), FetchDecision::List));
}
