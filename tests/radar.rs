use bom_buddy::radar::{
    animation_filename, data_layer_filename, feature_layer_filename, FilenameError, RadarImageDataLayer,
    RadarImageFeature, RadarImageFeatureLayer, RadarLegendType, RadarType,
};

fn utc(y: i32, mo: u32, d: u32, h: u32, mi: u32) -> i64 {
    chrono::NaiveDate::from_ymd_opt(y, mo, d)
        .unwrap()
        .and_hms_opt(h, mi, 0)
        .unwrap()
        .and_utc()
        .timestamp()
}

const ALL_TYPES: [RadarType; 9] = [
    RadarType::SixtyFourKm,
    RadarType::OneTwentyEightKm,
    RadarType::TwoFiftySixKm,
    RadarType::FiveTwelveKm,
    RadarType::DopplerWind,
    RadarType::AccumulatedFiveMin,
    RadarType::AccumulatedOneHour,
    RadarType::AccumulatedSinceNine,
    RadarType::AccumulatedPreviousTwentyFour,
];

#[test]
fn radar_type_ids_round_trip() {
    for t in ALL_TYPES {
        assert_eq!(RadarType::from_id(t.id()), Ok(t));
    }
    assert_eq!(RadarType::OneTwentyEightKm.id(), '3');
    assert_eq!(RadarType::DopplerWind.id(), 'I');
    assert_eq!(RadarType::from_id('Z'), Err(FilenameError::InvalidRadarType('Z')));
}

#[test]
fn radar_type_tables() {
    assert_eq!(RadarType::AccumulatedOneHour.size(), RadarType::OneTwentyEightKm);
    assert_eq!(RadarType::FiveTwelveKm.size(), RadarType::FiveTwelveKm);
    assert_eq!(RadarType::SixtyFourKm.update_frequency(), 300);
    assert_eq!(RadarType::AccumulatedSinceNine.update_frequency(), 900);
    assert_eq!(RadarType::AccumulatedPreviousTwentyFour.update_frequency(), 86400);
    assert_eq!(RadarType::TwoFiftySixKm.check_after(), 120);
    assert_eq!(RadarType::AccumulatedPreviousTwentyFour.check_after(), 600);
    assert_eq!(RadarType::AccumulatedSinceNine.min_image_count(), 30);
    assert_eq!(RadarType::DopplerWind.min_image_count(), 18);
    assert_eq!(RadarType::DopplerWind.legend_type(), RadarLegendType::DopplerWind);
    assert_eq!(RadarType::AccumulatedFiveMin.legend_type(), RadarLegendType::AccumulatedRainfall);
    assert_eq!(RadarType::SixtyFourKm.legend_type(), RadarLegendType::Rainfall);
    assert_eq!(RadarLegendType::AccumulatedRainfall.id(), 1);
}

#[test]
fn data_layer_from_filename() {
    let layer = RadarImageDataLayer::from_filename("IDR023.T.202311130334.png").unwrap();
    assert_eq!(layer.radar_id, 2);
    assert_eq!(layer.radar_type, RadarType::OneTwentyEightKm);
    assert_eq!(layer.datetime, utc(2023, 11, 13, 3, 34));
    assert_eq!(layer.filename, "IDR023.T.202311130334.png");
    assert!(layer.png_buf.is_empty());
}

#[test]
fn data_layer_filename_errors() {
    let err = |n: &str| RadarImageDataLayer::from_filename(n).unwrap_err();
    assert_eq!(err("IDR023png"), FilenameError::NotRadarImage);
    assert_eq!(err("IDR023.png"), FilenameError::NotRadarImage);
    assert_eq!(err("I.T.202311130334.png"), FilenameError::NotRadarImage);
    assert_eq!(err("IDR023.T.2023111303.png"), FilenameError::InvalidTimestamp);
    assert_eq!(err("IDR023.T.202302300334.png"), FilenameError::InvalidTimestamp);
    assert_eq!(err("IDR02X.T.202311130334.png"), FilenameError::InvalidRadarType('X'));
    assert_eq!(err("IDRab3.T.202311130334.png"), FilenameError::InvalidRadarId);
}

#[test]
fn data_layer_filename_round_trip() {
    let t = utc(2023, 11, 13, 3, 34);
    let name = data_layer_filename(2, RadarType::OneTwentyEightKm, t);
    assert_eq!(name, "IDR023.T.202311130334.png");
    for ty in ALL_TYPES {
        for id in [0u32, 7, 40, 99] {
            for t in [utc(0, 1, 1, 0, 0), utc(1900, 3, 1, 12, 0), 0, utc(2000, 2, 29, 23, 59), utc(2024, 12, 31, 0, 5)] {
                let name = data_layer_filename(id, ty, t);
                let layer = RadarImageDataLayer::from_filename(&name).unwrap();
                assert_eq!((layer.radar_id, layer.radar_type, layer.datetime), (id, ty, t));
            }
        }
    }
}

#[test]
fn data_layer_filename_pads_radar_id() {
    let t = utc(2021, 1, 2, 3, 4);
    assert_eq!(data_layer_filename(7, RadarType::DopplerWind, t), "IDR07I.T.202101020304.png");
    assert_eq!(data_layer_filename(123, RadarType::SixtyFourKm, t), "IDR1234.T.202101020304.png");
}

#[test]
fn next_layer_is_predicted() {
    let layer = RadarImageDataLayer::from_filename("IDR023.T.202311130334.png").unwrap();
    assert_eq!(layer.next_datetime(), utc(2023, 11, 13, 3, 39));
    assert_eq!(layer.next_filename(), "IDR023.T.202311130339.png");
    let next = layer.expected_next();
    assert_eq!(next.filename, "IDR023.T.202311130339.png");
    assert_eq!(next.datetime, utc(2023, 11, 13, 3, 39));
    let daily = RadarImageDataLayer::from_filename("IDR66D.T.202312312330.png").unwrap();
    assert_eq!(daily.next_filename(), "IDR66D.T.202401012330.png");
    let since9 = RadarImageDataLayer::from_filename("IDR66C.T.202402282350.png").unwrap();
    assert_eq!(since9.next_filename(), "IDR66C.T.202402290005.png");
}

#[test]
fn same_layer_compares_file_names() {
    let a = RadarImageDataLayer::from_filename("IDR023.T.202311130334.png").unwrap();
    let mut b = a.clone();
    b.png_buf = vec![1, 2, 3];
    assert!(a.same_layer(&b));
    let c = RadarImageDataLayer::from_filename("IDR023.T.202311130339.png").unwrap();
    assert!(!a.same_layer(&c));
}

#[test]
fn feature_layer_from_filename() {
    let layer = RadarImageFeatureLayer::from_filename("IDR023.catchments.png").unwrap();
    assert_eq!(layer.feature, RadarImageFeature::Catchments);
    assert_eq!(layer.size, RadarType::OneTwentyEightKm);
    assert_eq!(layer.radar_id, 2);
    let districts = RadarImageFeatureLayer::from_filename("IDR664.wthrDistricts.png").unwrap();
    assert_eq!(districts.feature, RadarImageFeature::ForecastDistricts);
    assert_eq!(districts.radar_id, 66);
    assert_eq!(districts.size, RadarType::SixtyFourKm);
    assert_eq!(
        RadarImageFeatureLayer::from_filename("IDR023.rivers.png").unwrap_err(),
        FilenameError::InvalidFeature
    );
    assert_eq!(
        RadarImageFeatureLayer::from_filename("IDR02Q.range.png").unwrap_err(),
        FilenameError::InvalidRadarType('Q')
    );
}

#[test]
fn feature_layer_filename_round_trip() {
    for f in RadarImageFeature::all() {
        let name = feature_layer_filename(71, RadarType::TwoFiftySixKm, f);
        let layer = RadarImageFeatureLayer::from_filename(&name).unwrap();
        assert_eq!((layer.radar_id, layer.size, layer.feature), (71, RadarType::TwoFiftySixKm, f));
    }
    assert_eq!(
        feature_layer_filename(2, RadarType::OneTwentyEightKm, RadarImageFeature::Locations),
        "IDR023.locations.png"
    );
}

#[test]
fn animation_file_name_spans_the_frames() {
    let first = utc(2023, 11, 13, 3, 34);
    let last = utc(2023, 11, 13, 5, 29);
    assert_eq!(
        animation_filename(2, RadarType::OneTwentyEightKm, first, last),
        "IDR023.T.202311130334-202311130529.png"
    );
}
