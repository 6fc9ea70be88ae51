use bom_buddy::frames::{RadarImageFrame, RadarImageManager, RadarImageOptions};
use bom_buddy::radar::{
    feature_layer_filename, RadarImageDataLayer, RadarImageFeature, RadarImageFeatureLayer,
    RadarImageLegend, RadarLegendType, RadarType,
};
use std::io::Cursor;

fn png(r: u8, g: u8, b: u8, a: u8) -> Vec<u8> {
    let img = image::RgbaImage::from_pixel(512, 512, image::Rgba([r, g, b, a]));
    let mut out = Cursor::new(Vec::new());
    image::DynamicImage::ImageRgba8(img).write_to(&mut out, image::ImageOutputFormat::Png).unwrap();
    out.into_inner()
}

fn data_layer(name: &str, png_buf: Vec<u8>) -> RadarImageDataLayer {
    let mut l = RadarImageDataLayer::from_filename(name).unwrap();
    l.png_buf = png_buf;
    l
}

fn manager(opts: RadarImageOptions, frames: Vec<RadarImageFrame>) -> RadarImageManager {
    let legend = RadarImageLegend { legend_type: RadarLegendType::Rainfall, png_buf: png(10, 20, 30, 255) };
    let feature = RadarImageFeatureLayer {
        feature: RadarImageFeature::Locations,
        size: RadarType::SixtyFourKm,
        radar_id: 2,
        png_buf: png(0, 0, 0, 0),
        filename: feature_layer_filename(2, RadarType::SixtyFourKm, RadarImageFeature::Locations),
    };
    let layers = vec![
        data_layer("IDR024.T.202311130334.png", png(200, 0, 0, 255)),
        data_layer("IDR024.T.202311130339.png", png(0, 200, 0, 128)),
    ];
    RadarImageManager::new(2, RadarType::SixtyFourKm, legend, layers, vec![feature], opts, frames)
}

fn frame(name: &str) -> RadarImageFrame {
    let l = RadarImageDataLayer::from_filename(name).unwrap();
    RadarImageFrame {
        radar_type: l.radar_type,
        image: image::DynamicImage::new_rgba8(1, 1),
        radar_id: l.radar_id,
        datetime: l.datetime,
        filename: l.filename,
    }
}

#[test]
fn frames_are_composed_over_the_legend() {
    let mut opts = RadarImageOptions::default("/tmp/frames".to_string());
    opts.remove_header = true;
    let mut m = manager(opts, vec![]);
    m.construct_frames().unwrap();
    assert_eq!(m.frames.len(), 2);
    assert_eq!(m.frames[0].filename, "IDR024.T.202311130334.png");
    let first = m.frames[0].image.to_rgba8();
    // the data layer covers the legend below the header
    assert_eq!(first.get_pixel(100, 100).0, [200, 0, 0, 255]);
    // the header rows show the legend only
    assert_eq!(first.get_pixel(100, 5).0, [10, 20, 30, 255]);
    let second = m.frames[1].image.to_rgba8();
    assert_ne!(second.get_pixel(100, 100).0, [10, 20, 30, 255]);
    // nothing new to compose the second time
    m.construct_frames().unwrap();
    assert_eq!(m.frames.len(), 2);
}

#[test]
fn broken_png_is_an_error() {
    let mut m = manager(RadarImageOptions::default("/tmp/frames".to_string()), vec![]);
    m.data_layers[1].png_buf = vec![1, 2, 3];
    assert!(m.construct_frames().is_err());
    assert_eq!(m.frames.len(), 1);
}

#[test]
fn existing_frames_are_kept_unless_forced() {
    let existing = vec![frame("IDR024.T.202311130334.png")];
    let mut m = manager(RadarImageOptions::default("/tmp/frames".to_string()), existing);
    m.construct_frames().unwrap();
    assert_eq!(m.frames.len(), 2);
    assert_eq!(m.frames[0].image.width(), 1);
    let mut opts = RadarImageOptions::default("/tmp/frames".to_string());
    opts.force = true;
    let mut forced = manager(opts, vec![frame("IDR024.T.202311130334.png")]);
    forced.construct_frames().unwrap();
    assert_eq!(forced.frames.len(), 2);
    assert_eq!(forced.frames[0].image.width(), 512);
}

#[test]
fn manager_sorts_and_prunes_frames() {
    let mut opts = RadarImageOptions::default("/tmp/frames".to_string());
    opts.max_frames = Some(2);
    let frames = vec![
        frame("IDR024.T.202311130349.png"),
        frame("IDR024.T.202311130334.png"),
        frame("IDR024.T.202311130344.png"),
        frame("IDR024.T.202311130339.png"),
    ];
    let mut m = manager(opts, frames);
    m.sort_frames();
    let names: Vec<&str> = m.frames.iter().map(|f| f.filename.as_str()).collect();
    assert_eq!(names[0], "IDR024.T.202311130334.png");
    assert_eq!(names[3], "IDR024.T.202311130349.png");
    let (removed_layers, removed_frames) = m.prune();
    assert_eq!(removed_frames.len(), 2);
    assert_eq!(removed_layers.len(), 2);
    assert_eq!(m.frames.len(), 2);
    assert_eq!(m.frames[0].filename, "IDR024.T.202311130344.png");
    assert!(m.data_layers.is_empty());
}

#[test]
fn gap_prunes_older_run() {
    let frames = vec![
        frame("IDR024.T.202311130034.png"),
        frame("IDR024.T.202311130334.png"),
        frame("IDR024.T.202311130339.png"),
    ];
    let mut m = manager(RadarImageOptions::default("/tmp/frames".to_string()), frames);
    let (removed_layers, removed_frames) = m.prune();
    assert_eq!(removed_frames.len(), 1);
    assert_eq!(removed_frames[0].filename, "IDR024.T.202311130034.png");
    assert_eq!(removed_layers.len(), 1);
    assert_eq!(m.frames.len(), 2);
}

#[test]
fn plan_puts_base_features_under_the_data() {
    let mut opts = RadarImageOptions::default("/tmp/frames".to_string());
    opts.remove_header = true;
    let m = manager(opts, vec![frame("IDR024.T.202311130334.png")]);
    let plan = m.plan_frames();
    // only a locations layer exists: background, topography and range are skipped
    assert!(plan.base_layers.is_empty());
    assert_eq!(plan.top_layers, vec![0]);
    assert_eq!(plan.todo, vec![1]);
    assert!(plan.clear_header);
}

#[test]
fn equal_times_keep_their_order() {
    let mut a = frame("IDR024.T.202311130334.png");
    a.filename = "first".to_string();
    let mut b = frame("IDR024.T.202311130334.png");
    b.filename = "second".to_string();
    let c = frame("IDR024.T.202311130329.png");
    let mut m = manager(RadarImageOptions::default("/tmp/frames".to_string()), vec![a, b, c]);
    m.sort_frames();
    let names: Vec<&str> = m.frames.iter().map(|f| f.filename.as_str()).collect();
    assert_eq!(names, vec!["IDR024.T.202311130329.png", "first", "second"]);
}
