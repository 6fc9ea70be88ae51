use vstd::prelude::*;
use vstd::multiset::Multiset;
use vstd::seq_lib::{to_multiset_build, to_multiset_insert};

use crate::acquire::{
    base_features, names_of, layers_without_frames, max_frame_gap, prune_index, prunes_at, split_features,
    top_features,
};
use crate::radar::{
    RadarId, RadarImageDataLayer, RadarImageFeature, RadarImageFeatureLayer, RadarImageLegend,
    RadarType,
};
use crate::time::{valid_time, Timestamp};

verus! {

#[verifier::external_type_specification]
#[verifier::external_body]
pub struct ExDynamicImage(image::DynamicImage);

#[verifier::external_type_specification]
#[verifier::external_body]
pub struct ExImageError(image::ImageError);

/// Width and height of the bureau's radar images, in pixels.
pub const IMAGE_SIZE: u32 = 512;

/// Rows at the top of a data layer that hold the bureau's header.
pub const HEADER_ROWS: u32 = 16;

/// Whether the image crate decodes these bytes as a PNG file.
pub uninterp spec fn png_decodes(b: Seq<u8>) -> bool;

/// Relies on `image::load_from_memory_with_format` with `ImageFormat::Png`: decodes a PNG
/// file, or fails with the decoder's error; which of the two depends on the bytes alone.
#[verifier::external_body]
fn decode_png(png_buf: &Vec<u8>) -> (r: Result<image::DynamicImage, image::ImageError>)
    ensures
        r is Ok <==> png_decodes(png_buf@),
{
    image::load_from_memory_with_format(png_buf.as_slice(), image::ImageFormat::Png)
}

/// Relies on `RgbaImage::new`: a fully transparent RGBA image of the given size.
#[verifier::external_body]
fn blank_image(width: u32, height: u32) -> (r: image::DynamicImage) {
    image::DynamicImage::ImageRgba8(image::RgbaImage::new(width, height))
}

/// Relies on `imageops::overlay` at the origin: paints `top` over `base`, blending by
/// transparency and clipping to `base`.
#[verifier::external_body]
fn overlay(base: &mut image::DynamicImage, top: &image::DynamicImage) {
    image::imageops::overlay(base, top, 0, 0)
}

/// Relies on `DynamicImage`'s `Clone`: a copy of the image.
#[verifier::external_body]
fn copy_image(img: &image::DynamicImage) -> (r: image::DynamicImage) {
    img.clone()
}

/// Relies on `ImageBuffer::get_pixel_mut_checked`: makes the pixel at `(x, y)` of an RGBA
/// image transparent; other kinds of image and positions outside the image stay as they are.
#[verifier::external_body]
fn clear_pixel(img: &mut image::DynamicImage, x: u32, y: u32) {
    if let image::DynamicImage::ImageRgba8(rgba) = img {
        if let Some(p) = rgba.get_pixel_mut_checked(x, y) {
            *p = image::Rgba([0, 0, 0, 0]);
        }
    }
}

/// How radar images are composed and kept.
#[derive(Clone, Debug)]
pub struct RadarImageOptions {
    /// The overlays to draw, in the order in which they are stacked.
    pub features: Vec<RadarImageFeature>,
    pub max_frames: Option<u64>,
    pub radar_types: Vec<RadarType>,
    pub remove_header: bool,
    pub create_png: bool,
    pub create_apng: bool,
    pub frame_delay_ms: u16,
    pub image_dir: String,
    /// Compose every frame again, even those already composed.
    pub force: bool,
    pub open_mpv: bool,
    pub mpv_args: Vec<String>,
}

impl RadarImageOptions {
    /// The usual options, with frames written under `image_dir`.
    pub fn default(image_dir: String) -> (r: Self)
        ensures
            r.features@ == seq![
                RadarImageFeature::Background,
                RadarImageFeature::Topography,
                RadarImageFeature::Range,
                RadarImageFeature::Locations,
            ],
            r.max_frames == Some(24u64),
            r.radar_types@ == seq![RadarType::OneTwentyEightKm],
            !r.remove_header,
            r.create_png,
            !r.create_apng,
            r.frame_delay_ms == 200,
            r.image_dir == image_dir,
            !r.force,
            !r.open_mpv,
            names_of(r.mpv_args@) == seq![
                "--stop-screensaver=no"@,
                "--geometry=1024x1114"@,
                "--auto-window-resize=no"@,
                "--loop-playlist"@,
            ],
    {
        let features = vec![
            RadarImageFeature::Background,
            RadarImageFeature::Topography,
            RadarImageFeature::Range,
            RadarImageFeature::Locations,
        ];
        let radar_types = vec![RadarType::OneTwentyEightKm];
        let mpv_args = vec![
            crate::text::string_of("--stop-screensaver=no"),
            crate::text::string_of("--geometry=1024x1114"),
            crate::text::string_of("--auto-window-resize=no"),
            crate::text::string_of("--loop-playlist"),
        ];
        assert(features@ =~= seq![
            RadarImageFeature::Background,
            RadarImageFeature::Topography,
            RadarImageFeature::Range,
            RadarImageFeature::Locations,
        ]);
        assert(radar_types@ =~= seq![RadarType::OneTwentyEightKm]);
        assert(names_of(mpv_args@) =~= seq![
            "--stop-screensaver=no"@,
            "--geometry=1024x1114"@,
            "--auto-window-resize=no"@,
            "--loop-playlist"@,
        ]);
        RadarImageOptions {
            features,
            max_frames: Some(24),
            radar_types,
            remove_header: false,
            create_png: true,
            create_apng: false,
            frame_delay_ms: 200,
            image_dir,
            force: false,
            open_mpv: false,
            mpv_args,
        }
    }
}

/// A composed image: legend, overlays and the data of one layer.
#[derive(Debug)]
pub struct RadarImageFrame {
    pub radar_type: RadarType,
    pub image: image::DynamicImage,
    pub radar_id: RadarId,
    pub datetime: Timestamp,
    /// The file name the frame is written under, that of its data layer.
    pub filename: String,
}

/// The frames of one radar and type, and the layers they are composed from.
pub struct RadarImageManager {
    pub radar_type: RadarType,
    pub radar_id: RadarId,
    pub legend: RadarImageLegend,
    pub feature_layers: Vec<RadarImageFeatureLayer>,
    pub data_layers: Vec<RadarImageDataLayer>,
    pub frames: Vec<RadarImageFrame>,
    pub opts: RadarImageOptions,
}

pub open spec fn frame_times(frames: Seq<RadarImageFrame>) -> Seq<Timestamp> {
    frames.map_values(|f: RadarImageFrame| f.datetime)
}

pub open spec fn layer_times(layers: Seq<RadarImageDataLayer>) -> Seq<Timestamp> {
    layers.map_values(|l: RadarImageDataLayer| l.datetime)
}

pub open spec fn sorted_by_time(frames: Seq<RadarImageFrame>) -> bool {
    forall|i: int, j: int| 0 <= i < j < frames.len() ==> frames[i].datetime <= frames[j].datetime
}

/// Where `f` goes among frames sorted by time: before the first one taken at or after it.
pub open spec fn insert_position(t: Seq<RadarImageFrame>, f: RadarImageFrame) -> int
    decreases t.len(),
{
    if t.len() == 0 || t[0].datetime >= f.datetime {
        0
    } else {
        1 + insert_position(t.drop_first(), f)
    }
}

/// The frames ordered by time; frames of equal time keep their order.
pub open spec fn time_sorted(s: Seq<RadarImageFrame>) -> Seq<RadarImageFrame>
    decreases s.len(),
{
    if s.len() == 0 {
        Seq::empty()
    } else {
        let t = time_sorted(s.drop_first());
        t.insert(insert_position(t, s[0]), s[0])
    }
}

proof fn lemma_insert_position(t: Seq<RadarImageFrame>, f: RadarImageFrame, p: int)
    requires
        0 <= p <= t.len(),
        forall|j: int| 0 <= j < p ==> t[j].datetime < f.datetime,
        p < t.len() ==> t[p].datetime >= f.datetime,
    ensures
        insert_position(t, f) == p,
    decreases p,
{
    if p > 0 {
        lemma_insert_position(t.drop_first(), f, p - 1);
    }
}

/// Whether `todo` lists, in increasing order, exactly the positions of the layers whose
/// time has no frame in `kept`.
pub open spec fn missing_positions(
    todo: Seq<usize>,
    layers: Seq<RadarImageDataLayer>,
    kept: Seq<RadarImageFrame>,
) -> bool {
    &&& forall|x: int| 0 <= x < todo.len() ==> (#[trigger] todo[x]) < layers.len()
    &&& forall|x: int, y: int| 0 <= x < y < todo.len() ==> todo[x] < todo[y]
    &&& forall|i: int|
        0 <= i < layers.len() ==> (todo.contains(i as usize) <==> !frame_times(kept).contains(
            #[trigger] layers[i].datetime,
        ))
}

/// Whether the frames after `kept` are composed, one each and in order, from exactly the
/// layers whose time has no frame in `kept`.
pub open spec fn composed_in_order(
    frames: Seq<RadarImageFrame>,
    kept: Seq<RadarImageFrame>,
    layers: Seq<RadarImageDataLayer>,
) -> bool {
    exists|todo: Seq<usize>|
        #![trigger missing_positions(todo, layers, kept)]
        {
            &&& missing_positions(todo, layers, kept)
            &&& frames.len() == kept.len() + todo.len()
            &&& forall|x: int|
                0 <= x < todo.len() ==> frame_of(#[trigger] frames[kept.len() + x], layers[todo[x] as int])
        }
}

/// The first feature layer of `f` at position `i` or later.
pub open spec fn first_layer_from(
    layers: Seq<RadarImageFeatureLayer>,
    f: RadarImageFeature,
    i: int,
) -> Option<int>
    decreases layers.len() - i,
{
    if i < 0 || i >= layers.len() {
        None
    } else if layers[i].feature == f {
        Some(i)
    } else {
        first_layer_from(layers, f, i + 1)
    }
}

/// The first feature layer of `f`, if there is one.
pub open spec fn first_layer_of(layers: Seq<RadarImageFeatureLayer>, f: RadarImageFeature) -> Option<
    int,
> {
    first_layer_from(layers, f, 0)
}

/// The feature layers to paint for `features`, in their order; a feature with no layer is
/// skipped.
pub open spec fn layers_for(
    layers: Seq<RadarImageFeatureLayer>,
    features: Seq<RadarImageFeature>,
) -> Seq<usize>
    decreases features.len(),
{
    if features.len() == 0 {
        Seq::empty()
    } else {
        let rest = layers_for(layers, features.drop_last());
        match first_layer_of(layers, features.last()) {
            Some(i) => rest.push(i as usize),
            None => rest,
        }
    }
}

/// The frames that composing keeps: none when every frame is composed again.
pub open spec fn kept_frames(m: RadarImageManager) -> Seq<RadarImageFrame> {
    if m.opts.force {
        Seq::empty()
    } else {
        m.frames@
    }
}

/// How missing frames are composed: the legend with the `base_layers` painted over it in
/// order, then the data layer (its header rows cleared when `clear_header` is set), then
/// a transparent image with the `top_layers` painted in order. `todo` lists the data
/// layers that get a frame.
#[derive(Clone, Debug)]
pub struct FramePlan {
    pub base_layers: Vec<usize>,
    pub top_layers: Vec<usize>,
    pub todo: Vec<usize>,
    pub clear_header: bool,
}

/// Whether `p` is the plan for `m`: background and topography under the data, the other
/// configured features over it, each by its first layer, and a frame for every data
/// layer whose time has no kept frame.
pub open spec fn plans(m: RadarImageManager, p: FramePlan) -> bool {
    &&& p.base_layers@ == layers_for(m.feature_layers@, base_features(m.opts.features@))
    &&& p.top_layers@ == layers_for(m.feature_layers@, top_features(m.opts.features@))
    &&& missing_positions(p.todo@, m.data_layers@, kept_frames(m))
    &&& p.clear_header == m.opts.remove_header
}

/// Whether every image that composing needs decodes: the legend, the first layer of each
/// configured feature, and each data layer with no kept frame.
pub open spec fn inputs_decode(m: RadarImageManager) -> bool {
    &&& png_decodes(m.legend.png_buf@)
    &&& forall|j: int|
        0 <= j < layers_for(m.feature_layers@, base_features(m.opts.features@)).len()
            ==> png_decodes(
            m.feature_layers@[(#[trigger] layers_for(
                m.feature_layers@,
                base_features(m.opts.features@),
            )[j]) as int].png_buf@,
        )
    &&& forall|j: int|
        0 <= j < layers_for(m.feature_layers@, top_features(m.opts.features@)).len()
            ==> png_decodes(
            m.feature_layers@[(#[trigger] layers_for(
                m.feature_layers@,
                top_features(m.opts.features@),
            )[j]) as int].png_buf@,
        )
    &&& forall|i: int|
        0 <= i < m.data_layers@.len() && !frame_times(kept_frames(m)).contains(
            m.data_layers@[i].datetime,
        ) ==> png_decodes((#[trigger] m.data_layers@[i]).png_buf@)
}

proof fn lemma_first_layer_from(layers: Seq<RadarImageFeatureLayer>, f: RadarImageFeature, i: int)
    requires
        0 <= i,
    ensures
        first_layer_from(layers, f, i) matches Some(j) ==> i <= j < layers.len(),
    decreases layers.len() - i,
{
    if i < layers.len() && layers[i].feature != f {
        lemma_first_layer_from(layers, f, i + 1);
    }
}

proof fn lemma_layers_for(layers: Seq<RadarImageFeatureLayer>, features: Seq<RadarImageFeature>)
    ensures
        forall|j: int|
            0 <= j < layers_for(layers, features).len() ==> (#[trigger] layers_for(layers, features)[j])
                < layers.len(),
    decreases features.len(),
{
    if features.len() > 0 {
        lemma_layers_for(layers, features.drop_last());
        lemma_first_layer_from(layers, features.last(), 0);
        let rest = layers_for(layers, features.drop_last());
        let all = layers_for(layers, features);
        assert forall|j: int| 0 <= j < all.len() implies (#[trigger] all[j]) < layers.len() by {
            if j < rest.len() {
                assert(all[j] == rest[j]);
            }
        }
    }
}

/// The first feature layer of `f`.
fn first_layer_index(layers: &Vec<RadarImageFeatureLayer>, f: RadarImageFeature) -> (r: Option<usize>)
    ensures
        match r {
            Some(i) => first_layer_of(layers@, f) == Some(i as int),
            None => first_layer_of(layers@, f) is None,
        },
{
    let mut i: usize = 0;
    while i < layers.len()
        invariant
            i <= layers@.len(),
            first_layer_of(layers@, f) == first_layer_from(layers@, f, i as int),
        decreases layers@.len() - i,
    {
        if layers[i].feature == f {
            return Some(i);
        }
        i = i + 1;
    }
    None
}

/// The feature layers to paint for `features`, in order.
fn layers_for_features(layers: &Vec<RadarImageFeatureLayer>, features: &Vec<RadarImageFeature>) -> (r:
    Vec<usize>)
    ensures
        r@ == layers_for(layers@, features@),
{
    let mut r: Vec<usize> = Vec::new();
    let mut k: usize = 0;
    assert(features@.subrange(0, 0) =~= Seq::<RadarImageFeature>::empty());
    while k < features.len()
        invariant
            k <= features@.len(),
            r@ == layers_for(layers@, features@.subrange(0, k as int)),
        decreases features@.len() - k,
    {
        assert(features@.subrange(0, k + 1).drop_last() =~= features@.subrange(0, k as int));
        assert(features@.subrange(0, k + 1).last() == features@[k as int]);
        match first_layer_index(layers, features[k]) {
            Some(i) => r.push(i),
            None => {},
        }
        k = k + 1;
    }
    assert(features@.subrange(0, features@.len() as int) =~= features@);
    r
}

/// Whether every frame after `kept` is composed from a layer that had no frame in `kept`.
pub open spec fn composed_from(
    frames: Seq<RadarImageFrame>,
    kept: Seq<RadarImageFrame>,
    layers: Seq<RadarImageDataLayer>,
) -> bool {
    forall|k: int|
        kept.len() <= k < frames.len() ==> exists|i: int|
            0 <= i < layers.len() && !frame_times(kept).contains(#[trigger] layers[i].datetime)
                && frame_of(#[trigger] frames[k], layers[i])
}

/// Whether `frame` is the composition of `layer`: same radar, type, time and file name.
pub open spec fn frame_of(frame: RadarImageFrame, layer: RadarImageDataLayer) -> bool {
    &&& frame.radar_id == layer.radar_id
    &&& frame.radar_type == layer.radar_type
    &&& frame.datetime == layer.datetime
    &&& frame.filename@ == layer.filename@
}

impl RadarImageManager {
    pub fn new(
        radar_id: RadarId,
        radar_type: RadarType,
        legend: RadarImageLegend,
        data_layers: Vec<RadarImageDataLayer>,
        feature_layers: Vec<RadarImageFeatureLayer>,
        opts: RadarImageOptions,
        frames: Vec<RadarImageFrame>,
    ) -> (r: Self)
        ensures
            r.radar_id == radar_id,
            r.radar_type == radar_type,
            r.legend == legend,
            r.data_layers == data_layers,
            r.feature_layers == feature_layers,
            r.opts == opts,
            r.frames == frames,
    {
        RadarImageManager { radar_type, radar_id, legend, feature_layers, data_layers, frames, opts }
    }

    /// Appends newly fetched layers.
    pub fn add_data_layers(&mut self, layers: Vec<RadarImageDataLayer>)
        ensures
            final(self).data_layers@ == old(self).data_layers@ + layers@,
            final(self).frames == old(self).frames,
            final(self).opts == old(self).opts,
    {
        let mut layers = layers;
        self.data_layers.append(&mut layers);
    }

    /// The plan for composing the frames that are missing.
    pub fn plan_frames(&self) -> (p: FramePlan)
        ensures
            plans(*self, p),
    {
        let (base, top) = split_features(&self.opts.features);
        let base_layers = layers_for_features(&self.feature_layers, &base);
        let top_layers = layers_for_features(&self.feature_layers, &top);
        let ghost kept = kept_frames(*self);
        let mut existing: Vec<Timestamp> = Vec::new();
        if !self.opts.force {
            let mut f: usize = 0;
            while f < self.frames.len()
                invariant
                    f <= self.frames@.len(),
                    existing@ == frame_times(self.frames@).subrange(0, f as int),
                decreases self.frames@.len() - f,
            {
                existing.push(self.frames[f].datetime);
                assert(existing@ =~= frame_times(self.frames@).subrange(0, f + 1));
                f = f + 1;
            }
        }
        assert(existing@ =~= frame_times(kept));
        let mut times: Vec<Timestamp> = Vec::new();
        let mut l: usize = 0;
        while l < self.data_layers.len()
            invariant
                l <= self.data_layers@.len(),
                times@ == layer_times(self.data_layers@).subrange(0, l as int),
            decreases self.data_layers@.len() - l,
        {
            times.push(self.data_layers[l].datetime);
            assert(times@ =~= layer_times(self.data_layers@).subrange(0, l + 1));
            l = l + 1;
        }
        assert(times@ =~= layer_times(self.data_layers@));
        let todo = layers_without_frames(&times, &existing);
        proof {
            assert forall|i: int| 0 <= i < self.data_layers@.len() implies (todo@.contains(i as usize)
                <==> !frame_times(kept).contains(#[trigger] self.data_layers@[i].datetime)) by {
                assert(times@[i] == self.data_layers@[i].datetime);
            }
        }
        FramePlan { base_layers, top_layers, todo, clear_header: self.opts.remove_header }
    }

    /// Composes a frame for every data layer that has none, as `plan_frames` lays out. With
    /// `force`, every frame is composed again. Succeeds whenever every image it needs
    /// decodes.
    pub fn construct_frames(&mut self) -> (r: Result<(), image::ImageError>)
        ensures
            ({
                let kept = kept_frames(*old(self));
                let layers = old(self).data_layers@;
                &&& final(self).data_layers == old(self).data_layers
                &&& final(self).opts == old(self).opts
                &&& final(self).feature_layers == old(self).feature_layers
                &&& final(self).legend == old(self).legend
                &&& final(self).frames@.len() >= kept.len()
                &&& final(self).frames@.subrange(0, kept.len() as int) == kept
                &&& composed_from(final(self).frames@, kept, layers)
                &&& r is Ok ==> forall|i: int|
                    0 <= i < layers.len() ==> frame_times(final(self).frames@).contains(
                        #[trigger] layers[i].datetime,
                    )
                &&& r is Ok ==> composed_in_order(final(self).frames@, kept, layers)
                &&& inputs_decode(*old(self)) ==> r is Ok
            }),
    {
        let plan = self.plan_frames();
        let ghost kept = kept_frames(*self);
        let mut bottom = match decode_png(&self.legend.png_buf) {
            Ok(img) => img,
            Err(e) => {
                if self.opts.force {
                    self.frames.clear();
                }
                return Err(e);
            },
        };
        let mut top = blank_image(IMAGE_SIZE, IMAGE_SIZE);
        if self.opts.force {
            self.frames.clear();
        }
        assert(self.frames@ =~= kept);
        proof {
            lemma_layers_for(self.feature_layers@, base_features(self.opts.features@));
            lemma_layers_for(self.feature_layers@, top_features(self.opts.features@));
        }
        let ghost layers = self.data_layers@;
        if plan.todo.len() == 0 {
            proof {
                assert forall|i: int| 0 <= i < layers.len() implies frame_times(self.frames@).contains(
                    #[trigger] layers[i].datetime,
                ) by {
                    assert(!plan.todo@.contains(i as usize));
                }
                assert(composed_in_order(self.frames@, kept, layers)) by {
                    assert(missing_positions(plan.todo@, layers, kept));
                }
            }
            return Ok(());
        }
        let mut j: usize = 0;
        while j < plan.base_layers.len()
            invariant
                self.frames@ == kept,
                kept == kept_frames(*old(self)),
                self.data_layers == old(self).data_layers,
                self.opts == old(self).opts,
                self.feature_layers == old(self).feature_layers,
                self.legend == old(self).legend,
                plans(*old(self), plan),
                j <= plan.base_layers@.len(),
                forall|x: int| 0 <= x < plan.base_layers@.len() ==> (#[trigger] plan.base_layers@[x])
                    < self.feature_layers@.len(),
            decreases plan.base_layers@.len() - j,
        {
            let i = plan.base_layers[j];
            let layer = match decode_png(&self.feature_layers[i].png_buf) {
                Ok(img) => img,
                Err(e) => {
                    assert(layers_for(
                        old(self).feature_layers@,
                        base_features(old(self).opts.features@),
                    )[j as int] == i);
                    assert(!inputs_decode(*old(self)));
                    return Err(e);
                },
            };
            overlay(&mut bottom, &layer);
            j = j + 1;
        }
        let mut j: usize = 0;
        while j < plan.top_layers.len()
            invariant
                self.frames@ == kept,
                kept == kept_frames(*old(self)),
                self.data_layers == old(self).data_layers,
                self.opts == old(self).opts,
                self.feature_layers == old(self).feature_layers,
                self.legend == old(self).legend,
                plans(*old(self), plan),
                j <= plan.top_layers@.len(),
                forall|x: int| 0 <= x < plan.top_layers@.len() ==> (#[trigger] plan.top_layers@[x])
                    < self.feature_layers@.len(),
            decreases plan.top_layers@.len() - j,
        {
            let i = plan.top_layers[j];
            let layer = match decode_png(&self.feature_layers[i].png_buf) {
                Ok(img) => img,
                Err(e) => {
                    assert(layers_for(
                        old(self).feature_layers@,
                        top_features(old(self).opts.features@),
                    )[j as int] == i);
                    assert(!inputs_decode(*old(self)));
                    return Err(e);
                },
            };
            overlay(&mut top, &layer);
            j = j + 1;
        }
        let todo = &plan.todo;
        let mut t: usize = 0;
        while t < todo.len()
            invariant
                t <= todo@.len(),
                todo@ == plan.todo@,
                self.data_layers == old(self).data_layers,
                self.opts == old(self).opts,
                self.feature_layers == old(self).feature_layers,
                self.legend == old(self).legend,
                layers == self.data_layers@,
                plan.clear_header == self.opts.remove_header,
                missing_positions(todo@, layers, kept),
                kept == kept_frames(*old(self)),
                self.frames@.len() == kept.len() + t,
                self.frames@.subrange(0, kept.len() as int) == kept,
                composed_from(self.frames@, kept, layers),
                forall|x: int|
                    0 <= x < t ==> frame_of(
                        #[trigger] self.frames@[kept.len() + x],
                        layers[todo@[x] as int],
                    ),
            decreases todo@.len() - t,
        {
            let layer = &self.data_layers[todo[t]];
            let mut data = match decode_png(&layer.png_buf) {
                Ok(img) => img,
                Err(e) => {
                    proof {
                        let i = todo@[t as int] as int;
                        assert(todo@.contains(i as usize));
                        assert(!inputs_decode(*old(self)));
                    }
                    return Err(e);
                },
            };
            if plan.clear_header {
                self.remove_header(&mut data);
            }
            let mut composed = copy_image(&bottom);
            overlay(&mut composed, &data);
            overlay(&mut composed, &top);
            let frame = RadarImageFrame {
                radar_id: layer.radar_id,
                radar_type: layer.radar_type,
                filename: layer.filename.clone(),
                datetime: layer.datetime,
                image: composed,
            };
            let ghost before = self.frames@;
            self.frames.push(frame);
            assert(self.frames@.subrange(0, kept.len() as int) =~= kept);
            proof {
                let i = todo@[t as int] as int;
                assert(todo@.contains(i as usize));
                assert(frame_of(self.frames@[kept.len() + t], layers[i]));
                assert forall|k: int| kept.len() <= k < self.frames@.len() implies exists|j: int|
                    0 <= j < layers.len() && !frame_times(kept).contains(#[trigger] layers[j].datetime)
                        && frame_of(#[trigger] self.frames@[k], layers[j]) by {
                    if k < before.len() {
                        assert(self.frames@[k] == before[k]);
                    } else {
                        assert(!frame_times(kept).contains(layers[i].datetime));
                    }
                }
                assert(composed_from(self.frames@, kept, layers));
                assert forall|x: int| 0 <= x < t + 1 implies frame_of(
                    #[trigger] self.frames@[kept.len() + x],
                    layers[todo@[x] as int],
                ) by {
                    if x < t {
                        assert(self.frames@[kept.len() + x] == before[kept.len() + x]);
                    }
                }
            }
            t = t + 1;
        }
        proof {
            let frames = self.frames@;
            assert(composed_in_order(frames, kept, layers)) by {
                assert(missing_positions(todo@, layers, kept));
            }
            assert forall|i: int| 0 <= i < layers.len() implies frame_times(frames).contains(
                #[trigger] layers[i].datetime,
            ) by {
                if frame_times(kept).contains(layers[i].datetime) {
                    let y = choose|y: int|
                        0 <= y < frame_times(kept).len() && frame_times(kept)[y] == layers[i].datetime;
                    assert(frames[y] == kept[y]);
                    assert(frame_times(frames)[y] == layers[i].datetime);
                } else {
                    assert(todo@.contains(i as usize));
                    let x = choose|x: int| 0 <= x < todo@.len() && todo@[x] == i as usize;
                    assert(x < t);
                    assert(layers.len() == self.data_layers.len());
                    assert(todo@[x] as int == i);
                    assert(frame_of(frames[kept.len() + x], layers[todo@[x] as int]));
                    assert(frame_times(frames)[kept.len() + x] == layers[i].datetime);
                }
            }
        }
        Ok(())
    }

    /// Blanks the header rows at the top of a data layer.
    fn remove_header(&self, image: &mut image::DynamicImage) {
        let mut y: u32 = 0;
        while y < HEADER_ROWS
            decreases HEADER_ROWS - y,
        {
            let mut x: u32 = 0;
            while x < IMAGE_SIZE
                decreases IMAGE_SIZE - x,
            {
                clear_pixel(image, x, y);
                x = x + 1;
            }
            y = y + 1;
        }
    }

    /// Orders the frames oldest first, keeping frames of equal time in their order.
    pub fn sort_frames(&mut self)
        ensures
            sorted_by_time(final(self).frames@),
            final(self).frames@.to_multiset() == old(self).frames@.to_multiset(),
            final(self).frames@.len() == old(self).frames@.len(),
            final(self).frames@ == time_sorted(old(self).frames@),
            final(self).data_layers == old(self).data_layers,
            final(self).opts == old(self).opts,
            final(self).radar_type == old(self).radar_type,
            final(self).radar_id == old(self).radar_id,
            final(self).legend == old(self).legend,
            final(self).feature_layers == old(self).feature_layers,
    {
        let mut rest: Vec<RadarImageFrame> = Vec::new();
        std::mem::swap(&mut rest, &mut self.frames);
        let ghost input = rest@;
        assert(input.subrange(input.len() as int, input.len() as int) =~= Seq::<RadarImageFrame>::empty());
        assert(input.subrange(0, input.len() as int) =~= input);
        // take the frames from the back, so that inserting after equal times keeps order
        let mut sorted: Vec<RadarImageFrame> = Vec::new();
        proof {
            broadcast use vstd::multiset::group_multiset_axioms;
            broadcast use vstd::seq_lib::group_to_multiset_ensures;
            broadcast use vstd::multiset::lemma_multiset_empty_len;

            assert(sorted@.to_multiset().len() == 0);
            assert(sorted@.to_multiset() =~= Multiset::empty());
            assert(input.to_multiset().add(Multiset::empty()) =~= input.to_multiset());
        }
        while rest.len() > 0
            invariant
                sorted_by_time(sorted@),
                sorted@.to_multiset().add(rest@.to_multiset()) == input.to_multiset(),
                sorted@.len() + rest@.len() == input.len(),
                rest@ == input.subrange(0, rest@.len() as int),
                sorted@ == time_sorted(input.subrange(rest@.len() as int, input.len() as int)),
            decreases rest@.len(),
        {
            let ghost before_rest = rest@;
            let ghost before_sorted = sorted@;
            let frame = rest.pop().unwrap();
            let mut p: usize = 0;
            while p < sorted.len() && sorted[p].datetime < frame.datetime
                invariant
                    p <= sorted@.len(),
                    forall|j: int| 0 <= j < p ==> sorted@[j].datetime < frame.datetime,
                decreases sorted@.len() - p,
            {
                p = p + 1;
            }
            proof {
                lemma_insert_position(sorted@, frame, p as int);
                let suffix = input.subrange(rest@.len() as int, input.len() as int);
                assert(suffix[0] == frame);
                assert(suffix.drop_first() =~= input.subrange(rest@.len() as int + 1, input.len() as int));
                assert(rest@ =~= input.subrange(0, rest@.len() as int));
                to_multiset_build(rest@, frame);
                assert(before_rest =~= rest@.push(frame));
                to_multiset_insert(sorted@, p as int, frame);
                broadcast use vstd::multiset::group_multiset_axioms;

                assert(sorted@.insert(p as int, frame).to_multiset().add(rest@.to_multiset())
                    =~= before_sorted.to_multiset().add(before_rest.to_multiset()));
            }
            sorted.insert(p, frame);
            proof {
                assert forall|i: int, j: int| 0 <= i < j < sorted@.len() implies sorted@[i].datetime
                    <= sorted@[j].datetime by {
                    if j < p {
                        assert(sorted@[j] == before_sorted[j]);
                        assert(sorted@[i] == before_sorted[i]);
                    } else if j == p {
                        assert(sorted@[i] == before_sorted[i]);
                    } else if i < p {
                        assert(sorted@[i] == before_sorted[i]);
                        assert(sorted@[j] == before_sorted[j - 1]);
                    } else if i == p {
                        assert(sorted@[j] == before_sorted[j - 1]);
                        if p < before_sorted.len() {
                            assert(before_sorted[p as int].datetime >= frame.datetime);
                        }
                    } else {
                        assert(sorted@[i] == before_sorted[i - 1]);
                        assert(sorted@[j] == before_sorted[j - 1]);
                    }
                }
            }
        }
        proof {
            broadcast use vstd::multiset::group_multiset_axioms;
            broadcast use vstd::seq_lib::group_to_multiset_ensures;
            broadcast use vstd::multiset::lemma_multiset_empty_len;

            assert(rest@.to_multiset().len() == 0);
            assert(rest@.to_multiset() =~= Multiset::empty());
            assert(sorted@.to_multiset().add(Multiset::empty()) =~= sorted@.to_multiset());
        }
        self.frames = sorted;
    }

    /// Drops old frames: those beyond `max_frames`, and all those before the last gap
    /// longer than four periods of the radar type, which cannot be animated with the newer
    /// ones. The data layers at the same positions go too. Returns the dropped layers,
    /// to be deleted from storage, and the dropped frames, whose files are to be deleted.
    pub fn prune(&mut self) -> (r: (Vec<RadarImageDataLayer>, Vec<RadarImageFrame>))
        requires
            forall|k: int| 0 <= k < old(self).frames@.len() ==> valid_time(
                (#[trigger] old(self).frames@[k]).datetime as int,
            ),
        ensures
            sorted_by_time(r.1@ + final(self).frames@),
            r.1@ + final(self).frames@ == time_sorted(old(self).frames@),
            (r.1@ + final(self).frames@).to_multiset() == old(self).frames@.to_multiset(),
            prunes_at(
                frame_times(r.1@ + final(self).frames@),
                old(self).opts.max_frames,
                4 * old(self).radar_type.spec_update_frequency(),
                r.1@.len() as int,
            ),
            r.0@ + final(self).data_layers@ == old(self).data_layers@,
            r.0@.len() == if r.1@.len() <= old(self).data_layers@.len() {
                r.1@.len()
            } else {
                old(self).data_layers@.len()
            },
            final(self).opts == old(self).opts,
            final(self).radar_type == old(self).radar_type,
            final(self).radar_id == old(self).radar_id,
            final(self).legend == old(self).legend,
            final(self).feature_layers == old(self).feature_layers,
    {
        self.sort_frames();
        let ghost sorted = self.frames@;
        proof {
            assert forall|k: int| 0 <= k < sorted.len() implies valid_time(
                (#[trigger] sorted[k]).datetime as int,
            ) by {
                broadcast use vstd::seq_lib::group_to_multiset_ensures;

                assert(sorted.contains(sorted[k]));
                assert(sorted.to_multiset().count(sorted[k]) > 0);
                assert(old(self).frames@.to_multiset().count(sorted[k]) > 0);
                assert(old(self).frames@.contains(sorted[k]));
            }
        }
        let mut times: Vec<Timestamp> = Vec::new();
        let mut f: usize = 0;
        while f < self.frames.len()
            invariant
                f <= self.frames@.len(),
                self.frames@ == sorted,
                forall|k: int| 0 <= k < sorted.len() ==> valid_time((#[trigger] sorted[k]).datetime as int),
                times@ == frame_times(self.frames@).subrange(0, f as int),
            decreases self.frames@.len() - f,
        {
            times.push(self.frames[f].datetime);
            assert(times@ =~= frame_times(self.frames@).subrange(0, f + 1));
            f = f + 1;
        }
        assert(times@ =~= frame_times(sorted));
        let cut = prune_index(&times, self.opts.max_frames, max_frame_gap(self.radar_type));
        let kept_frames = self.frames.split_off(cut);
        let mut removed_frames = kept_frames;
        std::mem::swap(&mut removed_frames, &mut self.frames);
        let layer_cut = if cut <= self.data_layers.len() {
            cut
        } else {
            self.data_layers.len()
        };
        let kept_layers = self.data_layers.split_off(layer_cut);
        let mut removed_layers = kept_layers;
        std::mem::swap(&mut removed_layers, &mut self.data_layers);
        assert(removed_frames@ + self.frames@ =~= sorted);
        assert(removed_layers@ + self.data_layers@ =~= old(self).data_layers@);
        (removed_layers, removed_frames)
    }
}

/// The frames left after pruning number at most `max_frames` and have no gap longer than
/// four periods of their radar type between neighbours.
pub proof fn lemma_pruned_manager(
    removed: Seq<RadarImageFrame>,
    kept: Seq<RadarImageFrame>,
    max_frames: Option<u64>,
    t: RadarType,
)
    requires
        prunes_at(
            frame_times(removed + kept),
            max_frames,
            4 * t.spec_update_frequency(),
            removed.len() as int,
        ),
    ensures
        max_frames matches Some(m) ==> kept.len() <= m,
        forall|k: int|
            0 <= k < kept.len() - 1 ==> kept[k + 1].datetime - (#[trigger] kept[k]).datetime <= 4
                * t.spec_update_frequency(),
{
    let all = frame_times(removed + kept);
    assert forall|k: int| 0 <= k < kept.len() - 1 implies kept[k + 1].datetime - (
    #[trigger] kept[k]).datetime <= 4 * t.spec_update_frequency() by {
        assert(all[removed.len() + k] == kept[k].datetime);
        assert(all[removed.len() + k + 1] == kept[k + 1].datetime);
    }
}

} // verus!
