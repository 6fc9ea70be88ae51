use vstd::prelude::*;

use crate::radar::{
    data_layer_name, decode_data_layer, name_prefix, name_prefix_of, substring_equals, FilenameError,
    RadarId, RadarImageDataLayer, RadarImageFeature, RadarType,
};
use crate::time::{valid_time, Timestamp, MAX_TIME, MINUTE};
use vstd::multiset::Multiset;
use vstd::seq_lib::{to_multiset_build, to_multiset_insert};

verus! {

/// What to do next for one radar and type while catching up with the remote directory.
#[derive(Debug)]
pub enum AcquireStep {
    /// The next image is not due yet: keep the connection alive and stop for now.
    Wait,
    /// Fetch the image of this layer by its predicted file name.
    Fetch(RadarImageDataLayer),
    /// List the remote directory and take what is new from it.
    List,
}

/// The gap after which prediction gives up and the directory is listed instead.
pub open spec fn stale_gap(t: RadarType) -> int {
    t.spec_update_frequency() * t.spec_min_image_count()
}

/// Decides the next step after `last`, the newest layer known: list when the gap since
/// it is too long to catch up by prediction, wait when the next image is not due yet,
/// and otherwise fetch the image predicted next.
pub fn plan_next(last: &RadarImageDataLayer, now: Timestamp) -> (r: AcquireStep)
    requires
        valid_time(now as int),
        valid_time(last.datetime as int),
    ensures
        now - last.datetime > stale_gap(last.radar_type) ==> r is List,
        now - last.datetime <= stale_gap(last.radar_type) ==> {
            let next = last.spec_next_datetime();
            &&& now < next + last.radar_type.spec_check_after() ==> r is Wait
            &&& now >= next + last.radar_type.spec_check_after() ==> match r {
                AcquireStep::Fetch(l) => l.radar_id == last.radar_id && l.radar_type
                    == last.radar_type && l.datetime == next && l.filename@ == data_layer_name(
                    last.radar_id,
                    last.radar_type,
                    next,
                ) && l.png_buf@.len() == 0,
                _ => false,
            }
        },
{
    let t = last.radar_type;
    let since = now - last.datetime;
    let frequency = t.update_frequency();
    let count = t.min_image_count() as i64;
    assert(frequency * count <= 86400 * 30) by (nonlinear_arith)
        requires
            0 < frequency <= 86400,
            1 <= count <= 30,
    ;
    let gap = frequency * count;
    if since > gap {
        return AcquireStep::List;
    }
    let next = last.next_datetime();
    if now < next + t.check_after() {
        return AcquireStep::Wait;
    }
    AcquireStep::Fetch(last.expected_next())
}

/// After the predicted image `expected` was not found: whether to list the directory,
/// which is when a minute more than the usual lag has passed.
pub fn after_missing(expected: &RadarImageDataLayer, now: Timestamp) -> (list: bool)
    requires
        expected.datetime <= MAX_TIME,
    ensures
        list == (now > expected.datetime + expected.radar_type.spec_check_after() + MINUTE),
{
    now > expected.datetime + expected.radar_type.check_after() + MINUTE
}

/// What fetching a predicted image gave.
#[derive(Debug)]
pub enum FetchOutcome {
    /// The image's PNG bytes.
    Found(Vec<u8>),
    /// The image was not there.
    Missing,
}

/// What to do after fetching a predicted image.
#[derive(Debug)]
pub enum FetchDecision {
    /// Keep the layer, now with its image, as the newest known, and predict the next.
    Continue(RadarImageDataLayer),
    /// Stop predicting and list the directory.
    List,
    /// Stop for now; the image may just be late.
    Stop,
}

/// Decides what follows a predicted fetch: a found image is kept and prediction goes on;
/// a missing one ends this pass, with a listing once it is more than a minute later than
/// its usual lag.
pub fn after_fetch(expected: RadarImageDataLayer, outcome: FetchOutcome, now: Timestamp) -> (r:
    FetchDecision)
    requires
        expected.datetime <= MAX_TIME,
    ensures
        match outcome {
            FetchOutcome::Found(png) => match r {
                FetchDecision::Continue(l) => l.radar_id == expected.radar_id && l.radar_type
                    == expected.radar_type && l.datetime == expected.datetime && l.filename
                    == expected.filename && l.png_buf == png,
                _ => false,
            },
            FetchOutcome::Missing => if now > expected.datetime
                + expected.radar_type.spec_check_after() + MINUTE {
                r is List
            } else {
                r is Stop
            },
        },
{
    match outcome {
        FetchOutcome::Found(png) => {
            let mut layer = expected;
            layer.png_buf = png;
            FetchDecision::Continue(layer)
        },
        FetchOutcome::Missing => {
            if after_missing(&expected, now) {
                FetchDecision::List
            } else {
                FetchDecision::Stop
            }
        },
    }
}

pub open spec fn starts_with(s: Seq<char>, p: Seq<char>) -> bool {
    p.len() <= s.len() && s.subrange(0, p.len() as int) == p
}

pub open spec fn names_of(v: Seq<String>) -> Seq<Seq<char>> {
    v.map_values(|s: String| s@)
}

pub open spec fn layer_names(v: Seq<RadarImageDataLayer>) -> Seq<Seq<char>> {
    v.map_values(|l: RadarImageDataLayer| l.filename@)
}

/// Whether a listed name is new data for the radar and type: it has their prefix, is
/// neither known nor staged, and is not older than `last`. Assumes the name reads as a
/// data layer.
pub open spec fn wanted(
    n: Seq<char>,
    existing: Seq<Seq<char>>,
    staged: Seq<Seq<char>>,
    last: Option<int>,
) -> bool {
    let t = decode_data_layer(n)->Ok_0.2;
    !existing.contains(n) && !staged.contains(n) && !(last is Some && t < last->0)
}

pub open spec fn optional_time(t: Option<Timestamp>) -> Option<int> {
    match t {
        Some(v) => Some(v as int),
        None => None,
    }
}

/// The names of `listing` that are new data for the radar and type, in listing order and
/// each once, or the error of the first name with their prefix that is not a data layer.
pub open spec fn listed_candidates(
    listing: Seq<Seq<char>>,
    id: RadarId,
    ty: RadarType,
    existing: Seq<Seq<char>>,
    staged: Seq<Seq<char>>,
    last: Option<int>,
) -> Result<Seq<Seq<char>>, FilenameError>
    decreases listing.len(),
{
    if listing.len() == 0 {
        Ok(Seq::empty())
    } else {
        match listed_candidates(listing.drop_last(), id, ty, existing, staged, last) {
            Err(e) => Err(e),
            Ok(c) => {
                let n = listing.last();
                if !starts_with(n, name_prefix(id, ty)) {
                    Ok(c)
                } else {
                    match decode_data_layer(n) {
                        Err(e) => Err(e),
                        Ok(_) => if wanted(n, existing, staged, last) && !c.contains(n) {
                            Ok(c.push(n))
                        } else {
                            Ok(c)
                        },
                    }
                }
            },
        }
    }
}

/// The newest `max` of `c`, or all of them when there is no cap.
pub open spec fn keep_newest<T>(c: Seq<T>, max: Option<u64>) -> Seq<T> {
    match max {
        Some(m) => if c.len() > m {
            c.subrange(c.len() - m, c.len() as int)
        } else {
            c
        },
        None => c,
    }
}

/// Whether `s` starts with `p`.
pub fn has_prefix(s: &str, p: &str) -> (r: bool)
    ensures
        r == starts_with(s@, p@),
{
    let n = s.unicode_len();
    let m = p.unicode_len();
    if m > n {
        return false;
    }
    substring_equals(s, 0, m, p)
}

/// Whether `v` holds the name `s`.
pub fn contains_name(v: &Vec<String>, s: &str) -> (r: bool)
    ensures
        r == names_of(v@).contains(s@),
{
    let mut i: usize = 0;
    while i < v.len()
        invariant
            i <= v@.len(),
            forall|j: int| 0 <= j < i ==> v@[j]@ != s@,
        decreases v@.len() - i,
    {
        let n = v[i].as_str().unicode_len();
        if substring_equals(v[i].as_str(), 0, n, s) {
            assert(v@[i as int]@.subrange(0, n as int) =~= v@[i as int]@);
            assert(names_of(v@)[i as int] == s@);
            return true;
        }
        assert(v@[i as int]@.subrange(0, n as int) =~= v@[i as int]@);
        i = i + 1;
    }
    proof {
        if names_of(v@).contains(s@) {
            let j = choose|j: int| 0 <= j < names_of(v@).len() && names_of(v@)[j] == s@;
            assert(v@[j]@ == s@);
        }
    }
    false
}

/// Whether one of `v` has the file name `s`.
pub fn contains_layer(v: &Vec<RadarImageDataLayer>, s: &str) -> (r: bool)
    ensures
        r == layer_names(v@).contains(s@),
{
    let mut i: usize = 0;
    while i < v.len()
        invariant
            i <= v@.len(),
            forall|j: int| 0 <= j < i ==> v@[j].filename@ != s@,
        decreases v@.len() - i,
    {
        let n = v[i].filename.as_str().unicode_len();
        if substring_equals(v[i].filename.as_str(), 0, n, s) {
            assert(v@[i as int].filename@.subrange(0, n as int) =~= v@[i as int].filename@);
            assert(layer_names(v@)[i as int] == s@);
            return true;
        }
        assert(v@[i as int].filename@.subrange(0, n as int) =~= v@[i as int].filename@);
        i = i + 1;
    }
    proof {
        if layer_names(v@).contains(s@) {
            let j = choose|j: int| 0 <= j < layer_names(v@).len() && layer_names(v@)[j] == s@;
            assert(v@[j].filename@ == s@);
        }
    }
    false
}

/// From a directory listing, the data layers of one radar and type that are neither
/// known (`existing`) nor already fetched in this pass (`staged`) and not older than
/// `last`, keeping the newest `max_frames`. Their images are left empty, to be fetched.
pub fn select_listed(
    listing: &Vec<String>,
    radar_id: RadarId,
    radar_type: RadarType,
    existing: &Vec<String>,
    staged: &Vec<RadarImageDataLayer>,
    last: Option<Timestamp>,
    max_frames: Option<u64>,
) -> (r: Result<Vec<RadarImageDataLayer>, FilenameError>)
    ensures
        ({
            let spec_last = optional_time(last);
            let c = listed_candidates(
                names_of(listing@),
                radar_id,
                radar_type,
                names_of(existing@),
                layer_names(staged@),
                spec_last,
            );
            match r {
                Ok(layers) => c is Ok && exists|all: Seq<RadarImageDataLayer>|
                    {
                        &&& layer_names(all).to_multiset() == c->Ok_0.to_multiset()
                        &&& sorted_layers(all)
                        &&& layers@ == keep_newest(all, max_frames)
                        &&& layer_names(layers@).no_duplicates()
                        &&& forall|k: int|
                            0 <= k < all.len() ==> (#[trigger] all[k]).named()
                                && all[k].png_buf@.len() == 0
                                && (last matches Some(l) ==> all[k].datetime >= l)
                    },
                Err(e) => c == Err::<Seq<Seq<char>>, FilenameError>(e),
            }
        }),
{
    let ghost spec_last = optional_time(last);
    let prefix = name_prefix_of(radar_id, radar_type);
    let mut todo: Vec<RadarImageDataLayer> = Vec::new();
    let mut i: usize = 0;
    assert(names_of(listing@).subrange(0, 0) =~= Seq::<Seq<char>>::empty());
    assert(layer_names(todo@) =~= Seq::<Seq<char>>::empty());
    while i < listing.len()
        invariant
            i <= listing@.len(),
            prefix@ == name_prefix(radar_id, radar_type),
            spec_last == optional_time(last),
            listed_candidates(
                names_of(listing@).subrange(0, i as int),
                radar_id,
                radar_type,
                names_of(existing@),
                layer_names(staged@),
                spec_last,
            ) == Ok::<_, FilenameError>(layer_names(todo@)),
            forall|k: int|
                0 <= k < todo@.len() ==> (#[trigger] todo@[k]).named() && todo@[k].png_buf@.len()
                    == 0 && (last matches Some(l) ==> todo@[k].datetime >= l),
            layer_names(todo@).no_duplicates(),
        decreases listing@.len() - i,
    {
        let ghost before = names_of(listing@).subrange(0, i as int);
        let ghost upto = names_of(listing@).subrange(0, i + 1);
        assert(upto.drop_last() =~= before);
        assert(upto.last() == listing@[i as int]@);
        let name = listing[i].as_str();
        let ghost existing_names = names_of(existing@);
        let ghost staged_names = layer_names(staged@);
        let ghost old_todo = layer_names(todo@);
        assert(listed_candidates(before, radar_id, radar_type, existing_names, staged_names, spec_last)
            == Ok::<_, FilenameError>(old_todo));
        if has_prefix(name, prefix.as_str()) {
            let layer = match RadarImageDataLayer::from_filename(name) {
                Ok(l) => l,
                Err(e) => {
                    proof {
                        assert(listed_candidates(upto, radar_id, radar_type, existing_names, staged_names, spec_last)
                            == Err::<Seq<Seq<char>>, FilenameError>(e));
                        lemma_candidates_error_stays(
                            names_of(listing@),
                            (i + 1) as int,
                            radar_id,
                            radar_type,
                            existing_names,
                            staged_names,
                            spec_last,
                        );
                    }
                    return Err(e);
                },
            };
            let known = contains_name(existing, name) || contains_layer(staged, name)
                || contains_layer(&todo, name);
            let older = match last {
                Some(l) => layer.datetime < l,
                None => false,
            };
            assert(existing_names.contains(name@) || staged_names.contains(name@) || old_todo.contains(
                name@,
            ) <==> known);
            assert(decode_data_layer(name@)->Ok_0.2 == layer.datetime as int);
            assert((spec_last is Some && (layer.datetime as int) < spec_last->0) <==> older);
            assert((wanted(name@, existing_names, staged_names, spec_last) && !old_todo.contains(name@))
                == (!known && !older));
            if !known && !older {
                proof {
                    assert forall|x: int, y: int|
                        0 <= x < y < old_todo.push(name@).len() implies old_todo.push(name@)[x]
                        != old_todo.push(name@)[y] by {
                        if y == old_todo.len() {
                            assert(old_todo[x] == old_todo.push(name@)[x]);
                        }
                    }
                }
                todo.push(layer);
                assert(layer_names(todo@) =~= old_todo.push(name@));
            }
            assert(listed_candidates(upto, radar_id, radar_type, existing_names, staged_names, spec_last)
                == Ok::<_, FilenameError>(layer_names(todo@)));
        } else {
            assert(listed_candidates(upto, radar_id, radar_type, existing_names, staged_names, spec_last)
                == Ok::<_, FilenameError>(layer_names(todo@)));
        }
        i = i + 1;
    }
    assert(names_of(listing@).subrange(0, listing@.len() as int) =~= names_of(listing@));
    let ghost found = todo@;
    let sorted = sort_layers_by_time(todo);
    proof {
        assert forall|k: int| 0 <= k < sorted@.len() implies (#[trigger] sorted@[k]).named()
            && sorted@[k].png_buf@.len() == 0 && (last matches Some(l) ==> sorted@[k].datetime
            >= l) by {
            broadcast use vstd::seq_lib::group_to_multiset_ensures;

            assert(sorted@.contains(sorted@[k]));
            assert(sorted@.to_multiset().count(sorted@[k]) > 0);
            assert(found.to_multiset().count(sorted@[k]) > 0);
            assert(found.contains(sorted@[k]));
        }
        let names = layer_names(found);
        names.lemma_multiset_has_no_duplicates();
        assert(layer_names(sorted@).to_multiset() == names.to_multiset());
        layer_names(sorted@).lemma_multiset_has_no_duplicates_conv();
    }
    let ghost all = sorted@;
    match max_frames {
        Some(m) => {
            if (sorted.len() as u64) > m {
                let mut sorted = sorted;
                let drop = sorted.len() - (m as usize);
                let kept = sorted.split_off(drop);
                assert(kept@ =~= keep_newest(all, max_frames));
                assert(layer_names(kept@) =~= layer_names(all).subrange(drop as int, all.len() as int));
                return Ok(kept);
            }
        },
        None => {},
    }
    Ok(sorted)
}

pub open spec fn sorted_layers(v: Seq<RadarImageDataLayer>) -> bool {
    forall|i: int, j: int| 0 <= i < j < v.len() ==> v[i].datetime <= v[j].datetime
}

/// The layers ordered oldest first; layers of equal time keep their order.
pub fn sort_layers_by_time(v: Vec<RadarImageDataLayer>) -> (r: Vec<RadarImageDataLayer>)
    ensures
        sorted_layers(r@),
        r@.to_multiset() == v@.to_multiset(),
        layer_names(r@).to_multiset() == layer_names(v@).to_multiset(),
{
    let mut rest = v;
    let ghost input = rest@;
    let mut sorted: Vec<RadarImageDataLayer> = Vec::new();
    proof {
        broadcast use vstd::multiset::group_multiset_axioms;
        broadcast use vstd::seq_lib::group_to_multiset_ensures;
        broadcast use vstd::multiset::lemma_multiset_empty_len;

        assert(sorted@.to_multiset().len() == 0);
        assert(layer_names(sorted@).len() == 0);
        assert(layer_names(sorted@).to_multiset().len() == 0);
        assert(sorted@.to_multiset() =~= Multiset::empty());
        assert(layer_names(sorted@).to_multiset() =~= Multiset::empty());
        assert(input.to_multiset().add(Multiset::empty()) =~= input.to_multiset());
        assert(layer_names(input).to_multiset().add(Multiset::empty()) =~= layer_names(
            input,
        ).to_multiset());
    }
    while rest.len() > 0
        invariant
            sorted_layers(sorted@),
            sorted@.to_multiset().add(rest@.to_multiset()) == input.to_multiset(),
            layer_names(sorted@).to_multiset().add(layer_names(rest@).to_multiset()) == layer_names(
                input,
            ).to_multiset(),
        decreases rest@.len(),
    {
        let ghost before_rest = rest@;
        let ghost before_sorted = sorted@;
        let layer = rest.pop().unwrap();
        let mut p: usize = 0;
        while p < sorted.len() && sorted[p].datetime <= layer.datetime
            invariant
                p <= sorted@.len(),
                forall|j: int| 0 <= j < p ==> sorted@[j].datetime <= layer.datetime,
            decreases sorted@.len() - p,
        {
            p = p + 1;
        }
        proof {
            broadcast use vstd::multiset::group_multiset_axioms;

            assert(before_rest =~= rest@.push(layer));
            to_multiset_build(rest@, layer);
            to_multiset_insert(sorted@, p as int, layer);
            assert(layer_names(before_rest) =~= layer_names(rest@).push(layer.filename@));
            to_multiset_build(layer_names(rest@), layer.filename@);
            assert(layer_names(sorted@.insert(p as int, layer)) =~= layer_names(sorted@).insert(
                p as int,
                layer.filename@,
            ));
            to_multiset_insert(layer_names(sorted@), p as int, layer.filename@);
            assert(sorted@.insert(p as int, layer).to_multiset().add(rest@.to_multiset())
                =~= before_sorted.to_multiset().add(before_rest.to_multiset()));
            assert(layer_names(sorted@.insert(p as int, layer)).to_multiset().add(
                layer_names(rest@).to_multiset(),
            ) =~= layer_names(before_sorted).to_multiset().add(
                layer_names(before_rest).to_multiset(),
            ));
        }
        sorted.insert(p, layer);
        proof {
            assert forall|i: int, j: int| 0 <= i < j < sorted@.len() implies sorted@[i].datetime
                <= sorted@[j].datetime by {
                if j < p {
                    assert(sorted@[j] == before_sorted[j]);
                    assert(sorted@[i] == before_sorted[i]);
                } else if j == p {
                    assert(sorted@[i] == before_sorted[i]);
                } else if i < p {
                    assert(sorted@[i] == before_sorted[i]);
                    assert(sorted@[j] == before_sorted[j - 1]);
                } else if i == p {
                    assert(sorted@[j] == before_sorted[j - 1]);
                    if p < before_sorted.len() {
                        assert(before_sorted[p as int].datetime > layer.datetime);
                    }
                } else {
                    assert(sorted@[i] == before_sorted[i - 1]);
                    assert(sorted@[j] == before_sorted[j - 1]);
                }
            }
        }
    }
    proof {
        broadcast use vstd::multiset::group_multiset_axioms;
        broadcast use vstd::seq_lib::group_to_multiset_ensures;
        broadcast use vstd::multiset::lemma_multiset_empty_len;

        assert(rest@.to_multiset().len() == 0);
        assert(layer_names(rest@).len() == 0);
        assert(layer_names(rest@).to_multiset().len() == 0);
        assert(rest@.to_multiset() =~= Multiset::empty());
        assert(layer_names(rest@).to_multiset() =~= Multiset::empty());
        assert(sorted@.to_multiset().add(Multiset::empty()) =~= sorted@.to_multiset());
        assert(layer_names(sorted@).to_multiset().add(Multiset::empty()) =~= layer_names(
            sorted@,
        ).to_multiset());
    }
    sorted
}

/// Once the candidates of a prefix hit an error, every longer prefix has that error too.
proof fn lemma_candidates_error_stays(
    listing: Seq<Seq<char>>,
    i: int,
    id: RadarId,
    ty: RadarType,
    existing: Seq<Seq<char>>,
    staged: Seq<Seq<char>>,
    last: Option<int>,
)
    requires
        0 < i <= listing.len(),
        listed_candidates(listing.subrange(0, i), id, ty, existing, staged, last) is Err,
    ensures
        listed_candidates(listing, id, ty, existing, staged, last) == listed_candidates(
            listing.subrange(0, i),
            id,
            ty,
            existing,
            staged,
            last,
        ),
    decreases listing.len() - i,
{
    if i == listing.len() {
        assert(listing.subrange(0, i) =~= listing);
    } else {
        assert(listing.subrange(0, i + 1).drop_last() =~= listing.subrange(0, i));
        lemma_candidates_error_stays(listing, i + 1, id, ty, existing, staged, last);
    }
}

/// When a layer's successor is due, allowing for the usual publishing lag.
pub open spec fn layer_due(l: RadarImageDataLayer) -> int {
    l.spec_next_datetime() + l.radar_type.spec_check_after()
}

/// The earliest due time among `lasts`.
pub open spec fn earliest_due(lasts: Seq<RadarImageDataLayer>) -> int
    decreases lasts.len(),
{
    if lasts.len() <= 1 {
        layer_due(lasts[0])
    } else {
        let rest = earliest_due(lasts.drop_last());
        let d = layer_due(lasts.last());
        if d < rest {
            d
        } else {
            rest
        }
    }
}

/// When to look for radar images next, given the newest layer of each radar and type: the
/// earliest time a successor is due, or a minute from now if that has passed or nothing
/// is known.
pub fn next_radar_check(lasts: &Vec<RadarImageDataLayer>, now: Timestamp) -> (r: Timestamp)
    requires
        valid_time(now as int),
        forall|k: int| 0 <= k < lasts@.len() ==> valid_time((#[trigger] lasts@[k]).datetime as int),
    ensures
        r == (if lasts@.len() > 0 && earliest_due(lasts@) > now {
            earliest_due(lasts@)
        } else {
            now + MINUTE
        }),
{
    if lasts.len() == 0 {
        return now + MINUTE;
    }
    let mut best = lasts[0].next_datetime() + lasts[0].radar_type.check_after();
    let mut i: usize = 1;
    assert(lasts@.subrange(0, 1).len() == 1);
    while i < lasts.len()
        invariant
            1 <= i <= lasts@.len(),
            forall|k: int| 0 <= k < lasts@.len() ==> valid_time((#[trigger] lasts@[k]).datetime as int),
            best == earliest_due(lasts@.subrange(0, i as int)),
            best <= MAX_TIME + 2 * 86400,
        decreases lasts@.len() - i,
    {
        let d = lasts[i].next_datetime() + lasts[i].radar_type.check_after();
        assert(lasts@.subrange(0, i + 1).drop_last() =~= lasts@.subrange(0, i as int));
        if d < best {
            best = d;
        }
        i = i + 1;
    }
    assert(lasts@.subrange(0, lasts@.len() as int) =~= lasts@);
    if best > now {
        best
    } else {
        now + MINUTE
    }
}

/// Whether dropping the frames before `cut` is exactly what pruning asks for: at most
/// `max_frames` remain, no gap longer than `max_gap` remains between neighbours, and
/// nothing more is dropped than these two rules need.
pub open spec fn prunes_at(times: Seq<Timestamp>, max_frames: Option<u64>, max_gap: int, cut: int) -> bool {
    let cap = match max_frames {
        Some(m) => if times.len() > m {
            times.len() - m
        } else {
            0
        },
        None => 0,
    };
    &&& cap <= cut <= times.len()
    &&& forall|k: int| cut <= k < times.len() - 1 ==> times[k + 1] - #[trigger] times[k] <= max_gap
    &&& cut > cap ==> cut < times.len() && times[cut] - times[cut - 1] > max_gap
}

/// How many of the frames, sorted oldest first, to drop: those beyond `max_frames`, and
/// everything up to the last gap longer than `max_gap`.
pub fn prune_index(times: &Vec<Timestamp>, max_frames: Option<u64>, max_gap: i64) -> (cut: usize)
    requires
        forall|k: int| 0 <= k < times@.len() ==> valid_time(#[trigger] times@[k] as int),
    ensures
        prunes_at(times@, max_frames, max_gap as int, cut as int),
{
    let n = times.len();
    let cap: usize = match max_frames {
        Some(m) => if (n as u64) > m {
            n - (m as usize)
        } else {
            0
        },
        None => 0,
    };
    let mut cut = cap;
    let mut k: usize = cap;
    while n > 0 && k < n - 1
        invariant
            cap <= cut <= n,
            n == times@.len(),
            cap <= k,
            k <= n,
            cut <= k + 1 || cut == cap,
            cut <= k || k + 1 >= n || cut == cap,
            forall|j: int| 0 <= j < times@.len() ==> valid_time(#[trigger] times@[j] as int),
            forall|j: int| cut <= j < k && j + 1 < n ==> times@[j + 1] - #[trigger] times@[j] <= max_gap,
            cut > cap ==> cut < n && times@[cut as int] - times@[cut - 1] > max_gap,
        decreases n - k,
    {
        if times[k + 1] - times[k] > max_gap {
            cut = k + 1;
        }
        k = k + 1;
    }
    cut
}

/// The longest gap between frames that pruning keeps: four periods of the radar type.
pub fn max_frame_gap(t: RadarType) -> (r: i64)
    ensures
        r == 4 * t.spec_update_frequency(),
{
    t.update_frequency() * 4
}

/// The features painted under the data, in their order.
pub open spec fn base_features(f: Seq<RadarImageFeature>) -> Seq<RadarImageFeature>
    decreases f.len(),
{
    if f.len() == 0 {
        Seq::empty()
    } else if f.last().spec_is_base() {
        base_features(f.drop_last()).push(f.last())
    } else {
        base_features(f.drop_last())
    }
}

/// The features painted over the data, in their order.
pub open spec fn top_features(f: Seq<RadarImageFeature>) -> Seq<RadarImageFeature>
    decreases f.len(),
{
    if f.len() == 0 {
        Seq::empty()
    } else if !f.last().spec_is_base() {
        top_features(f.drop_last()).push(f.last())
    } else {
        top_features(f.drop_last())
    }
}

/// Splits the configured features into those painted under the data (background and
/// topography) and those painted over it, each in the configured order.
pub fn split_features(features: &Vec<RadarImageFeature>) -> (r: (Vec<RadarImageFeature>, Vec<
    RadarImageFeature,
>))
    ensures
        r.0@ == base_features(features@),
        r.1@ == top_features(features@),
{
    let mut base: Vec<RadarImageFeature> = Vec::new();
    let mut top: Vec<RadarImageFeature> = Vec::new();
    let mut i: usize = 0;
    while i < features.len()
        invariant
            i <= features@.len(),
            base@ == base_features(features@.subrange(0, i as int)),
            top@ == top_features(features@.subrange(0, i as int)),
        decreases features@.len() - i,
    {
        let f = features[i];
        assert(features@.subrange(0, i + 1).drop_last() =~= features@.subrange(0, i as int));
        if f.is_base() {
            base.push(f);
        } else {
            top.push(f);
        }
        i = i + 1;
    }
    assert(features@.subrange(0, i as int) =~= features@);
    (base, top)
}

/// The positions of the layers that have no frame yet: those whose time is not among
/// `frame_times`.
pub fn layers_without_frames(layer_times: &Vec<Timestamp>, frame_times: &Vec<Timestamp>) -> (r: Vec<
    usize,
>)
    ensures
        forall|k: int| 0 <= k < r@.len() ==> (#[trigger] r@[k]) < layer_times@.len(),
        forall|k: int, j: int| 0 <= k < j < r@.len() ==> r@[k] < r@[j],
        forall|i: int|
            0 <= i < layer_times@.len() ==> (r@.contains(i as usize) <==> !frame_times@.contains(
                #[trigger] layer_times@[i],
            )),
{
    let mut r: Vec<usize> = Vec::new();
    let mut i: usize = 0;
    while i < layer_times.len()
        invariant
            i <= layer_times@.len(),
            forall|k: int| 0 <= k < r@.len() ==> (#[trigger] r@[k]) < i,
            forall|k: int, j: int| 0 <= k < j < r@.len() ==> r@[k] < r@[j],
            forall|m: int|
                0 <= m < i ==> (r@.contains(m as usize) <==> !frame_times@.contains(
                    #[trigger] layer_times@[m],
                )),
        decreases layer_times@.len() - i,
    {
        let t = layer_times[i];
        let mut found = false;
        let mut j: usize = 0;
        while j < frame_times.len()
            invariant
                j <= frame_times@.len(),
                found <==> exists|x: int| 0 <= x < j && frame_times@[x] == t,
            decreases frame_times@.len() - j,
        {
            if frame_times[j] == t {
                found = true;
            }
            j = j + 1;
        }
        let ghost before = r@;
        if !found {
            r.push(i);
        }
        proof {
            assert forall|m: int|
                0 <= m < i + 1 implies (r@.contains(m as usize) <==> !frame_times@.contains(
                #[trigger] layer_times@[m],
            )) by {
                if m < i {
                    if r@.contains(m as usize) {
                        let x = choose|x: int| 0 <= x < r@.len() && r@[x] == m as usize;
                        if x < before.len() {
                            assert(before[x] == m as usize);
                        }
                    }
                    if before.contains(m as usize) {
                        let x = choose|x: int| 0 <= x < before.len() && before[x] == m as usize;
                        assert(r@[x] == m as usize);
                    }
                } else {
                    if r@.contains(m as usize) {
                        let x = choose|x: int| 0 <= x < r@.len() && r@[x] == m as usize;
                        if x < before.len() {
                            assert(before[x] < i);
                        }
                    }
                    if !found {
                        assert(r@[before.len() as int] == i);
                    }
                    if frame_times@.contains(t) {
                        let x = choose|x: int| 0 <= x < frame_times@.len() && frame_times@[x] == t;
                        assert(found);
                    }
                }
            }
        }
        i = i + 1;
    }
    r
}

} // verus!
