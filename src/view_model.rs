//! The view projector: what the screens show, derived from the state alone.
use crate::model::intensity::{GenerationMix, Period};
use crate::model::location::Location;
use crate::model::{Mode, Model};
use crate::text::{push_char, same_text};
use crate::time::rfc3339_text;
use vstd::prelude::*;

verus! {

/// Everything the screens show.
#[derive(Clone, Debug, PartialEq, Eq)]
pub struct ViewModel {
    pub mode: Mode,
    pub national_name: String,
    pub national_intensity: Vec<IntensityPoint>,
    pub national_mix: Vec<GenerationMixPoint>,
    pub local_name: String,
    pub local_intensity: Vec<IntensityPoint>,
    pub local_mix: Vec<GenerationMixPoint>,
}

/// The intensity of one period, dated by its start.
#[derive(Clone, Debug, PartialEq, Eq)]
pub struct IntensityPoint {
    pub date: String,
    pub forecast: i32,
    pub actual: Option<i32>,
}

/// The share of one fuel in one period, dated by the period's start, in
/// tenths of a percent.
#[derive(Clone, Debug, PartialEq, Eq)]
pub struct GenerationMixPoint {
    pub date: String,
    pub fuel: String,
    pub percentage: u32,
}

/// Date, forecast and actual reading of an intensity point.
pub type IntensityView = (Seq<char>, i32, Option<i32>);

/// Date, fuel and share of a generation mix point.
pub type MixView = (Seq<char>, Seq<char>, u32);

impl View for IntensityPoint {
    type V = IntensityView;

    open spec fn view(&self) -> IntensityView {
        (self.date@, self.forecast, self.actual)
    }
}

impl View for GenerationMixPoint {
    type V = MixView;

    open spec fn view(&self) -> MixView {
        (self.date@, self.fuel@, self.percentage)
    }
}

/// The views of a list of intensity points.
pub open spec fn intensity_views(s: Seq<IntensityPoint>) -> Seq<IntensityView> {
    s.map_values(|p: IntensityPoint| p@)
}

/// The views of a list of generation mix points.
pub open spec fn mix_views(s: Seq<GenerationMixPoint>) -> Seq<MixView> {
    s.map_values(|p: GenerationMixPoint| p@)
}

/// The ASCII upper case of `c`; other characters stay as they are.
pub open spec fn ascii_upper(c: char) -> char {
    if 'a' <= c <= 'z' {
        ((c as int) - 32) as char
    } else {
        c
    }
}

/// `t` with its first character in ASCII upper case.
pub open spec fn capitalized(t: Seq<char>) -> Seq<char> {
    if t.len() == 0 {
        t
    } else {
        seq![ascii_upper(t[0])] + t.subrange(1, t.len() as int)
    }
}

/// Builds `capitalized(text@)`.
pub fn uppercase_first(text: &str) -> (r: String)
    ensures
        r@ == capitalized(text@),
{
    let n = text.unicode_len();
    let mut r = String::new();
    if n == 0 {
        return r;
    }
    let c = text.get_char(0);
    let upper = if 'a' <= c && c <= 'z' {
        ((c as u8) - 32) as char
    } else {
        c
    };
    push_char(&mut r, upper);
    let rest = text.substring_char(1, n);
    r.append(rest);
    r
}

/// Where `fuel` stands in the display order: coal, gas, imports, biomass,
/// nuclear, hydro, wind, solar, then any other fuel.
pub open spec fn fuel_rank(fuel: Seq<char>) -> nat {
    if fuel == "Coal"@ {
        0
    } else if fuel == "Gas"@ {
        1
    } else if fuel == "Imports"@ {
        2
    } else if fuel == "Biomass"@ {
        3
    } else if fuel == "Nuclear"@ {
        4
    } else if fuel == "Hydro"@ {
        5
    } else if fuel == "Wind"@ {
        6
    } else if fuel == "Solar"@ {
        7
    } else {
        8
    }
}

/// Number of places in the display order of fuels.
pub const FUEL_RANKS: u8 = 9;

/// Decides `fuel_rank(fuel@)`.
pub fn rank_of(fuel: &str) -> (r: u8)
    ensures
        r == fuel_rank(fuel@),
{
    if same_text(fuel, "Coal") {
        0
    } else if same_text(fuel, "Gas") {
        1
    } else if same_text(fuel, "Imports") {
        2
    } else if same_text(fuel, "Biomass") {
        3
    } else if same_text(fuel, "Nuclear") {
        4
    } else if same_text(fuel, "Hydro") {
        5
    } else if same_text(fuel, "Wind") {
        6
    } else if same_text(fuel, "Solar") {
        7
    } else {
        8
    }
}

/// The intensity point of period `p`: its start, and its forecast and actual
/// reading, zero and none where the period has no intensity.
pub open spec fn intensity_view(p: Period) -> IntensityView {
    (
        rfc3339_text(p.from.spec_secs(), p.from.spec_nanos()),
        match p.intensity {
            Some(i) => i.forecast,
            None => 0,
        },
        match p.intensity {
            Some(i) => i.actual,
            None => None,
        },
    )
}

/// The intensity points of a list of periods, one each, in order.
pub open spec fn intensity_series(ps: Seq<Period>) -> Seq<IntensityView> {
    ps.map_values(|p: Period| intensity_view(p))
}

/// The generation mix point of entry `g` of period `p`.
pub open spec fn mix_entry(p: Period, g: GenerationMix) -> MixView {
    (rfc3339_text(p.from.spec_secs(), p.from.spec_nanos()), capitalized(g.fuel@), g.percentage)
}

/// Whether a generation mix point is of the catch-all fuel "Other".
pub open spec fn is_other(x: MixView) -> bool {
    x.1 == "Other"@
}

/// The points of entries `mixes` of period `p`, in order, without "Other".
pub open spec fn period_mix(p: Period, mixes: Seq<GenerationMix>) -> Seq<MixView>
    decreases mixes.len(),
{
    if mixes.len() == 0 {
        Seq::empty()
    } else {
        let rest = period_mix(p, mixes.drop_last());
        let e = mix_entry(p, mixes.last());
        if is_other(e) {
            rest
        } else {
            rest.push(e)
        }
    }
}

/// The points of period `p`'s generation mix, without "Other".
pub open spec fn period_points(p: Period) -> Seq<MixView> {
    match p.generation_mix {
        Some(v) => period_mix(p, v@),
        None => Seq::empty(),
    }
}

/// The generation mix points of a list of periods, period by period, without
/// "Other".
pub open spec fn mix_series(ps: Seq<Period>) -> Seq<MixView>
    decreases ps.len(),
{
    if ps.len() == 0 {
        Seq::empty()
    } else {
        mix_series(ps.drop_last()) + period_points(ps.last())
    }
}

/// The points of `xs` whose fuel has place `k` in the display order, in order.
pub open spec fn of_rank(xs: Seq<MixView>, k: nat) -> Seq<MixView> {
    xs.filter(|x: MixView| fuel_rank(x.1) == k)
}

/// The points of `xs` whose fuel has a place below `k`, by place, and in
/// their order within a place.
pub open spec fn ranked_below(xs: Seq<MixView>, k: nat) -> Seq<MixView>
    decreases k,
{
    if k == 0 {
        Seq::empty()
    } else {
        ranked_below(xs, (k - 1) as nat) + of_rank(xs, (k - 1) as nat)
    }
}

/// `xs` in the display order of fuels; points of one fuel keep their order.
pub open spec fn in_fuel_order(xs: Seq<MixView>) -> Seq<MixView> {
    ranked_below(xs, FUEL_RANKS as nat)
}

impl IntensityPoint {
    /// The intensity point of period `p`.
    pub fn from_period(p: &Period) -> (r: IntensityPoint)
        ensures
            r@ == intensity_view(*p),
    {
        let date = p.from.to_rfc3339();
        match &p.intensity {
            Some(i) => IntensityPoint { date, forecast: i.forecast, actual: i.actual },
            None => IntensityPoint { date, forecast: 0, actual: None },
        }
    }
}

impl GenerationMixPoint {
    /// The point of entry `g` of period `p`.
    pub fn from_mix(p: &Period, g: &GenerationMix) -> (r: GenerationMixPoint)
        ensures
            r@ == mix_entry(*p, *g),
    {
        GenerationMixPoint {
            date: p.from.to_rfc3339(),
            fuel: uppercase_first(g.fuel.as_str()),
            percentage: g.percentage,
        }
    }

    /// A copy of this point.
    pub fn duplicate(&self) -> (r: GenerationMixPoint)
        ensures
            r@ == self@,
    {
        GenerationMixPoint {
            date: self.date.clone(),
            fuel: self.fuel.clone(),
            percentage: self.percentage,
        }
    }
}

/// The intensity points of `periods`.
pub fn intensity_points(periods: &Vec<Period>) -> (r: Vec<IntensityPoint>)
    ensures
        intensity_views(r@) == intensity_series(periods@),
{
    let mut r: Vec<IntensityPoint> = Vec::new();
    let n = periods.len();
    for i in 0..n
        invariant
            n == periods@.len(),
            intensity_views(r@) == intensity_series(periods@.subrange(0, i as int)),
    {
        let pt = IntensityPoint::from_period(&periods[i]);
        proof {
            assert(periods@.subrange(0, i + 1) == periods@.subrange(0, i as int).push(periods@[i as int]));
            assert(intensity_views(r@.push(pt)) == intensity_views(r@).push(pt@));
        }
        r.push(pt);
    }
    proof {
        assert(periods@.subrange(0, n as int) == periods@);
    }
    r
}

/// The generation mix points of `periods`, period by period, without "Other".
pub fn mix_points(periods: &Vec<Period>) -> (r: Vec<GenerationMixPoint>)
    ensures
        mix_views(r@) == mix_series(periods@),
{
    let mut r: Vec<GenerationMixPoint> = Vec::new();
    let n = periods.len();
    for i in 0..n
        invariant
            n == periods@.len(),
            mix_views(r@) == mix_series(periods@.subrange(0, i as int)),
    {
        let p = &periods[i];
        let ghost before = mix_views(r@);
        proof {
            assert(periods@.subrange(0, i + 1).drop_last() == periods@.subrange(0, i as int));
        }
        match &p.generation_mix {
            Some(mixes) => {
                let m = mixes.len();
                for j in 0..m
                    invariant
                        m == mixes@.len(),
                        mix_views(r@) == before + period_mix(*p, mixes@.subrange(0, j as int)),
                {
                    let pt = GenerationMixPoint::from_mix(p, &mixes[j]);
                    proof {
                        assert(mixes@.subrange(0, j + 1).drop_last() == mixes@.subrange(0, j as int));
                    }
                    if !same_text(pt.fuel.as_str(), "Other") {
                        proof {
                            assert(mix_views(r@.push(pt)) == mix_views(r@).push(pt@));
                        }
                        r.push(pt);
                    }
                }
                proof {
                    assert(mixes@.subrange(0, m as int) == mixes@);
                }
            },
            None => {},
        }
    }
    proof {
        assert(periods@.subrange(0, n as int) == periods@);
    }
    r
}

/// `points` in the display order of fuels; points of one fuel keep their
/// order.
pub fn sort_by_fuel(points: &Vec<GenerationMixPoint>) -> (r: Vec<GenerationMixPoint>)
    ensures
        mix_views(r@) == in_fuel_order(mix_views(points@)),
{
    let ghost xs = mix_views(points@);
    let n = points.len();
    let mut ranks: Vec<u8> = Vec::new();
    for j in 0..n
        invariant
            n == points@.len(),
            xs == mix_views(points@),
            ranks@.len() == j,
            forall|t: int| 0 <= t < j ==> ranks@[t] == fuel_rank(#[trigger] xs[t].1),
    {
        ranks.push(rank_of(points[j].fuel.as_str()));
    }
    let mut r: Vec<GenerationMixPoint> = Vec::new();
    for k in 0..FUEL_RANKS
        invariant
            n == points@.len(),
            xs == mix_views(points@),
            ranks@.len() == n,
            forall|t: int| 0 <= t < n ==> ranks@[t] == fuel_rank(#[trigger] xs[t].1),
            mix_views(r@) == ranked_below(xs, k as nat),
    {
        let ghost done = mix_views(r@);
        for j in 0..n
            invariant
                n == points@.len(),
                xs == mix_views(points@),
                ranks@.len() == n,
                forall|t: int| 0 <= t < n ==> ranks@[t] == fuel_rank(#[trigger] xs[t].1),
                done == ranked_below(xs, k as nat),
                mix_views(r@) == done + of_rank(xs.subrange(0, j as int), k as nat),
        {
            proof {
                assert(xs.subrange(0, j + 1) == xs.subrange(0, j as int).push(xs[j as int]));
                assert(xs[j as int] == points@[j as int]@);
                xs.subrange(0, j as int).lemma_filter_push(
                    xs[j as int],
                    |x: MixView| fuel_rank(x.1) == k as nat,
                );
            }
            if ranks[j] == k {
                let pt = points[j].duplicate();
                proof {
                    assert(mix_views(r@.push(pt)) == mix_views(r@).push(pt@));
                }
                r.push(pt);
            }
        }
        proof {
            assert(xs.subrange(0, n as int) == xs);
        }
    }
    r
}

/// The display name of the local scope: `{district}, {outcode}` once a place
/// is resolved, else `Local`.
pub open spec fn local_name_text(location: Option<Location>) -> Seq<char> {
    match location {
        Some(l) => l.admin_district@ + ", "@ + l.outcode@,
        None => "Local"@,
    }
}

/// Whether `v` is the view of state `m`.
pub open spec fn projects(m: Model, v: ViewModel) -> bool {
    &&& v.mode == m.mode
    &&& v.national_name@ == "UK"@
    &&& intensity_views(v.national_intensity@) == intensity_series(m.national.periods@)
    &&& mix_views(v.national_mix@) == in_fuel_order(mix_series(m.national.scope.generation_mix@))
    &&& v.local_name@ == local_name_text(m.local.scope.location)
    &&& intensity_views(v.local_intensity@) == intensity_series(m.local.periods@)
    &&& mix_views(v.local_mix@) == in_fuel_order(mix_series(m.local.periods@))
}

impl ViewModel {
    /// The view of `value`.
    pub fn from_model(value: &Model) -> (r: ViewModel)
        ensures
            projects(*value, r),
    {
        let national_mix = sort_by_fuel(&mix_points(&value.national.scope.generation_mix));
        let national_intensity = intensity_points(&value.national.periods);
        let local_name = match &value.local.scope.location {
            Some(l) => {
                let mut name = String::from_str(l.admin_district.as_str());
                name.append(", ");
                name.append(l.outcode.as_str());
                name
            },
            None => String::from_str("Local"),
        };
        let local_intensity = intensity_points(&value.local.periods);
        let local_mix = sort_by_fuel(&mix_points(&value.local.periods));
        ViewModel {
            mode: value.mode,
            national_name: String::from_str("UK"),
            national_intensity,
            national_mix,
            local_name,
            local_intensity,
            local_mix,
        }
    }
}

/// No point of `period_mix(p, mixes)` is of fuel "Other".
proof fn lemma_period_mix_no_other(p: Period, mixes: Seq<GenerationMix>)
    ensures
        forall|i: int|
            0 <= i < period_mix(p, mixes).len() ==> !is_other(#[trigger] period_mix(p, mixes)[i]),
    decreases mixes.len(),
{
    if mixes.len() > 0 {
        lemma_period_mix_no_other(p, mixes.drop_last());
        let rest = period_mix(p, mixes.drop_last());
        assert forall|i: int| 0 <= i < period_mix(p, mixes).len() implies !is_other(
            #[trigger] period_mix(p, mixes)[i],
        ) by {
            if i < rest.len() {
                assert(period_mix(p, mixes)[i] == rest[i]);
            }
        }
    }
}

/// No point of `mix_series(ps)` is of fuel "Other".
proof fn lemma_series_no_other(ps: Seq<Period>)
    ensures
        forall|i: int| 0 <= i < mix_series(ps).len() ==> !is_other(#[trigger] mix_series(ps)[i]),
    decreases ps.len(),
{
    if ps.len() > 0 {
        lemma_series_no_other(ps.drop_last());
        let a = mix_series(ps.drop_last());
        let b = period_points(ps.last());
        if let Some(v) = ps.last().generation_mix {
            lemma_period_mix_no_other(ps.last(), v@);
        }
        assert forall|i: int| 0 <= i < mix_series(ps).len() implies !is_other(
            #[trigger] mix_series(ps)[i],
        ) by {
            if i >= a.len() {
                assert(mix_series(ps)[i] == b[i - a.len()]);
            } else {
                assert(mix_series(ps)[i] == a[i]);
            }
        }
    }
}

/// The points of `ranked_below(xs, k)` are points of `xs` whose fuel has a
/// place below `k`, in the display order of fuels.
proof fn lemma_ranked_below(xs: Seq<MixView>, k: nat)
    ensures
        forall|i: int|
            0 <= i < ranked_below(xs, k).len() ==> fuel_rank(#[trigger] ranked_below(xs, k)[i].1)
                < k && xs.contains(ranked_below(xs, k)[i]),
        forall|i: int, j: int|
            0 <= i <= j < ranked_below(xs, k).len() ==> fuel_rank(
                #[trigger] ranked_below(xs, k)[i].1,
            ) <= fuel_rank(#[trigger] ranked_below(xs, k)[j].1),
    decreases k,
{
    if k > 0 {
        let k1 = (k - 1) as nat;
        lemma_ranked_below(xs, k1);
        let a = ranked_below(xs, k1);
        let f = |x: MixView| fuel_rank(x.1) == k1;
        let b = xs.filter(f);
        assert(of_rank(xs, k1) == b);
        let r = ranked_below(xs, k);
        assert(r == a + b);
        assert forall|i: int| 0 <= i < b.len() implies fuel_rank(#[trigger] b[i].1) == k1
            && xs.contains(b[i]) by {
            xs.lemma_filter_pred(f, i);
            assert(b.contains(b[i]));
            xs.lemma_filter_contains_rev(f, b[i]);
        }
        assert forall|i: int| 0 <= i < r.len() implies fuel_rank(#[trigger] r[i].1) < k
            && xs.contains(r[i]) by {
            if i >= a.len() {
                assert(r[i] == b[i - a.len()]);
            } else {
                assert(r[i] == a[i]);
            }
        }
        assert forall|i: int, j: int| 0 <= i <= j < r.len() implies fuel_rank(#[trigger] r[i].1)
            <= fuel_rank(#[trigger] r[j].1) by {
            if j < a.len() {
                assert(r[i] == a[i] && r[j] == a[j]);
            } else if i >= a.len() {
                assert(r[i] == b[i - a.len()] && r[j] == b[j - a.len()]);
            } else {
                assert(r[i] == a[i] && r[j] == b[j - a.len()]);
            }
        }
    }
}

/// The generation mix points of a list of periods, as the view shows them,
/// hold no point of fuel "Other" and follow the display order of fuels:
/// coal, gas, imports, biomass, nuclear, hydro, wind, solar, then the rest.
pub proof fn lemma_mix_order(ps: Seq<Period>)
    ensures
        forall|i: int|
            0 <= i < in_fuel_order(mix_series(ps)).len() ==> !is_other(
                #[trigger] in_fuel_order(mix_series(ps))[i],
            ),
        forall|i: int, j: int|
            0 <= i <= j < in_fuel_order(mix_series(ps)).len() ==> fuel_rank(
                #[trigger] in_fuel_order(mix_series(ps))[i].1,
            ) <= fuel_rank(#[trigger] in_fuel_order(mix_series(ps))[j].1),
{
    let xs = mix_series(ps);
    lemma_series_no_other(ps);
    lemma_ranked_below(xs, FUEL_RANKS as nat);
    let r = in_fuel_order(xs);
    assert forall|i: int| 0 <= i < r.len() implies !is_other(#[trigger] r[i]) by {
        let t = choose|t: int| 0 <= t < xs.len() && xs[t] == r[i];
        assert(!is_other(xs[t]));
    }
}

/// Both generation mix lists of a view hold no point of fuel "Other" and
/// follow the display order of fuels.
pub proof fn lemma_view_mix_order(m: Model, v: ViewModel)
    requires
        projects(m, v),
    ensures
        forall|i: int| 0 <= i < v.national_mix@.len() ==> !is_other(#[trigger] v.national_mix@[i]@),
        forall|i: int, j: int|
            0 <= i <= j < v.national_mix@.len() ==> fuel_rank(#[trigger] v.national_mix@[i].fuel@)
                <= fuel_rank(#[trigger] v.national_mix@[j].fuel@),
        forall|i: int| 0 <= i < v.local_mix@.len() ==> !is_other(#[trigger] v.local_mix@[i]@),
        forall|i: int, j: int|
            0 <= i <= j < v.local_mix@.len() ==> fuel_rank(#[trigger] v.local_mix@[i].fuel@)
                <= fuel_rank(#[trigger] v.local_mix@[j].fuel@),
{
    lemma_mix_order(m.national.scope.generation_mix@);
    lemma_mix_order(m.local.periods@);
    let n = in_fuel_order(mix_series(m.national.scope.generation_mix@));
    let l = in_fuel_order(mix_series(m.local.periods@));
    assert forall|i: int| 0 <= i < v.national_mix@.len() implies #[trigger] v.national_mix@[i]@
        == n[i] by {
        assert(mix_views(v.national_mix@)[i] == v.national_mix@[i]@);
    }
    assert forall|i: int| 0 <= i < v.local_mix@.len() implies #[trigger] v.local_mix@[i]@
        == l[i] by {
        assert(mix_views(v.local_mix@)[i] == v.local_mix@[i]@);
    }
    assert forall|i: int, j: int| 0 <= i <= j < v.national_mix@.len() implies fuel_rank(
        #[trigger] v.national_mix@[i].fuel@,
    ) <= fuel_rank(#[trigger] v.national_mix@[j].fuel@) by {
        assert(v.national_mix@[i]@ == n[i] && v.national_mix@[j]@ == n[j]);
    }
    assert forall|i: int, j: int| 0 <= i <= j < v.local_mix@.len() implies fuel_rank(
        #[trigger] v.local_mix@[i].fuel@,
    ) <= fuel_rank(#[trigger] v.local_mix@[j].fuel@) by {
        assert(v.local_mix@[i]@ == l[i] && v.local_mix@[j]@ == l[j]);
    }
}

/// Projecting one state twice gives the same view: the projection depends
/// on the state alone.
pub proof fn lemma_projection_repeatable(m: Model, v1: ViewModel, v2: ViewModel)
    requires
        projects(m, v1),
        projects(m, v2),
    ensures
        v1.mode == v2.mode,
        v1.national_name@ == v2.national_name@,
        intensity_views(v1.national_intensity@) == intensity_views(v2.national_intensity@),
        mix_views(v1.national_mix@) == mix_views(v2.national_mix@),
        v1.local_name@ == v2.local_name@,
        intensity_views(v1.local_intensity@) == intensity_views(v2.local_intensity@),
        mix_views(v1.local_mix@) == mix_views(v2.local_mix@),
{
}

} // verus!
