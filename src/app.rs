//! The update engine: from an event and the state to the next state and the
//! requests that the host should carry out.
use crate::capabilities::location::LocationResponse;
use crate::capabilities::time::TimeResponse;
use crate::model::location::{Coordinate, Location};
use crate::model::national_intensity::{self, NationalResponse};
use crate::model::national_mix::{self, NationalMixResponse};
use crate::model::postcode::{lookup_url_text, PostcodeResponse, Query};
use crate::model::regional::{self, RegionalResponse};
use crate::model::{Data, Local, Mode, Model, National};
use crate::view_model::{projects, ViewModel};
use crate::time::{
    is_stale, parsed_instant, rfc3339_parts, stale, Instant, MAX_TIMESTAMP, NANOS_PER_SEC,
    SECS_PER_DAY, STALE_AFTER_SECS,
};
use vstd::prelude::*;

verus! {

broadcast use crate::time::Instant::lemma_spec_new;

/// Why a fetch failed.
#[derive(Clone, Debug, PartialEq, Eq)]
pub struct HttpError {
    pub message: String,
}

/// What the engine reacts to: the user's intents and the answers to its
/// requests.
#[derive(Debug, PartialEq)]
pub enum Event {
    GetNational,
    GetLocal,
    SetTimeLocal(TimeResponse),
    SetTimeNational(TimeResponse),
    SetLocation(LocationResponse),
    SetPostcode(Result<PostcodeResponse, HttpError>),
    SetRegional(Result<RegionalResponse, HttpError>),
    SetNational(Result<NationalResponse, HttpError>),
    SetNationalMix(Result<NationalMixResponse, HttpError>),
}

/// The event that the answer to a fetch comes back as.
#[derive(Clone, Copy, Debug, PartialEq, Eq)]
pub enum Reply {
    Postcode,
    Regional,
    National,
    NationalMix,
}

/// A GET of `url`, whose answer comes back as the event that `reply` names.
#[derive(Clone, Debug, PartialEq, Eq)]
pub struct HttpRequest {
    pub url: String,
    pub reply: Reply,
}

/// A request to the host.
#[derive(Clone, Debug, PartialEq, Eq)]
pub enum Effect {
    /// The view should be computed again.
    Render,
    /// The current time, answered by `SetTimeNational` or `SetTimeLocal`.
    Time(Mode),
    /// The device location, answered by `SetLocation`.
    Location,
    /// A fetch.
    Http(HttpRequest),
}

/// Whether `e` fetches `url` with its answer coming back as `reply`.
pub open spec fn is_http(e: Effect, url: Seq<char>, reply: Reply) -> bool {
    match e {
        Effect::Http(r) => r.url@ == url && r.reply == reply,
        _ => false,
    }
}

/// The state is left as it was and nothing is requested.
pub open spec fn unchanged(old: Model, new: Model, effects: Seq<Effect>) -> bool {
    new == old && effects.len() == 0
}

/// When the dataset of `mode` was last refreshed.
pub open spec fn last_refresh(m: Model, mode: Mode) -> Instant {
    match mode {
        Mode::National => m.national.last_updated,
        Mode::Local => m.local.last_updated,
    }
}

/// Whether the 24-hour window from `now` ends at a representable instant.
pub open spec fn day_ahead_fits(now: Instant) -> bool {
    now.spec_secs() + SECS_PER_DAY <= MAX_TIMESTAMP
}

/// The two national fetches for `now`: intensity, then generation mix.
pub open spec fn national_fetches(now: Instant, effects: Seq<Effect>) -> bool {
    &&& effects.len() == 2
    &&& is_http(effects[0], national_intensity::url_text(now), Reply::National)
    &&& is_http(
        effects[1],
        national_mix::url_text(now.spec_secs(), (now.spec_secs() + SECS_PER_DAY) as i64),
        Reply::NationalMix,
    )
}

/// The current time `now` arrived for `mode`. The clock is set; fresh data
/// is only rendered again, stale data starts its fetch chain. A national
/// refresh whose 24-hour window cannot be represented changes nothing.
pub open spec fn time_step(
    old: Model,
    mode: Mode,
    now: Instant,
    new: Model,
    effects: Seq<Effect>,
) -> bool {
    if !stale(now, last_refresh(old, mode)) {
        new == (Model { time: now, ..old }) && effects == seq![Effect::Render]
    } else {
        match mode {
            Mode::Local => new == (Model { time: now, ..old }) && effects == seq![Effect::Location],
            Mode::National => if day_ahead_fits(now) {
                new == (Model { time: now, ..old }) && national_fetches(now, effects)
            } else {
                unchanged(old, new, effects)
            },
        }
    }
}

/// The current time arrived as text for `mode`: text that names no instant
/// changes nothing.
pub open spec fn time_event(
    text: Seq<char>,
    mode: Mode,
    old: Model,
    new: Model,
    effects: Seq<Effect>,
) -> bool {
    match parsed_instant(rfc3339_parts(text)) {
        Some(now) => time_step(old, mode, now, new, effects),
        None => unchanged(old, new, effects),
    }
}

/// The first postcode of a lookup becomes the local place, and the regional
/// data for its outcode is fetched. An empty answer changes nothing.
pub open spec fn postcode_step(
    resp: PostcodeResponse,
    old: Model,
    new: Model,
    effects: Seq<Effect>,
) -> bool {
    if resp.result@.len() == 0 {
        unchanged(old, new, effects)
    } else {
        let p = resp.result@[0];
        let place = Location {
            coordinate: Coordinate { latitude: p.latitude, longitude: p.longitude },
            outcode: p.outcode,
            admin_district: p.admin_district,
        };
        &&& new == (Model {
            local: Data { scope: Local { location: Some(place) }, ..old.local },
            ..old
        })
        &&& effects.len() == 2
        &&& is_http(effects[0], regional::url_text(old.time, p.outcode@), Reply::Regional)
        &&& effects[1] == Effect::Render
    }
}

/// What the engine does on `event`, from state `old` to state `new`,
/// requesting `effects` in order.
pub open spec fn step(event: Event, old: Model, new: Model, effects: Seq<Effect>) -> bool {
    match event {
        Event::GetNational => new == (Model { mode: Mode::National, ..old }) && effects == seq![
            Effect::Time(Mode::National),
        ],
        Event::GetLocal => new == (Model { mode: Mode::Local, ..old }) && effects == seq![
            Effect::Time(Mode::Local),
        ],
        Event::SetTimeLocal(t) => time_event(t.0@, Mode::Local, old, new, effects),
        Event::SetTimeNational(t) => time_event(t.0@, Mode::National, old, new, effects),
        Event::SetLocation(r) => match r.location {
            Some(c) => new == old && effects.len() == 1 && is_http(
                effects[0],
                lookup_url_text(Query { lat: c.latitude, lon: c.longitude }),
                Reply::Postcode,
            ),
            None => unchanged(old, new, effects),
        },
        Event::SetPostcode(r) => match r {
            Ok(resp) => postcode_step(resp, old, new, effects),
            Err(_) => unchanged(old, new, effects),
        },
        Event::SetRegional(r) => match r {
            Ok(resp) => new == (Model {
                local: Data { periods: resp.data.data, last_updated: old.time, ..old.local },
                ..old
            }) && effects == seq![Effect::Render],
            Err(_) => unchanged(old, new, effects),
        },
        Event::SetNational(r) => match r {
            Ok(resp) => new == (Model {
                national: Data { periods: resp.data, last_updated: old.time, ..old.national },
                ..old
            }) && effects == seq![Effect::Render],
            Err(_) => unchanged(old, new, effects),
        },
        Event::SetNationalMix(r) => match r {
            Ok(resp) => new == (Model {
                national: Data {
                    scope: National { generation_mix: resp.data },
                    last_updated: old.time,
                    ..old.national
                },
                ..old
            }) && effects == seq![Effect::Render],
            Err(_) => unchanged(old, new, effects),
        },
    }
}

/// Whether `e` belongs to the national scope.
pub open spec fn is_national_event(e: Event) -> bool {
    match e {
        Event::GetNational | Event::SetTimeNational(_) | Event::SetNational(_)
        | Event::SetNationalMix(_) => true,
        _ => false,
    }
}

/// Whether `e` belongs to the local scope.
pub open spec fn is_local_event(e: Event) -> bool {
    match e {
        Event::GetLocal | Event::SetTimeLocal(_) | Event::SetLocation(_) | Event::SetPostcode(_)
        | Event::SetRegional(_) => true,
        _ => false,
    }
}

/// Whether `e` reports that no location is available or that a fetch failed.
pub open spec fn is_failure(e: Event) -> bool {
    match e {
        Event::SetLocation(r) => r.location is None,
        Event::SetPostcode(r) => r is Err,
        Event::SetRegional(r) => r is Err,
        Event::SetNational(r) => r is Err,
        Event::SetNationalMix(r) => r is Err,
        _ => false,
    }
}

/// Staleness boundary: when the current time arrives exactly one staleness
/// window after the last refresh of the scope, or earlier, the data is
/// fresh and only a render follows. Any later, the fetch chain starts: the
/// device location for the local scope, the two national fetches for the
/// national one.
pub proof fn lemma_staleness_boundary(
    old: Model,
    mode: Mode,
    now: Instant,
    new: Model,
    effects: Seq<Effect>,
)
    requires
        time_step(old, mode, now, new, effects),
    ensures
        now.total_nanos() - last_refresh(old, mode).total_nanos() <= STALE_AFTER_SECS
            * NANOS_PER_SEC ==> effects == seq![Effect::Render],
        now.total_nanos() - last_refresh(old, mode).total_nanos() > STALE_AFTER_SECS
            * NANOS_PER_SEC ==> (mode == Mode::Local ==> effects == seq![Effect::Location]) && (
        mode == Mode::National && day_ahead_fits(now) ==> national_fetches(now, effects)),
{
}

/// Scope isolation: an event of the national scope leaves the local dataset
/// as it was, and an event of the local scope leaves the national dataset as
/// it was.
pub proof fn lemma_scope_isolation(event: Event, old: Model, new: Model, effects: Seq<Effect>)
    requires
        step(event, old, new, effects),
    ensures
        is_national_event(event) ==> new.local == old.local,
        is_local_event(event) ==> new.national == old.national,
{
}

/// National dual fetch: stale national data brings exactly two fetches, the
/// intensity and the generation mix. The answer to each renders again and
/// changes only its own part of the national dataset, with its refresh time.
pub proof fn lemma_national_dual_fetch(
    old: Model,
    now: Instant,
    new: Model,
    effects: Seq<Effect>,
    event: Event,
    after: Model,
    answer_effects: Seq<Effect>,
)
    requires
        time_step(old, Mode::National, now, new, effects),
        step(event, new, after, answer_effects),
    ensures
        stale(now, old.national.last_updated) && day_ahead_fits(now) ==> national_fetches(
            now,
            effects,
        ),
        event is SetNational && event->SetNational_0 is Ok ==> {
            &&& answer_effects == seq![Effect::Render]
            &&& after.national.scope == new.national.scope
            &&& after.national.last_updated == new.time
            &&& after.local == new.local && after.time == new.time && after.mode == new.mode
        },
        event is SetNationalMix && event->SetNationalMix_0 is Ok ==> {
            &&& answer_effects == seq![Effect::Render]
            &&& after.national.periods == new.national.periods
            &&& after.national.last_updated == new.time
            &&& after.local == new.local && after.time == new.time && after.mode == new.mode
        },
{
}

/// No-op laws: an answer without a location, and any failed fetch, leave the
/// state exactly as it was and request nothing.
pub proof fn lemma_failures_change_nothing(
    event: Event,
    old: Model,
    new: Model,
    effects: Seq<Effect>,
)
    requires
        step(event, old, new, effects),
        is_failure(event),
    ensures
        new == old,
        effects.len() == 0,
{
}

/// The application: its update engine and its view.
#[derive(Clone, Copy, Debug, Default)]
pub struct App;

impl App {
    /// Handles `event`: changes `model` and returns the requests for the
    /// host, in the order in which they are to be made.
    pub fn update(&self, event: Event, model: &mut Model) -> (effects: Vec<Effect>)
        ensures
            step(event, *old(model), *final(model), effects@),
    {
        let mut effects: Vec<Effect> = Vec::new();
        match event {
            Event::GetNational => {
                model.mode = Mode::National;
                effects.push(Effect::Time(Mode::National));
            },
            Event::GetLocal => {
                model.mode = Mode::Local;
                effects.push(Effect::Time(Mode::Local));
            },
            Event::SetTimeLocal(TimeResponse(text)) => {
                if let Some(now) = Instant::parse_rfc3339(text.as_str()) {
                    effects = self.set_time(Mode::Local, now, model);
                }
            },
            Event::SetTimeNational(TimeResponse(text)) => {
                if let Some(now) = Instant::parse_rfc3339(text.as_str()) {
                    effects = self.set_time(Mode::National, now, model);
                }
            },
            Event::SetLocation(LocationResponse { location }) => {
                if let Some(c) = location {
                    let query = Query::from(c);
                    let url = query.lookup_url();
                    effects.push(Effect::Http(HttpRequest { url, reply: Reply::Postcode }));
                }
            },
            Event::SetPostcode(r) => {
                if let Ok(resp) = r {
                    effects = self.set_postcode(resp, model);
                }
            },
            Event::SetRegional(r) => {
                if let Ok(resp) = r {
                    model.local.periods = resp.data.data;
                    model.local.last_updated = model.time;
                    effects.push(Effect::Render);
                }
            },
            Event::SetNational(r) => {
                if let Ok(resp) = r {
                    model.national.periods = resp.data;
                    model.national.last_updated = model.time;
                    effects.push(Effect::Render);
                }
            },
            Event::SetNationalMix(r) => {
                if let Ok(resp) = r {
                    model.national.scope.generation_mix = resp.data;
                    model.national.last_updated = model.time;
                    effects.push(Effect::Render);
                }
            },
        }
        effects
    }

    /// The view of `model`.
    pub fn view(&self, model: &Model) -> (r: ViewModel)
        ensures
            projects(*model, r),
    {
        ViewModel::from_model(model)
    }

    /// Handles the current time `now` for `mode`.
    pub fn set_time(&self, mode: Mode, now: Instant, model: &mut Model) -> (effects: Vec<Effect>)
        ensures
            time_step(*old(model), mode, now, *final(model), effects@),
    {
        let mut effects: Vec<Effect> = Vec::new();
        let last = match mode {
            Mode::National => model.national.last_updated,
            Mode::Local => model.local.last_updated,
        };
        if !is_stale(&now, &last) {
            model.time = now;
            effects.push(Effect::Render);
            return effects;
        }
        match mode {
            Mode::Local => {
                model.time = now;
                effects.push(Effect::Location);
            },
            Mode::National => {
                if let Some(mix_url) = national_mix::url(&now) {
                    model.time = now;
                    let url = national_intensity::url(&now);
                    effects.push(Effect::Http(HttpRequest { url, reply: Reply::National }));
                    effects.push(Effect::Http(HttpRequest { url: mix_url, reply: Reply::NationalMix }));
                }
            },
        }
        effects
    }

    /// Handles a successful postcode lookup.
    pub fn set_postcode(&self, resp: PostcodeResponse, model: &mut Model) -> (effects: Vec<Effect>)
        ensures
            postcode_step(resp, *old(model), *final(model), effects@),
    {
        let mut effects: Vec<Effect> = Vec::new();
        let mut resp = resp;
        if resp.result.len() == 0 {
            return effects;
        }
        let p = resp.result.remove(0);
        let url = regional::url(&model.time, p.outcode.as_str());
        model.local.scope.location = Some(
            Location {
                coordinate: Coordinate { latitude: p.latitude, longitude: p.longitude },
                outcode: p.outcode,
                admin_district: p.admin_district,
            },
        );
        effects.push(Effect::Http(HttpRequest { url, reply: Reply::Regional }));
        effects.push(Effect::Render);
        effects
    }
}

} // verus!
