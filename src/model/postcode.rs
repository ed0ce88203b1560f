//! The postcode lookup by coordinate and its answer.
use crate::capabilities::location::Coordinate;
use crate::text::{millionths_text, push_millionths};
use vstd::prelude::*;

verus! {

/// Base address of the postcode service.
pub const BASE_URL: &'static str = "https://api.postcodes.io";

/// Address of the postcode lookup, without its query.
pub open spec fn url_text() -> Seq<char> {
    BASE_URL@ + "/postcodes"@
}

/// Builds `url_text()`.
pub fn url() -> (r: String)
    ensures
        r@ == url_text(),
{
    let mut s = String::from_str(BASE_URL);
    s.append("/postcodes");
    s
}

/// The query of a postcode lookup: latitude and longitude in millionths of a
/// degree.
#[derive(Clone, Copy, Debug, PartialEq, Eq)]
pub struct Query {
    pub lat: i64,
    pub lon: i64,
}

impl From<Coordinate> for Query {
    fn from(location: Coordinate) -> (r: Query)
        ensures
            r.lat == location.latitude,
            r.lon == location.longitude,
    {
        Query { lat: location.latitude, lon: location.longitude }
    }
}

impl vstd::std_specs::convert::FromSpecImpl<Coordinate> for Query {
    open spec fn obeys_from_spec() -> bool {
        true
    }

    open spec fn from_spec(location: Coordinate) -> Query {
        Query { lat: location.latitude, lon: location.longitude }
    }
}

/// The query text `lat={lat}&lon={lon}`, each in decimal degrees.
pub open spec fn query_text(q: Query) -> Seq<char> {
    "lat="@ + millionths_text(q.lat as int) + "&lon="@ + millionths_text(q.lon as int)
}

/// Address of the postcode lookup for `q`, query included.
pub open spec fn lookup_url_text(q: Query) -> Seq<char> {
    url_text() + "?"@ + query_text(q)
}

impl Query {
    /// Builds `query_text(*self)`.
    pub fn to_query_string(&self) -> (r: String)
        ensures
            r@ == query_text(*self),
    {
        let mut s = String::from_str("lat=");
        push_millionths(&mut s, self.lat);
        s.append("&lon=");
        push_millionths(&mut s, self.lon);
        s
    }

    /// Builds `lookup_url_text(*self)`.
    pub fn lookup_url(&self) -> (r: String)
        ensures
            r@ == lookup_url_text(*self),
    {
        let mut s = url();
        s.append("?");
        let q = self.to_query_string();
        s.append(q.as_str());
        s
    }
}

/// A postcode lookup answer: its status and the postcodes nearest first.
#[derive(Clone, Debug, PartialEq)]
pub struct PostcodeResponse {
    pub status: i64,
    pub result: Vec<Postcode>,
}

/// One postcode with its areas. Coordinates are in millionths of a degree,
/// the distance from the queried point in millimetres.
#[derive(Clone, Debug, PartialEq)]
pub struct Postcode {
    pub postcode: String,
    pub quality: i64,
    pub eastings: i64,
    pub northings: i64,
    pub country: String,
    pub nhs_ha: String,
    pub longitude: i64,
    pub latitude: i64,
    pub european_electoral_region: String,
    pub primary_care_trust: String,
    pub region: String,
    pub lsoa: String,
    pub msoa: String,
    pub incode: String,
    pub outcode: String,
    pub parliamentary_constituency: String,
    pub admin_district: String,
    pub parish: String,
    pub admin_county: Option<String>,
    pub date_of_introduction: String,
    pub admin_ward: String,
    pub ced: Option<String>,
    pub ccg: String,
    pub nuts: String,
    pub pfa: String,
    pub codes: Codes,
    pub distance: i64,
}

/// The statistical codes of a postcode's areas.
#[derive(Clone, Debug, PartialEq, Eq, Default)]
pub struct Codes {
    pub admin_district: String,
    pub admin_county: String,
    pub admin_ward: String,
    pub parish: String,
    pub parliamentary_constituency: String,
    pub ccg: String,
    pub ccg_id: String,
    pub ced: String,
    pub nuts: String,
    pub lsoa: String,
    pub msoa: String,
    pub lau2: String,
    pub pfa: String,
}

} // verus!
