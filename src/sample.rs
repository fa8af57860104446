use vstd::prelude::*;

verus! {

/// Nanoseconds in a second; a leap second is carried as a second run of them.
pub const NANOS_PER_SEC: u32 = 1_000_000_000;

/// An instant in UTC: whole seconds since the Unix epoch and the nanoseconds
/// past that second.
#[derive(Clone, Copy, Debug, PartialEq, Eq, Structural)]
pub struct Timestamp {
    pub secs: i64,
    pub nanos: u32,
}

impl Timestamp {
    /// The nanoseconds stay under two seconds' worth, the second one being a leap second.
    pub open spec fn wf(self) -> bool {
        self.nanos < 2 * NANOS_PER_SEC
    }
}

/// One recorded position. `lat` and `lon` are in units of 1e-7 degrees.
#[derive(Debug)]
pub struct Sample {
    pub timestamp: Timestamp,
    pub lat: i64,
    pub lon: i64,
    pub city: Option<String>,
    pub country: Option<String>,
}

/// A sample's content as plain values: time, coordinates, optional names.
pub struct SampleView {
    pub timestamp: Timestamp,
    pub lat: int,
    pub lon: int,
    pub city: Option<Seq<char>>,
    pub country: Option<Seq<char>>,
}

pub open spec fn opt_view(s: Option<String>) -> Option<Seq<char>> {
    match s {
        Some(t) => Some(t@),
        None => None,
    }
}

impl View for Sample {
    type V = SampleView;

    open spec fn view(&self) -> SampleView {
        SampleView {
            timestamp: self.timestamp,
            lat: self.lat as int,
            lon: self.lon as int,
            city: opt_view(self.city),
            country: opt_view(self.country),
        }
    }
}

impl Sample {
    pub open spec fn wf(&self) -> bool {
        self.timestamp.wf()
    }

    /// The sample's position as a (latitude, longitude) pair.
    pub fn point(&self) -> (r: (i64, i64))
        ensures
            r == (self.lat, self.lon),
    {
        (self.lat, self.lon)
    }
}

/// Reads the clock: std's `SystemTime::now` as a duration since the Unix
/// epoch, made a UTC instant by chrono's `DateTime::from_timestamp` and read
/// back as whole seconds (`DateTime::timestamp`) and the nanoseconds past them
/// (`DateTime::timestamp_subsec_nanos`, which chrono keeps under two seconds'
/// worth). `None` when the clock reads before the epoch or past the dates that
/// chrono represents; none of these calls panics.
#[verifier::external_body]
fn now() -> (r: Option<Timestamp>)
    ensures
        r matches Some(t) ==> t.wf(),
{
    let d = std::time::SystemTime::now().duration_since(std::time::UNIX_EPOCH).ok()?;
    let secs = i64::try_from(d.as_secs()).ok()?;
    let t = chrono::DateTime::from_timestamp(secs, d.subsec_nanos())?;
    Some(Timestamp { secs: t.timestamp(), nanos: t.timestamp_subsec_nanos() })
}

/// The sample that a provider's answer gives when read at time `at`: latitude
/// and longitude are required, city and country are kept when present.
pub open spec fn response_sample(
    lat: Option<i64>,
    lon: Option<i64>,
    city: Option<Seq<char>>,
    country: Option<Seq<char>>,
    at: Timestamp,
) -> Option<SampleView> {
    match (lat, lon) {
        (Some(la), Some(lo)) => Some(
            SampleView { timestamp: at, lat: la as int, lon: lo as int, city, country },
        ),
        _ => None,
    }
}

/// Turns the fields read from a provider's answer into a sample stamped `at`;
/// `None` when latitude or longitude is missing.
pub fn sample_from_response(
    lat: Option<i64>,
    lon: Option<i64>,
    city: Option<String>,
    country: Option<String>,
    at: Timestamp,
) -> (r: Option<Sample>)
    ensures
        match r {
            Some(s) => response_sample(lat, lon, opt_view(city), opt_view(country), at) == Some(
                s@,
            ),
            None => response_sample(lat, lon, opt_view(city), opt_view(country), at) is None,
        },
{
    match (lat, lon) {
        (Some(la), Some(lo)) => Some(Sample { timestamp: at, lat: la, lon: lo, city, country }),
        _ => None,
    }
}

/// Like `sample_from_response`, stamped with the current time once the
/// answer is found complete. Whatever the clock reads, a result has the
/// answer's fields and a well-formed timestamp; a clock that cannot be read
/// gives `None`, as an incomplete answer does.
pub fn accept_response(
    lat: Option<i64>,
    lon: Option<i64>,
    city: Option<String>,
    country: Option<String>,
) -> (r: Option<Sample>)
    ensures
        (lat is None || lon is None) ==> r is None,
        match r {
            Some(s) => s.wf() && response_sample(
                lat,
                lon,
                opt_view(city),
                opt_view(country),
                s.timestamp,
            ) == Some(s@),
            None => true,
        },
{
    if lat.is_none() || lon.is_none() {
        return None;
    }
    match now() {
        Some(at) => sample_from_response(lat, lon, city, country, at),
        None => None,
    }
}

} // verus!
