//! The public-holiday calendar: where a year's data is fetched from, how a
//! response is judged, and how a year is stored and read back.
use crate::text::{decimal, decimal_text, trim_text, trimmed_of, views};
use vstd::prelude::*;

verus! {

/// A dated entry of the holiday calendar.
pub struct Holiday {
    pub name: String,
    /// ISO 8601 date.
    pub date: String,
    /// Whether the day is off (a holiday) rather than a make-up working day.
    pub is_off_day: bool,
}

/// A stored holiday.
pub struct HolidayRow {
    pub name: String,
    pub date: String,
    pub is_off_day: bool,
}

impl From<HolidayRow> for Holiday {
    fn from(row: HolidayRow) -> (r: Holiday) {
        Holiday { name: row.name, date: row.date, is_off_day: row.is_off_day }
    }
}

impl vstd::std_specs::convert::FromSpecImpl<HolidayRow> for Holiday {
    open spec fn obeys_from_spec() -> bool {
        true
    }

    open spec fn from_spec(row: HolidayRow) -> Holiday {
        holiday_of(row)
    }
}

/// The holiday that a stored row describes.
pub open spec fn holiday_of(row: HolidayRow) -> Holiday {
    Holiday { name: row.name, date: row.date, is_off_day: row.is_off_day }
}

/// A year of the calendar with the official notices it comes from.
pub struct HolidayYear {
    pub year: i32,
    pub papers: Vec<String>,
    pub days: Vec<Holiday>,
}

/// A year held in the store: when it was fetched and how many days it has.
pub struct StoredHolidayYear {
    pub year: i32,
    pub sync_time: String,
    pub count: i32,
}

/// The HTTP proxy through which the calendar is fetched.
pub struct ProxySettings {
    pub id: i32,
    pub enabled: bool,
    pub proxy_url: String,
    pub created_at: String,
    pub updated_at: String,
}

/// A new proxy setting.
pub struct UpdateProxyParams {
    pub enabled: bool,
    pub proxy_url: String,
}

/// Which year to fetch.
pub struct SyncHolidayParams {
    pub year: i32,
}

/// Why fetching, storing or reading a year failed.
pub enum HolidayError {
    /// The request could not be made or its body not be read.
    Network(String),
    /// The server answered with a status outside 200 to 299.
    HttpStatus(u16),
    /// The body is blank: the year is not published yet.
    EmptyPayload,
    /// The body is not a calendar year.
    MalformedJson(String),
    /// The notices could not be written as JSON.
    PapersNotEncodable,
    /// The stored notices are not a JSON list of texts.
    PapersNotDecodable,
    /// The year has more days than a count can hold.
    TooManyDays,
}

/// Where the calendar data is published.
pub open spec fn holiday_source() -> Seq<char> {
    "https://raw.githubusercontent.com/NateScarlet/holiday-cn/master"@
}

/// The address of a year's file at the source.
pub open spec fn holiday_file_url(year: i32) -> Seq<char> {
    holiday_source() + "/"@ + decimal_text(year as int) + ".json"@
}

/// A text without its trailing `/` characters.
pub open spec fn without_trailing_slashes(s: Seq<char>) -> Seq<char>
    decreases s.len(),
{
    if s.len() > 0 && s.last() == '/' {
        without_trailing_slashes(s.drop_last())
    } else {
        s
    }
}

/// The address fetched for a year: the file's address, behind the proxy
/// prefix where one is given that is not blank.
pub open spec fn holiday_fetch_url(year: i32, proxy: Option<Seq<char>>, proxy_trimmed: Option<Seq<char>>) -> Seq<char> {
    match (proxy, proxy_trimmed) {
        (Some(p), Some(t)) => if t.len() == 0 {
            holiday_file_url(year)
        } else {
            without_trailing_slashes(p) + "/"@ + holiday_file_url(year)
        },
        _ => holiday_file_url(year),
    }
}

pub open spec fn trimmed_proxy(proxy: Option<Seq<char>>) -> Option<Seq<char>> {
    match proxy {
        Some(p) => Some(trimmed_of(p)),
        None => None,
    }
}

pub open spec fn opt_view(s: Option<String>) -> Option<Seq<char>> {
    match s {
        Some(t) => Some(t@),
        None => None,
    }
}

fn strip_trailing_slashes(s: &str) -> (r: String)
    ensures
        r@ == without_trailing_slashes(s@),
{
    let mut j = s.unicode_len();
    assert(s@.take(j as int) == s@);
    while j > 0 && s.get_char(j - 1) == '/'
        invariant
            j <= s@.len(),
            without_trailing_slashes(s@) == without_trailing_slashes(s@.take(j as int)),
        decreases j,
    {
        assert(s@.take(j as int).drop_last() == s@.take(j - 1));
        j = j - 1;
    }
    proof {
        if j > 0 {
            assert(s@.take(j as int).last() == s@[j - 1]);
        } else {
            assert(s@.take(0) =~= Seq::<char>::empty());
        }
    }
    assert(s@.subrange(0, j as int) == s@.take(j as int));
    String::from_str(s.substring_char(0, j))
}

/// The address fetched for `year`, through `proxy` where one is given and
/// it is not blank; `trimmed` is the proxy with surrounding whitespace
/// removed.
pub fn fetch_url_for(year: i32, proxy: &Option<String>, trimmed: &Option<String>) -> (r: String)
    ensures
        r@ == holiday_fetch_url(year, opt_view(*proxy), opt_view(*trimmed)),
{
    let mut url = String::from_str("https://raw.githubusercontent.com/NateScarlet/holiday-cn/master");
    url.append("/");
    let y = decimal(year);
    url.append(y.as_str());
    url.append(".json");
    assert(url@ == holiday_file_url(year));
    match (proxy, trimmed) {
        (Some(p), Some(t)) => {
            if t.as_str().unicode_len() == 0 {
                url
            } else {
                let mut full = strip_trailing_slashes(p.as_str());
                full.append("/");
                full.append(url.as_str());
                full
            }
        },
        _ => url,
    }
}

/// The address fetched for `year`, through `proxy` where one is given and
/// it is not blank.
pub fn holiday_url(year: i32, proxy: &Option<String>) -> (r: String)
    ensures
        r@ == holiday_fetch_url(year, opt_view(*proxy), trimmed_proxy(opt_view(*proxy))),
{
    let trimmed = match proxy {
        Some(p) => Some(trim_text(p.as_str())),
        None => None,
    };
    fetch_url_for(year, proxy, &trimmed)
}

/// The proxy to fetch through: the configured one where it is enabled.
pub fn proxy_for_sync(settings: &Option<ProxySettings>) -> (r: Option<String>)
    ensures
        r == (match settings {
            Some(s) => if s.enabled {
                Some(s.proxy_url)
            } else {
                None
            },
            None => None,
        }),
{
    match settings {
        Some(s) => if s.enabled {
            Some(s.proxy_url.clone())
        } else {
            None
        },
        None => None,
    }
}

/// Judges a response from its status and the length of its body once
/// trimmed: a status outside 200 to 299 is an error, then a blank body.
pub fn response_verdict(status: u16, trimmed_len: usize) -> (r: Result<(), HolidayError>)
    ensures
        !(200 <= status <= 299) ==> (r matches Err(HolidayError::HttpStatus(s)) && s == status),
        200 <= status <= 299 && trimmed_len == 0 ==> r matches Err(HolidayError::EmptyPayload),
        200 <= status <= 299 && trimmed_len > 0 ==> r is Ok,
{
    if status < 200 || status > 299 {
        Err(HolidayError::HttpStatus(status))
    } else if trimmed_len == 0 {
        Err(HolidayError::EmptyPayload)
    } else {
        Ok(())
    }
}

/// Judges a response from its status and body (see [`response_verdict`]).
pub fn check_response(status: u16, body: &str) -> (r: Result<(), HolidayError>)
    ensures
        !(200 <= status <= 299) ==> (r matches Err(HolidayError::HttpStatus(s)) && s == status),
        200 <= status <= 299 && trimmed_of(body@).len() == 0 ==> r matches Err(
            HolidayError::EmptyPayload,
        ),
        200 <= status <= 299 && trimmed_of(body@).len() > 0 ==> r is Ok,
{
    let t = trim_text(body);
    response_verdict(status, t.as_str().unicode_len())
}

/// What `serde_json::to_string` writes for a list of texts, where it succeeds.
pub uninterp spec fn papers_json_of(papers: Seq<Seq<char>>) -> Option<Seq<char>>;

/// What `serde_json::from_str` reads as a list of texts, where it succeeds.
pub uninterp spec fn papers_of_json(s: Seq<char>) -> Option<Seq<Seq<char>>>;

/// Relies on `serde_json::to_string` on a list of texts: a JSON array of
/// strings, determined by the texts.
#[verifier::external_body]
fn encode_papers(papers: &Vec<String>) -> (r: Option<String>)
    ensures
        opt_view(r) == papers_json_of(views(papers@)),
{
    serde_json::to_string(papers).ok()
}

/// Relies on `serde_json::from_str` into a list of texts: the result is
/// determined by the JSON text.
#[verifier::external_body]
fn decode_papers(s: &str) -> (r: Option<Vec<String>>)
    ensures
        r matches Some(v) ==> papers_of_json(s@) == Some(views(v@)),
        r is None <==> papers_of_json(s@) is None,
{
    serde_json::from_str::<Vec<String>>(s).ok()
}

/// What storing a fetched year writes: the year row and its days.
pub struct HolidaySync {
    pub year: i32,
    pub papers_json: String,
    pub count: i32,
    pub days: Vec<Holiday>,
}

/// The store rows for a year under `year`, given its notices already
/// written as JSON (`None` where that failed) and its days.
pub fn holiday_sync_plan(year: i32, papers_json: Option<String>, days: Vec<Holiday>) -> (r: Result<
    HolidaySync,
    HolidayError,
>)
    ensures
        papers_json is None ==> r matches Err(HolidayError::PapersNotEncodable),
        papers_json is Some && days@.len() > i32::MAX ==> r matches Err(HolidayError::TooManyDays),
        papers_json is Some && days@.len() <= i32::MAX ==> r is Ok,
        r matches Ok(plan) ==> plan.year == year && papers_json == Some(plan.papers_json)
            && plan.count == days@.len() && plan.days@ == days@,
{
    let papers_json = match papers_json {
        Some(j) => j,
        None => {
            return Err(HolidayError::PapersNotEncodable);
        },
    };
    let n = days.len();
    if n > i32::MAX as usize {
        return Err(HolidayError::TooManyDays);
    }
    Ok(HolidaySync { year, papers_json, count: n as i32, days })
}

/// Prepares a fetched year for the store under `year`: its notices as
/// JSON and its number of days (see [`holiday_sync_plan`]).
pub fn plan_holiday_sync(year: i32, data: HolidayYear) -> (r: Result<HolidaySync, HolidayError>)
    ensures
        papers_json_of(views(data.papers@)) is None ==> r matches Err(
            HolidayError::PapersNotEncodable,
        ),
        papers_json_of(views(data.papers@)) is Some && data.days@.len() > i32::MAX ==> r matches Err(
            HolidayError::TooManyDays,
        ),
        papers_json_of(views(data.papers@)) is Some && data.days@.len() <= i32::MAX ==> r is Ok,
        r matches Ok(plan) ==> plan.year == year && papers_json_of(views(data.papers@)) == Some(
            plan.papers_json@,
        ) && plan.count == data.days@.len() && plan.days@ == data.days@,
{
    let papers_json = encode_papers(&data.papers);
    holiday_sync_plan(year, papers_json, data.days)
}

/// A stored year under `year`, given its notices already read from JSON
/// (`None` where that failed) and its stored rows, whose order is kept.
pub fn holiday_year_from_rows(year: i32, papers: Option<Vec<String>>, rows: Vec<HolidayRow>) -> (r:
    Result<HolidayYear, HolidayError>)
    ensures
        papers is None ==> r matches Err(HolidayError::PapersNotDecodable),
        papers is Some ==> r is Ok,
        r matches Ok(y) ==> y.year == year && papers == Some(y.papers) && y.days@.len()
            == rows@.len() && forall|i: int|
            0 <= i < rows@.len() ==> #[trigger] y.days@[i] == holiday_of(rows@[i]),
{
    let papers = match papers {
        Some(p) => p,
        None => {
            return Err(HolidayError::PapersNotDecodable);
        },
    };
    let mut days: Vec<Holiday> = Vec::new();
    let n = rows.len();
    let mut i: usize = 0;
    while i < n
        invariant
            n == rows@.len(),
            i <= n,
            days@.len() == i,
            forall|q: int| 0 <= q < i ==> #[trigger] days@[q] == holiday_of(rows@[q]),
        decreases n - i,
    {
        let row = &rows[i];
        days.push(
            Holiday { name: row.name.clone(), date: row.date.clone(), is_off_day: row.is_off_day },
        );
        i = i + 1;
    }
    Ok(HolidayYear { year, papers, days })
}

/// Reads a stored year back: its notices from JSON and its days from the
/// stored rows (see [`holiday_year_from_rows`]).
pub fn assemble_holiday_year(year: i32, papers_json: &str, rows: Vec<HolidayRow>) -> (r: Result<
    HolidayYear,
    HolidayError,
>)
    ensures
        papers_of_json(papers_json@) is None ==> r matches Err(HolidayError::PapersNotDecodable),
        papers_of_json(papers_json@) is Some ==> r is Ok,
        r matches Ok(y) ==> y.year == year && papers_of_json(papers_json@) == Some(views(y.papers@))
            && y.days@.len() == rows@.len() && forall|i: int|
            0 <= i < rows@.len() ==> #[trigger] y.days@[i] == holiday_of(rows@[i]),
{
    let papers = decode_papers(papers_json);
    holiday_year_from_rows(year, papers, rows)
}

} // verus!
