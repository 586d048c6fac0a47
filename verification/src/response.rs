//! The data model of an authorization response.
//!
//! A response either reports a status — authorized or not, with a plan, and
//! optionally usage reports, a metrics hierarchy and application keys — or
//! an error with a code. Everything here is plain data: the fields are
//! booleans, integers and strings, and the accessors say exactly what they
//! return. Decoding from a wire format is a separate concern and lives with
//! the code that owns the wire; this module supplies the parsing that is
//! pure computation, such as reading a period name or a timestamp string.

use vstd::prelude::*;

use crate::app_keys::AppKeysList;
use crate::hierarchy::MetricsHierarchy;

verus! {

/// An instant, as whole seconds since the Unix epoch.
#[derive(Debug, Clone, PartialEq, Eq, Structural)]
pub struct PeriodTime(pub i64);

/// The granularity a usage report is counted over.
#[derive(Debug, Clone, Copy, PartialEq, Eq, Structural)]
pub enum Period {
    Minute,
    Hour,
    Day,
    Week,
    Month,
    Year,
    Eternity,
}

/// One metric's usage within one period.
#[derive(Debug, Clone, PartialEq, Eq)]
pub struct UsageReport {
    pub metric: String,
    pub period: Period,
    pub period_start: PeriodTime,
    pub period_end: PeriodTime,
    pub max_value: u64,
    pub current_value: u64,
}

/// The usage reports of a status, kept as one wrapped list.
#[derive(Debug, Clone, PartialEq, Eq)]
pub enum UsageReports {
    UsageReports(Vec<UsageReport>),
}

/// A granted or denied authorization.
#[derive(Debug, Clone, PartialEq, Eq)]
pub struct AuthorizationStatus {
    authorized: bool,
    reason: Option<String>,
    plan: String,
    usage_reports: Option<UsageReports>,
    metrics_hierarchy: Option<MetricsHierarchy>,
    app_keys: Option<AppKeysList>,
}

/// A response that is no status at all, only an error code.
#[derive(Debug, Clone, PartialEq, Eq)]
pub struct AuthorizationError {
    code: String,
}

/// A full response: a status, or an error.
#[derive(Debug, Clone, PartialEq, Eq)]
pub enum Authorization {
    Status(AuthorizationStatus),
    Error(AuthorizationError),
}

/// Usage numbers alone, without their metric's name.
#[derive(Debug, PartialEq)]
pub struct UsageData {
    pub max_value: u64,
    pub current_value: u64,
}

/// A metric's name.
#[derive(Debug, PartialEq)]
pub struct Metric(pub String);

impl AuthorizationStatus {
    pub closed spec fn spec_authorized(self) -> bool {
        self.authorized
    }

    pub closed spec fn spec_reason(self) -> Option<String> {
        self.reason
    }

    pub closed spec fn spec_plan(self) -> String {
        self.plan
    }

    pub closed spec fn spec_usage_reports(self) -> Option<UsageReports> {
        self.usage_reports
    }

    pub closed spec fn spec_hierarchy(self) -> Option<MetricsHierarchy> {
        self.metrics_hierarchy
    }

    pub closed spec fn spec_app_keys(self) -> Option<AppKeysList> {
        self.app_keys
    }

    pub fn new(
        authorized: bool,
        reason: Option<String>,
        plan: String,
        usage_reports: Option<UsageReports>,
        metrics_hierarchy: Option<MetricsHierarchy>,
        app_keys: Option<AppKeysList>,
    ) -> (r: AuthorizationStatus)
        ensures
            r.spec_authorized() == authorized,
            r.spec_reason() == reason,
            r.spec_plan() == plan,
            r.spec_usage_reports() == usage_reports,
            r.spec_hierarchy() == metrics_hierarchy,
            r.spec_app_keys() == app_keys,
    {
        AuthorizationStatus { authorized, reason, plan, usage_reports, metrics_hierarchy, app_keys }
    }

    /// Whether the request was authorized.
    pub fn authorized(&self) -> (r: bool)
        ensures
            r == self.spec_authorized(),
    {
        self.authorized
    }

    /// Why authorization was denied, when a reason was given.
    pub fn reason(&self) -> (r: Option<&str>)
        ensures
            match r {
                Some(s) => self.spec_reason() matches Some(v) && s@ == v@,
                None => self.spec_reason() is None,
            },
    {
        match &self.reason {
            Some(s) => Some(s.as_str()),
            None => None,
        }
    }

    /// The plan the authorization was decided under.
    pub fn plan(&self) -> (r: &str)
        ensures
            r@ == self.spec_plan()@,
    {
        self.plan.as_str()
    }

    /// The application keys, when the response carried any.
    pub fn app_keys(&self) -> (r: Option<&AppKeysList>)
        ensures
            match r {
                Some(k) => self.spec_app_keys() matches Some(v) && *k == v,
                None => self.spec_app_keys() is None,
            },
    {
        self.app_keys.as_ref()
    }

    /// The usage reports, when the response carried any.
    pub fn usage_reports(&self) -> (r: Option<&UsageReports>)
        ensures
            match r {
                Some(u) => self.spec_usage_reports() matches Some(v) && *u == v,
                None => self.spec_usage_reports() is None,
            },
    {
        self.usage_reports.as_ref()
    }

    /// The metrics hierarchy, when the response carried one.
    pub fn hierarchy(&self) -> (r: Option<&MetricsHierarchy>)
        ensures
            match r {
                Some(h) => self.spec_hierarchy() matches Some(v) && *h == v,
                None => self.spec_hierarchy() is None,
            },
    {
        self.metrics_hierarchy.as_ref()
    }
}

impl AuthorizationError {
    pub closed spec fn spec_code(self) -> String {
        self.code
    }

    pub fn new(code: String) -> (r: AuthorizationError)
        ensures
            r.spec_code() == code,
    {
        AuthorizationError { code }
    }

    /// The error code of a failed authorization.
    pub fn code(&self) -> (r: &str)
        ensures
            r@ == self.spec_code()@,
    {
        self.code.as_str()
    }
}

/// The period a period name denotes; `None` for any other string.
pub open spec fn spec_period_from(s: Seq<char>) -> Option<Period> {
    if s == "minute"@ {
        Some(Period::Minute)
    } else if s == "hour"@ {
        Some(Period::Hour)
    } else if s == "day"@ {
        Some(Period::Day)
    } else if s == "week"@ {
        Some(Period::Week)
    } else if s == "month"@ {
        Some(Period::Month)
    } else if s == "year"@ {
        Some(Period::Year)
    } else if s == "eternity"@ {
        Some(Period::Eternity)
    } else {
        None
    }
}

/// Reads a period name: exactly the seven lower-case period names are
/// accepted, anything else is rejected.
pub fn period_from_str(v: &str) -> (r: Option<Period>)
    ensures
        r == spec_period_from(v@),
{
    let s = v.to_owned();
    if s == "minute".to_owned() {
        Some(Period::Minute)
    } else if s == "hour".to_owned() {
        Some(Period::Hour)
    } else if s == "day".to_owned() {
        Some(Period::Day)
    } else if s == "week".to_owned() {
        Some(Period::Week)
    } else if s == "month".to_owned() {
        Some(Period::Month)
    } else if s == "year".to_owned() {
        Some(Period::Year)
    } else if s == "eternity".to_owned() {
        Some(Period::Eternity)
    } else {
        None
    }
}

/// What parsing a timestamp string against a layout yields: the epoch
/// second, or nothing when the string does not match the layout. The value
/// is a function of the two strings alone.
pub uninterp spec fn parsed_timestamp(s: Seq<char>, fmt: Seq<char>) -> Option<int>;

/// Relies on chrono's `DateTime::parse_from_str`, and on `timestamp` of the
/// parsed value: both are deterministic in the two strings, so the outcome
/// is named by `parsed_timestamp` rather than spelled out.
#[verifier::external_body]
fn parse_timestamp_epoch(s: &str, fmt: &str) -> (r: Option<i64>)
    ensures
        match r {
            Some(t) => parsed_timestamp(s@, fmt@) == Some(t as int),
            None => parsed_timestamp(s@, fmt@) == None::<int>,
        },
{
    match chrono::DateTime::parse_from_str(s, fmt) {
        Ok(dt) => Some(dt.timestamp()),
        Err(_) => None,
    }
}

/// Reads a timestamp of the layout used in responses, year first and offset
/// last, into seconds since the epoch; `None` when the string does not
/// match that layout.
pub fn parse_period_time(s: &str) -> (r: Option<PeriodTime>)
    ensures
        match r {
            Some(pt) => parsed_timestamp(s@, "%Y-%m-%d %H:%M:%S %z"@) == Some(pt.0 as int),
            None => parsed_timestamp(s@, "%Y-%m-%d %H:%M:%S %z"@) == None::<int>,
        },
{
    match parse_timestamp_epoch(s, "%Y-%m-%d %H:%M:%S %z") {
        Some(t) => Some(PeriodTime(t)),
        None => None,
    }
}

} // verus!
