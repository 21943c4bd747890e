use vstd::prelude::*;

use crate::query::{request_url, with_param, ParamSeq, Query};
use crate::text::{decimal, decimal_text};

verus! {

/// The value sent for a flag that is switched on.
pub open spec fn flag_on() -> Seq<char> {
    "true"@
}

/// Sets the flag `name` on `q`.
fn set_flag(q: Query, name: &str) -> (r: Query)
    ensures
        r.base_view() == q.base_view(),
        r.key_view() == q.key_view(),
        r.params_view() == with_param(q.params_view(), name@, flag_on()),
{
    q.set(name, String::from_str("true"))
}

/// Sets the parameter `name` to the number `v`, written in decimal.
fn set_number(q: Query, name: &str, v: i32) -> (r: Query)
    ensures
        r.base_view() == q.base_view(),
        r.key_view() == q.key_view(),
        r.params_view() == with_param(q.params_view(), name@, decimal_text(v as int)),
{
    q.set(name, decimal(v))
}

/// Sets the parameter `name` to the text `v`.
fn set_text(q: Query, name: &str, v: &str) -> (r: Query)
    ensures
        r.base_view() == q.base_view(),
        r.key_view() == q.key_view(),
        r.params_view() == with_param(q.params_view(), name@, v@),
{
    q.set(name, v.to_owned())
}

/// A request for the list of countries.
#[derive(Debug, Clone)]
pub struct CountriesRequest {
    query: Query,
}

impl CountriesRequest {
    /// The accumulated query.
    pub closed spec fn query(&self) -> Query {
        self.query
    }

    /// The address the request goes to.
    pub open spec fn url_view(&self) -> Seq<char> {
        request_url(
            self.query().base_view(),
            "countries"@,
            self.query().key_view(),
            self.query().params_view(),
        )
    }

    /// A request with no optional parameters.
    pub fn new(base_url: &str, key: &str) -> (r: CountriesRequest)
        ensures
            r.query().base_view() == base_url@,
            r.query().key_view() == key@,
            r.query().params_view().len() == 0,
    {
        CountriesRequest { query: Query::new(base_url, key) }
    }

    /// Only countries whose name or code matches `text`.
    pub fn search(self, text: &str) -> (r: CountriesRequest)
        ensures
            r.query().base_view() == self.query().base_view(),
            r.query().key_view() == self.query().key_view(),
            r.query().params_view() == with_param(self.query().params_view(), "search"@, text@),
    {
        CountriesRequest { query: set_text(self.query, "search", text) }
    }

    /// Only countries that observe public holidays.
    pub fn public(self) -> (r: CountriesRequest)
        ensures
            r.query().base_view() == self.query().base_view(),
            r.query().key_view() == self.query().key_view(),
            r.query().params_view() == with_param(self.query().params_view(), "public"@, flag_on()),
    {
        CountriesRequest { query: set_flag(self.query, "public") }
    }

    /// The address the request goes to.
    pub fn url(&self) -> (r: String)
        ensures
            r@ == self.url_view(),
    {
        let required: Vec<(String, String)> = Vec::new();
        assert(required.deep_view() + self.query.params_view() =~= self.query.params_view());
        self.query.url("countries", &required)
    }
}

/// A request for the list of languages.
#[derive(Debug, Clone)]
pub struct LanguagesRequest {
    query: Query,
}

impl LanguagesRequest {
    /// The accumulated query.
    pub closed spec fn query(&self) -> Query {
        self.query
    }

    /// The address the request goes to.
    pub open spec fn url_view(&self) -> Seq<char> {
        request_url(
            self.query().base_view(),
            "languages"@,
            self.query().key_view(),
            self.query().params_view(),
        )
    }

    /// A request with no optional parameters.
    pub fn new(base_url: &str, key: &str) -> (r: LanguagesRequest)
        ensures
            r.query().base_view() == base_url@,
            r.query().key_view() == key@,
            r.query().params_view().len() == 0,
    {
        LanguagesRequest { query: Query::new(base_url, key) }
    }

    /// Only languages whose name or code matches `text`.
    pub fn search(self, text: &str) -> (r: LanguagesRequest)
        ensures
            r.query().base_view() == self.query().base_view(),
            r.query().key_view() == self.query().key_view(),
            r.query().params_view() == with_param(self.query().params_view(), "search"@, text@),
    {
        LanguagesRequest { query: set_text(self.query, "search", text) }
    }

    /// The address the request goes to.
    pub fn url(&self) -> (r: String)
        ensures
            r@ == self.url_view(),
    {
        let required: Vec<(String, String)> = Vec::new();
        assert(required.deep_view() + self.query.params_view() =~= self.query.params_view());
        self.query.url("languages", &required)
    }
}

/// The parameters every `holidays` request carries.
pub open spec fn holidays_required(country: Seq<char>, year: i32) -> ParamSeq {
    seq![("country"@, country), ("year"@, decimal_text(year as int))]
}

/// A request for the holidays of one country in one year.
#[derive(Debug, Clone)]
pub struct HolidaysRequest {
    query: Query,
    country: String,
    year: i32,
}

impl HolidaysRequest {
    /// The accumulated optional parameters.
    pub closed spec fn query(&self) -> Query {
        self.query
    }

    /// The country asked about.
    pub closed spec fn country_view(&self) -> Seq<char> {
        self.country@
    }

    /// The year asked about.
    pub closed spec fn year_view(&self) -> i32 {
        self.year
    }

    /// Everything the request carries besides the key: the country and year,
    /// then the optional parameters.
    pub open spec fn params_view(&self) -> ParamSeq {
        holidays_required(self.country_view(), self.year_view()) + self.query().params_view()
    }

    /// The address the request goes to.
    pub open spec fn url_view(&self) -> Seq<char> {
        request_url(
            self.query().base_view(),
            "holidays"@,
            self.query().key_view(),
            self.params_view(),
        )
    }

    /// What a setter keeps: the target, the key, the country and the year.
    pub open spec fn keeps_required(&self, other: &HolidaysRequest) -> bool {
        &&& other.query().base_view() == self.query().base_view()
        &&& other.query().key_view() == self.query().key_view()
        &&& other.country_view() == self.country_view()
        &&& other.year_view() == self.year_view()
    }

    /// A request for `country` and `year` with no optional parameters.
    pub fn new(base_url: &str, key: &str, country: &str, year: i32) -> (r: HolidaysRequest)
        ensures
            r.query().base_view() == base_url@,
            r.query().key_view() == key@,
            r.query().params_view().len() == 0,
            r.country_view() == country@,
            r.year_view() == year,
    {
        HolidaysRequest { query: Query::new(base_url, key), country: country.to_owned(), year }
    }

    /// Only holidays in month `month`.
    pub fn month(self, month: i32) -> (r: HolidaysRequest)
        ensures
            self.keeps_required(&r),
            r.query().params_view() == with_param(
                self.query().params_view(),
                "month"@,
                decimal_text(month as int),
            ),
    {
        HolidaysRequest { query: set_number(self.query, "month", month), ..self }
    }

    /// Only holidays on day `day` of the month.
    pub fn day(self, day: i32) -> (r: HolidaysRequest)
        ensures
            self.keeps_required(&r),
            r.query().params_view() == with_param(
                self.query().params_view(),
                "day"@,
                decimal_text(day as int),
            ),
    {
        HolidaysRequest { query: set_number(self.query, "day", day), ..self }
    }

    /// Only public holidays.
    pub fn public(self) -> (r: HolidaysRequest)
        ensures
            self.keeps_required(&r),
            r.query().params_view() == with_param(self.query().params_view(), "public"@, flag_on()),
    {
        HolidaysRequest { query: set_flag(self.query, "public"), ..self }
    }

    /// Only holidays from the given date on.
    pub fn upcoming(self) -> (r: HolidaysRequest)
        ensures
            self.keeps_required(&r),
            r.query().params_view() == with_param(
                self.query().params_view(),
                "upcoming"@,
                flag_on(),
            ),
    {
        HolidaysRequest { query: set_flag(self.query, "upcoming"), ..self }
    }

    /// The address the request goes to.
    pub fn url(&self) -> (r: String)
        ensures
            r@ == self.url_view(),
    {
        let mut required: Vec<(String, String)> = Vec::new();
        required.push((String::from_str("country"), self.country.clone()));
        required.push((String::from_str("year"), decimal(self.year)));
        assert(required.deep_view() =~= holidays_required(self.country@, self.year));
        self.query.url("holidays", &required)
    }
}

/// The parameters every `workday` request carries.
pub open spec fn workday_required(country: Seq<char>, start: Seq<char>, days: i32) -> ParamSeq {
    seq![("country"@, country), ("start"@, start), ("days"@, decimal_text(days as int))]
}

/// A request for the working day a number of working days after a date.
#[derive(Debug, Clone)]
pub struct WorkdayRequest {
    query: Query,
    country: String,
    start: String,
    days: i32,
}

impl WorkdayRequest {
    /// The accumulated optional parameters.
    pub closed spec fn query(&self) -> Query {
        self.query
    }

    /// The country asked about.
    pub closed spec fn country_view(&self) -> Seq<char> {
        self.country@
    }

    /// The date counted from.
    pub closed spec fn start_view(&self) -> Seq<char> {
        self.start@
    }

    /// The number of working days counted.
    pub closed spec fn days_view(&self) -> i32 {
        self.days
    }

    /// Everything the request carries besides the key.
    pub open spec fn params_view(&self) -> ParamSeq {
        workday_required(self.country_view(), self.start_view(), self.days_view())
            + self.query().params_view()
    }

    /// The address the request goes to.
    pub open spec fn url_view(&self) -> Seq<char> {
        request_url(
            self.query().base_view(),
            "workday"@,
            self.query().key_view(),
            self.params_view(),
        )
    }

    /// A request for `country`, `start` and `days` with no optional parameters.
    pub fn new(base_url: &str, key: &str, country: &str, start: &str, days: i32) -> (r:
        WorkdayRequest)
        ensures
            r.query().base_view() == base_url@,
            r.query().key_view() == key@,
            r.query().params_view().len() == 0,
            r.country_view() == country@,
            r.start_view() == start@,
            r.days_view() == days,
    {
        WorkdayRequest {
            query: Query::new(base_url, key),
            country: country.to_owned(),
            start: start.to_owned(),
            days,
        }
    }

    /// The address the request goes to.
    pub fn url(&self) -> (r: String)
        ensures
            r@ == self.url_view(),
    {
        let mut required: Vec<(String, String)> = Vec::new();
        required.push((String::from_str("country"), self.country.clone()));
        required.push((String::from_str("start"), self.start.clone()));
        required.push((String::from_str("days"), decimal(self.days)));
        assert(required.deep_view() =~= workday_required(self.country@, self.start@, self.days));
        self.query.url("workday", &required)
    }
}

/// The parameters every `workdays` request carries.
pub open spec fn workdays_required(country: Seq<char>, start: Seq<char>, end: Seq<char>) -> ParamSeq {
    seq![("country"@, country), ("start"@, start), ("end"@, end)]
}

/// A request for the number of working days between two dates.
#[derive(Debug, Clone)]
pub struct WorkdaysRequest {
    query: Query,
    country: String,
    start: String,
    end: String,
}

impl WorkdaysRequest {
    /// The accumulated optional parameters.
    pub closed spec fn query(&self) -> Query {
        self.query
    }

    /// The country asked about.
    pub closed spec fn country_view(&self) -> Seq<char> {
        self.country@
    }

    /// The first date of the span.
    pub closed spec fn start_view(&self) -> Seq<char> {
        self.start@
    }

    /// The last date of the span.
    pub closed spec fn end_view(&self) -> Seq<char> {
        self.end@
    }

    /// Everything the request carries besides the key.
    pub open spec fn params_view(&self) -> ParamSeq {
        workdays_required(self.country_view(), self.start_view(), self.end_view())
            + self.query().params_view()
    }

    /// The address the request goes to.
    pub open spec fn url_view(&self) -> Seq<char> {
        request_url(
            self.query().base_view(),
            "workdays"@,
            self.query().key_view(),
            self.params_view(),
        )
    }

    /// A request for `country` from `start` to `end` with no optional parameters.
    pub fn new(base_url: &str, key: &str, country: &str, start: &str, end: &str) -> (r:
        WorkdaysRequest)
        ensures
            r.query().base_view() == base_url@,
            r.query().key_view() == key@,
            r.query().params_view().len() == 0,
            r.country_view() == country@,
            r.start_view() == start@,
            r.end_view() == end@,
    {
        WorkdaysRequest {
            query: Query::new(base_url, key),
            country: country.to_owned(),
            start: start.to_owned(),
            end: end.to_owned(),
        }
    }

    /// The address the request goes to.
    pub fn url(&self) -> (r: String)
        ensures
            r@ == self.url_view(),
    {
        let mut required: Vec<(String, String)> = Vec::new();
        required.push((String::from_str("country"), self.country.clone()));
        required.push((String::from_str("start"), self.start.clone()));
        required.push((String::from_str("end"), self.end.clone()));
        assert(required.deep_view() =~= workdays_required(self.country@, self.start@, self.end@));
        self.query.url("workdays", &required)
    }
}

} // verus!
