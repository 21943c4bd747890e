use vstd::prelude::*;

use crate::error::HolidayAPIError;
use crate::request::{
    CountriesRequest, HolidaysRequest, LanguagesRequest, WorkdayRequest, WorkdaysRequest,
};
use crate::query::{request_url, Query};
use crate::text::{ascii_lowercase, contains_text, is_ascii_lowered, decimal, decimal_text, digits_of};
use crate::validate::{
    is_supported_version, is_uuid_shape, join_versions, regex_matches, supported_version_seq,
    supported_versions, version_message, UUID_PATTERN,
};

verus! {

/// The version a client speaks when none is named.
pub const DEFAULT_VERSION: i32 = 1;

/// The base address of the service for an API version.
pub open spec fn base_url_for(version: i32) -> Seq<char> {
    "https://holidayapi.com/v"@ + decimal_text(version as int) + "/"@
}

/// A client of the service: its base address and the credential it sends.
#[derive(Debug, Clone)]
pub struct HolidayAPI {
    base_url: String,
    key: String,
}

impl HolidayAPI {
    /// The base address requests go to.
    pub closed spec fn base_url_view(&self) -> Seq<char> {
        self.base_url@
    }

    /// The credential sent with every request.
    pub closed spec fn key_view(&self) -> Seq<char> {
        self.key@
    }

    /// The client was built for a supported version and a key of credential shape.
    pub open spec fn wf(&self) -> bool {
        &&& is_uuid_shape(self.key_view())
        &&& exists|v: i32| is_supported_version(v) && self.base_url_view() == base_url_for(v)
    }

    /// Accepts exactly the keys of credential shape.
    pub fn is_valid_key(key: &str) -> (r: Result<(), HolidayAPIError>)
        ensures
            r is Ok <==> is_uuid_shape(key@),
            r matches Err(e) ==> e matches HolidayAPIError::InvalidKeyFormat(k) && k@ == key@,
    {
        if regex_matches(UUID_PATTERN, key) {
            Ok(())
        } else {
            Err(HolidayAPIError::InvalidKeyFormat(key.to_owned()))
        }
    }

    /// Accepts exactly the supported versions.
    pub fn is_valid_version(version: &i32) -> (r: Result<(), HolidayAPIError>)
        ensures
            r is Ok <==> is_supported_version(*version),
            r matches Err(e) ==> e matches HolidayAPIError::InvalidVersion(m) && m@ == version_message(
                *version,
            ),
    {
        let valid = supported_versions();
        let mut i: usize = 0;
        while i < valid.len()
            invariant
                valid@ == supported_version_seq(),
                i <= valid@.len(),
                forall|j: int| 0 <= j < i ==> valid@[j] != *version,
            decreases valid.len() - i,
        {
            if valid[i] == *version {
                return Ok(());
            }
            i = i + 1;
        }
        let mut m = String::from_str("Invalid version: ");
        let d = decimal(*version);
        m.append(d.as_str());
        m.append(", please choose: [");
        let list = join_versions(&valid);
        m.append(list.as_str());
        m.append("]");
        Err(HolidayAPIError::InvalidVersion(m))
    }

    fn construct_api(key: &str, version: i32) -> (r: HolidayAPI)
        ensures
            r.base_url_view() == base_url_for(version),
            r.key_view() == key@,
    {
        let mut base_url = String::from_str("https://holidayapi.com/v");
        let v = decimal(version);
        base_url.append(v.as_str());
        base_url.append("/");
        HolidayAPI { base_url, key: key.to_owned() }
    }

    /// A client of the default version for `key`; fails exactly when the key
    /// is not of credential shape.
    pub fn new(key: &str) -> (r: Result<HolidayAPI, HolidayAPIError>)
        ensures
            r is Ok <==> is_uuid_shape(key@),
            r matches Ok(api) ==> api.wf() && api.key_view() == key@ && api.base_url_view()
                == base_url_for(DEFAULT_VERSION),
            r matches Ok(api) ==> contains_text(api.base_url_view(), "v1"@),
            r matches Err(e) ==> e matches HolidayAPIError::InvalidKeyFormat(k) && k@ == key@,
    {
        Self::is_valid_key(key)?;
        let api = Self::construct_api(key, DEFAULT_VERSION);
        proof {
            lemma_default_base_url_names_v1();
            assert(supported_version_seq()[0] == DEFAULT_VERSION);
            assert(is_supported_version(DEFAULT_VERSION));
        }
        Ok(api)
    }

    /// A client of `version` for `key`. The key is checked first: a key not
    /// of credential shape gives `InvalidKeyFormat` whatever the version; a
    /// good key with an unsupported version gives `InvalidVersion`.
    pub fn with_version(key: &str, version: i32) -> (r: Result<HolidayAPI, HolidayAPIError>)
        ensures
            r is Ok <==> is_uuid_shape(key@) && is_supported_version(version),
            r matches Ok(api) ==> api.wf() && api.key_view() == key@ && api.base_url_view()
                == base_url_for(version),
            !is_uuid_shape(key@) ==> (r matches Err(HolidayAPIError::InvalidKeyFormat(k)) && k@
                == key@),
            is_uuid_shape(key@) && !is_supported_version(version) ==> (r matches Err(
                HolidayAPIError::InvalidVersion(m),
            ) && m@ == version_message(version)),
    {
        Self::is_valid_key(key)?;
        Self::is_valid_version(&version)?;
        Ok(Self::construct_api(key, version))
    }

    /// The base address requests go to.
    pub fn base_url(&self) -> (r: &str)
        ensures
            r@ == self.base_url_view(),
    {
        self.base_url.as_str()
    }

    /// The credential sent with every request.
    pub fn key(&self) -> (r: &str)
        ensures
            r@ == self.key_view(),
    {
        self.key.as_str()
    }

    /// The address of a request on an endpoint the library does not model:
    /// the base address, the endpoint with its ASCII capitals lowered, the
    /// key, then `parameters` in order.
    pub fn custom_request_url(&self, endpoint: &str, parameters: &Vec<(String, String)>) -> (r:
        String)
        ensures
            exists|path: Seq<char>|
                is_ascii_lowered(endpoint@, path) && r@ == request_url(
                    self.base_url_view(),
                    path,
                    self.key_view(),
                    parameters.deep_view(),
                ),
    {
        let path = ascii_lowercase(endpoint);
        let q = Query::new(self.base_url.as_str(), self.key.as_str());
        let r = q.url(path.as_str(), parameters);
        assert(parameters.deep_view() + q.params_view() =~= parameters.deep_view());
        r
    }

    /// A `countries` request with no optional parameters.
    pub fn countries(&self) -> (r: CountriesRequest)
        ensures
            r.query().base_view() == self.base_url_view(),
            r.query().key_view() == self.key_view(),
            r.query().params_view().len() == 0,
    {
        CountriesRequest::new(self.base_url.as_str(), self.key.as_str())
    }

    /// A `holidays` request for `country` and `year`.
    pub fn holidays(&self, country: &str, year: i32) -> (r: HolidaysRequest)
        ensures
            r.query().base_view() == self.base_url_view(),
            r.query().key_view() == self.key_view(),
            r.query().params_view().len() == 0,
            r.country_view() == country@,
            r.year_view() == year,
    {
        HolidaysRequest::new(self.base_url.as_str(), self.key.as_str(), country, year)
    }

    /// A `workday` request: the working day `days` working days after `start`
    /// in `country`.
    pub fn workday(&self, country: &str, start: &str, days: i32) -> (r: WorkdayRequest)
        ensures
            r.query().base_view() == self.base_url_view(),
            r.query().key_view() == self.key_view(),
            r.query().params_view().len() == 0,
            r.country_view() == country@,
            r.start_view() == start@,
            r.days_view() == days,
    {
        WorkdayRequest::new(self.base_url.as_str(), self.key.as_str(), country, start, days)
    }

    /// A `workdays` request: the working days in `country` from `start` to
    /// `days`, the end date.
    pub fn workdays(&self, country: &str, start: &str, days: &str) -> (r: WorkdaysRequest)
        ensures
            r.query().base_view() == self.base_url_view(),
            r.query().key_view() == self.key_view(),
            r.query().params_view().len() == 0,
            r.country_view() == country@,
            r.start_view() == start@,
            r.end_view() == days@,
    {
        WorkdaysRequest::new(self.base_url.as_str(), self.key.as_str(), country, start, days)
    }

    /// A `languages` request with no optional parameters.
    pub fn languages(&self) -> (r: LanguagesRequest)
        ensures
            r.query().base_view() == self.base_url_view(),
            r.query().key_view() == self.key_view(),
            r.query().params_view().len() == 0,
    {
        LanguagesRequest::new(self.base_url.as_str(), self.key.as_str())
    }
}

/// The base address of the default version names `v1`.
pub proof fn lemma_default_base_url_names_v1()
    ensures
        contains_text(base_url_for(DEFAULT_VERSION), "v1"@),
{
    reveal_strlit("https://holidayapi.com/v");
    reveal_strlit("v1");
    reveal_strlit("/");
    assert(digits_of(1) == seq!['1']);
    let u = base_url_for(DEFAULT_VERSION);
    assert(u.len() == 26);
    assert(u.subrange(23, 23 + "v1"@.len() as int) =~= "v1"@);
}

} // verus!
