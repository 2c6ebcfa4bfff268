use vstd::prelude::*;
use vstd::string::*;
use crate::material_filter::{convert, filter_text, MaterialFilter, MaterialFilterView};
use crate::text::joined;

verus! {

/// Where the service lives.
pub const BASE_PATH: &'static str = "https://buildingtransparency.org/api/";

/// The jurisdiction that a request is narrowed to.
#[derive(Clone, Copy, Debug, PartialEq, Eq, Structural)]
pub enum Country {
    US,
    Germany,
    UK,
    Unspecified,
}

impl Country {
    pub open spec fn spec_code(&self) -> Seq<char> {
        match *self {
            Country::US => "US"@,
            Country::Germany => "DE"@,
            Country::UK => "UK"@,
            Country::Unspecified => ""@,
        }
    }

    /// The code that the service knows the jurisdiction by.
    pub fn code(&self) -> (s: &'static str)
        ensures
            s@ == self.spec_code(),
    {
        match self {
            Country::US => "US",
            Country::Germany => "DE",
            Country::UK => "UK",
            Country::Unspecified => "",
        }
    }
}

/// The list that a request asks for.
#[derive(Clone, Copy, Debug, PartialEq, Eq, Structural)]
pub enum Endpoint {
    Materials,
    Categories,
}

impl Endpoint {
    pub open spec fn spec_segment(&self) -> Seq<char> {
        match *self {
            Endpoint::Materials => "materials"@,
            Endpoint::Categories => "categories/root"@,
        }
    }

    /// The endpoint's part of the address.
    pub fn segment(&self) -> (s: &'static str)
        ensures
            s@ == self.spec_segment(),
    {
        match self {
            Endpoint::Materials => "materials",
            Endpoint::Categories => "categories/root",
        }
    }
}

/// A request to the service in the making.
#[derive(Debug)]
pub struct Ec3api {
    pub api_key: String,
    pub endpoint: Endpoint,
    pub country: Country,
    pub mf: Option<MaterialFilter>,
}

pub struct Ec3apiView {
    pub api_key: Seq<char>,
    pub endpoint: Endpoint,
    pub country: Country,
    pub mf: Option<MaterialFilterView>,
}

impl View for Ec3api {
    type V = Ec3apiView;

    open spec fn view(&self) -> Ec3apiView {
        Ec3apiView {
            api_key: self.api_key@,
            endpoint: self.endpoint,
            country: self.country,
            mf: match self.mf {
                Some(mf) => Some(mf@),
                None => None,
            },
        }
    }
}

/// The address of a request: the base, the endpoint and, where a country is
/// set, the jurisdiction as a query.
pub open spec fn url_of(endpoint: Endpoint, country: Country) -> Seq<char> {
    let jurisdiction = if country == Country::Unspecified {
        ""@
    } else {
        "?jurisdiction="@ + country.spec_code()
    };
    BASE_PATH@ + endpoint.spec_segment() + jurisdiction
}

impl Ec3api {
    /// What a new request holds: the materials of Germany, with no filter.
    pub open spec fn new_view(api_key: Seq<char>) -> Ec3apiView {
        Ec3apiView {
            api_key,
            endpoint: Endpoint::Materials,
            country: Country::Germany,
            mf: None,
        }
    }

    /// A request for the materials of Germany, with no filter.
    pub fn new(api_key: &str) -> (api: Ec3api)
        ensures
            api@ == Self::new_view(api_key@),
    {
        Ec3api {
            api_key: String::from_str(api_key),
            endpoint: Endpoint::Materials,
            country: Country::Germany,
            mf: None,
        }
    }

    /// Narrows the request to a jurisdiction.
    pub fn country(&mut self, country_code: Country) -> (api: &mut Self)
        ensures
            (*api)@ == (Ec3apiView { country: country_code, ..old(self)@ }),
            *final(self) == *final(api),
    {
        self.country = country_code;
        self
    }

    /// Sets the filter that the request carries.
    pub fn material_filter(&mut self, mf: MaterialFilter) -> (api: &mut Self)
        ensures
            (*api)@ == (Ec3apiView { mf: Some(mf@), ..old(self)@ }),
            *final(self) == *final(api),
    {
        self.mf = Some(mf);
        self
    }

    /// Sets the list that the request asks for.
    pub fn endpoint(&mut self, endpoint: Endpoint) -> (api: &mut Self)
        ensures
            (*api)@ == (Ec3apiView { endpoint, ..old(self)@ }),
            *final(self) == *final(api),
    {
        self.endpoint = endpoint;
        self
    }

    /// The address that the request goes to.
    pub fn prepare_url(&self) -> (url: String)
        ensures
            url@ == url_of(self@.endpoint, self@.country),
    {
        let mut url = joined(BASE_PATH, self.endpoint.segment());
        match self.country {
            Country::Unspecified => {
                assert(url@ + ""@ =~= url@) by {
                    reveal_strlit("");
                }
            },
            _ => {
                url.append("?jurisdiction=");
                url.append(self.country.code());
                assert(url@ =~= url_of(self@.endpoint, self@.country));
            },
        }
        url
    }

    /// The value of the `Authorization` header: the key as a bearer token.
    pub fn authorization(&self) -> (header: String)
        ensures
            header@ == "Bearer "@ + self@.api_key,
    {
        joined("Bearer ", self.api_key.as_str())
    }

    /// The filter in the service's query language, empty where none is set.
    pub fn filter_expression(&self) -> (expr: String)
        ensures
            expr@ == match self@.mf {
                Some(mf) => filter_text(mf),
                None => Seq::<char>::empty(),
            },
    {
        match &self.mf {
            Some(mf) => convert(mf),
            None => String::new(),
        }
    }

    /// The name under which the answer to the request is kept on disk: the
    /// filter's category, or `cache` where no filter is set.
    pub fn cache_name(&self) -> (name: String)
        ensures
            name@ == match self@.mf {
                Some(mf) => mf.category,
                None => "cache"@,
            },
    {
        match &self.mf {
            Some(mf) => mf.get_category(),
            None => String::from_str("cache"),
        }
    }
}

} // verus!
