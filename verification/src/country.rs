use vstd::prelude::*;
use crate::flag::{
    flag_of, get_flag_emoji, globe, is_listed, lemma_malformed_gets_globe, national_flag,
};
use crate::text::same_text;

verus! {

/// The fields of a lookup service's answer, as they were decoded: `status`
/// is always there, the two country fields may be missing.
#[derive(Debug, PartialEq, Eq)]
pub struct IpApiResponse {
    pub country_code: Option<String>,
    pub country: Option<String>,
    pub status: String,
}

/// An `IpApiResponse` as plain text.
pub struct IpApiResponseView {
    pub country_code: Option<Seq<char>>,
    pub country: Option<Seq<char>>,
    pub status: Seq<char>,
}

impl View for IpApiResponse {
    type V = IpApiResponseView;

    open spec fn view(&self) -> IpApiResponseView {
        IpApiResponseView {
            country_code: text_of(self.country_code),
            country: text_of(self.country),
            status: self.status@,
        }
    }
}

impl Clone for IpApiResponse {
    fn clone(&self) -> (copy: Self)
        ensures
            copy == *self,
    {
        IpApiResponse {
            country_code: clone_field(&self.country_code),
            country: clone_field(&self.country),
            status: self.status.clone(),
        }
    }
}

/// A copy of a field that may be missing.
fn clone_field(field: &Option<String>) -> (copy: Option<String>)
    ensures
        copy == *field,
{
    match field {
        Some(text) => Some(text.clone()),
        None => None,
    }
}

/// The text of a field that may be missing.
pub open spec fn text_of(field: Option<String>) -> Option<Seq<char>> {
    match field {
        Some(text) => Some(text@),
        None => None,
    }
}

/// A country as the tray shows it: its code, its name and its glyph.
#[derive(Debug, PartialEq, Eq)]
pub struct CountryInfo {
    pub code: String,
    pub name: String,
    pub flag_emoji: String,
}

/// A `CountryInfo` as plain text.
pub struct CountryInfoView {
    pub code: Seq<char>,
    pub name: Seq<char>,
    pub flag_emoji: Seq<char>,
}

impl View for CountryInfo {
    type V = CountryInfoView;

    open spec fn view(&self) -> CountryInfoView {
        CountryInfoView { code: self.code@, name: self.name@, flag_emoji: self.flag_emoji@ }
    }
}

impl Clone for CountryInfo {
    fn clone(&self) -> (copy: Self)
        ensures
            copy == *self,
    {
        CountryInfo {
            code: self.code.clone(),
            name: self.name.clone(),
            flag_emoji: self.flag_emoji.clone(),
        }
    }
}

impl CountryInfoView {
    /// The glyph is the one that belongs to the code.
    pub open spec fn well_formed(self) -> bool {
        self.flag_emoji == flag_of(self.code)
    }
}

/// The country with this code and name, under the glyph of the code.
pub open spec fn country_of(code: Seq<char>, name: Seq<char>) -> CountryInfoView {
    CountryInfoView { code, name, flag_emoji: flag_of(code) }
}

/// The country that stands for "not known": the code `EARTH`, the name
/// `Unknown`, the globe.
pub open spec fn unknown_country() -> CountryInfoView {
    CountryInfoView { code: "EARTH"@, name: "Unknown"@, flag_emoji: globe() }
}

/// Whether an answer reports success: its status is exactly `success`.
pub open spec fn reports_success(response: IpApiResponseView) -> bool {
    response.status == "success"@
}

/// The country that a successful answer names. A missing code reads as
/// `EARTH`, a missing name as `Unknown`.
pub open spec fn located(response: IpApiResponseView) -> CountryInfoView {
    country_of(
        match response.country_code {
            Some(code) => code,
            None => "EARTH"@,
        },
        match response.country {
            Some(name) => name,
            None => "Unknown"@,
        },
    )
}

impl CountryInfo {
    /// The country with this code and name. The glyph is looked up, so the
    /// result is well formed whatever the code holds.
    pub fn new(code: String, name: String) -> (info: CountryInfo)
        ensures
            info@ == country_of(code@, name@),
            info@.well_formed(),
    {
        let flag_emoji = get_flag_emoji(code.as_str());
        CountryInfo { code, name, flag_emoji }
    }

    /// The country that stands for "not known".
    pub fn unknown() -> (info: CountryInfo)
        ensures
            info@ == unknown_country(),
            info@.well_formed(),
    {
        proof {
            lemma_unknown_is_well_formed();
        }
        CountryInfo {
            code: String::from_str("EARTH"),
            name: String::from_str("Unknown"),
            flag_emoji: String::from_str("🌍"),
        }
    }
}

/// What a decoded answer says about the country: the country it names where
/// it reports success, nothing where it does not.
pub fn country_from_response(response: IpApiResponse) -> (found: Option<CountryInfo>)
    ensures
        found matches Some(info) ==> info@ == located(response@) && info@.well_formed(),
        found is Some <==> reports_success(response@),
{
    if same_text(response.status.as_str(), "success") {
        let code = match response.country_code {
            Some(code) => code,
            None => String::from_str("EARTH"),
        };
        let name = match response.country {
            Some(name) => name,
            None => String::from_str("Unknown"),
        };
        Some(CountryInfo::new(code, name))
    } else {
        None
    }
}

/// `EARTH` is no listed code, so the unknown country is the country that the
/// code `EARTH` and the name `Unknown` make, and its glyph is the globe.
pub proof fn lemma_unknown_is_well_formed()
    ensures
        unknown_country() == country_of("EARTH"@, "Unknown"@),
        unknown_country().well_formed(),
{
    reveal_strlit("EARTH");
    lemma_malformed_gets_globe("EARTH"@);
}

/// Every code has a glyph. Whatever the code and the name, the country made
/// of them is well formed, and its glyph is the national flag of a listed
/// code or the globe. So the country that an answer names is well formed,
/// whatever the answer holds.
pub proof fn lemma_every_country_has_a_glyph(code: Seq<char>, name: Seq<char>)
    ensures
        country_of(code, name).well_formed(),
        forall|response: IpApiResponseView| (#[trigger] located(response)).well_formed(),
        is_listed(code) ==> country_of(code, name).flag_emoji == national_flag(code),
        !is_listed(code) ==> country_of(code, name).flag_emoji == globe(),
{
}

} // verus!
