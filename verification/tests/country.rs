use ipstatus::country::{country_from_response, CountryInfo, IpApiResponse};

fn answer(status: &str, code: Option<&str>, country: Option<&str>) -> IpApiResponse {
    IpApiResponse {
        country_code: code.map(String::from),
        country: country.map(String::from),
        status: String::from(status),
    }
}

#[test]
fn a_successful_answer_names_its_country() {
    let found = country_from_response(answer("success", Some("FR"), Some("France")));
    assert_eq!(
        found,
        Some(CountryInfo {
            code: String::from("FR"),
            name: String::from("France"),
            flag_emoji: String::from("🇫🇷"),
        })
    );
}

#[test]
fn a_missing_name_reads_as_unknown() {
    let found = country_from_response(answer("success", Some("FR"), None)).unwrap();
    assert_eq!(found.code, "FR");
    assert_eq!(found.name, "Unknown");
    assert_eq!(found.flag_emoji, "🇫🇷");
}

#[test]
fn a_missing_code_reads_as_earth() {
    let found = country_from_response(answer("success", None, Some("France"))).unwrap();
    assert_eq!(found.code, "EARTH");
    assert_eq!(found.name, "France");
    assert_eq!(found.flag_emoji, "🌍");

    let bare = country_from_response(answer("success", None, None)).unwrap();
    assert_eq!(bare, CountryInfo::unknown());
}

#[test]
fn an_unlisted_code_is_kept_under_the_globe() {
    let found = country_from_response(answer("success", Some("LU"), Some("Luxembourg"))).unwrap();
    assert_eq!(found.code, "LU");
    assert_eq!(found.name, "Luxembourg");
    assert_eq!(found.flag_emoji, "🌍");
}

#[test]
fn an_answer_without_success_names_nothing() {
    assert_eq!(country_from_response(answer("fail", Some("FR"), Some("France"))), None);
    assert_eq!(country_from_response(answer("fail", None, None)), None);
    assert_eq!(country_from_response(answer("", Some("FR"), Some("France"))), None);
    assert_eq!(country_from_response(answer("Success", Some("FR"), Some("France"))), None);
    assert_eq!(country_from_response(answer("success ", Some("FR"), Some("France"))), None);
}

#[test]
fn the_unknown_country_is_earth_under_the_globe() {
    let unknown = CountryInfo::unknown();
    assert_eq!(unknown.code, "EARTH");
    assert_eq!(unknown.name, "Unknown");
    assert_eq!(unknown.flag_emoji, "🌍");
}

#[test]
fn a_new_country_gets_the_glyph_of_its_code() {
    let japan = CountryInfo::new(String::from("JP"), String::from("Japan"));
    assert_eq!(japan.code, "JP");
    assert_eq!(japan.name, "Japan");
    assert_eq!(japan.flag_emoji, "🇯🇵");

    let nowhere = CountryInfo::new(String::from("jp"), String::from("Japan"));
    assert_eq!(nowhere.code, "jp");
    assert_eq!(nowhere.flag_emoji, "🌍");
}

#[test]
fn a_clone_equals_what_it_was_made_from() {
    let japan = CountryInfo::new(String::from("JP"), String::from("Japan"));
    assert_eq!(japan.clone(), japan);
    let fields = answer("success", Some("JP"), None);
    assert_eq!(fields.clone(), fields);
}
