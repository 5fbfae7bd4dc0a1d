use ipstatus::flag::get_flag_emoji;

const TABLE: [(&str, &str); 50] = [
    ("US", "🇺🇸"),
    ("CN", "🇨🇳"),
    ("JP", "🇯🇵"),
    ("DE", "🇩🇪"),
    ("GB", "🇬🇧"),
    ("FR", "🇫🇷"),
    ("CA", "🇨🇦"),
    ("AU", "🇦🇺"),
    ("KR", "🇰🇷"),
    ("BR", "🇧🇷"),
    ("IN", "🇮🇳"),
    ("RU", "🇷🇺"),
    ("IT", "🇮🇹"),
    ("ES", "🇪🇸"),
    ("NL", "🇳🇱"),
    ("SE", "🇸🇪"),
    ("NO", "🇳🇴"),
    ("FI", "🇫🇮"),
    ("DK", "🇩🇰"),
    ("CH", "🇨🇭"),
    ("AT", "🇦🇹"),
    ("BE", "🇧🇪"),
    ("PL", "🇵🇱"),
    ("CZ", "🇨🇿"),
    ("HU", "🇭🇺"),
    ("PT", "🇵🇹"),
    ("GR", "🇬🇷"),
    ("TR", "🇹🇷"),
    ("IL", "🇮🇱"),
    ("AE", "🇦🇪"),
    ("SA", "🇸🇦"),
    ("EG", "🇪🇬"),
    ("ZA", "🇿🇦"),
    ("NG", "🇳🇬"),
    ("KE", "🇰🇪"),
    ("MX", "🇲🇽"),
    ("AR", "🇦🇷"),
    ("CL", "🇨🇱"),
    ("CO", "🇨🇴"),
    ("PE", "🇵🇪"),
    ("VE", "🇻🇪"),
    ("TH", "🇹🇭"),
    ("VN", "🇻🇳"),
    ("MY", "🇲🇾"),
    ("SG", "🇸🇬"),
    ("ID", "🇮🇩"),
    ("PH", "🇵🇭"),
    ("NZ", "🇳🇿"),
    ("TW", "🇹🇼"),
    ("HK", "🇭🇰"),
];

#[test]
fn every_listed_code_gets_its_flag() {
    for (code, flag) in TABLE {
        assert_eq!(get_flag_emoji(code), flag, "code {code}");
    }
}

#[test]
fn a_flag_is_the_regional_indicators_of_the_two_letters() {
    for (code, _) in TABLE {
        let spelled: String = code
            .chars()
            .map(|letter| char::from_u32(0x1F1E6 + (letter as u32 - 'A' as u32)).unwrap())
            .collect();
        assert_eq!(get_flag_emoji(code), spelled, "code {code}");
    }
    let france: Vec<u32> = get_flag_emoji("FR").chars().map(|c| c as u32).collect();
    assert_eq!(france, vec![0x1F1EB, 0x1F1F7]);
}

#[test]
fn no_two_codes_share_a_flag_and_none_gets_the_globe() {
    for (i, (first, _)) in TABLE.iter().enumerate() {
        assert_ne!(get_flag_emoji(first), "🌍", "code {first}");
        for (second, _) in TABLE.iter().skip(i + 1) {
            assert_ne!(get_flag_emoji(first), get_flag_emoji(second), "{first} and {second}");
        }
    }
}

#[test]
fn the_empty_code_gets_the_globe() {
    assert_eq!(get_flag_emoji(""), "🌍");
}

#[test]
fn a_code_in_lower_case_gets_the_globe() {
    assert_eq!(get_flag_emoji("us"), "🌍");
    assert_eq!(get_flag_emoji("fr"), "🌍");
    assert_eq!(get_flag_emoji("Us"), "🌍");
    assert_eq!(get_flag_emoji("uS"), "🌍");
}

#[test]
fn the_sentinel_code_gets_the_globe() {
    assert_eq!(get_flag_emoji("EARTH"), "🌍");
}

#[test]
fn an_unlisted_pair_of_capitals_gets_the_globe() {
    assert_eq!(get_flag_emoji("XX"), "🌍");
    assert_eq!(get_flag_emoji("ZZ"), "🌍");
    assert_eq!(get_flag_emoji("UA"), "🌍");
    assert_eq!(get_flag_emoji("SU"), "🌍");
}

#[test]
fn nothing_is_trimmed_or_matched_in_part() {
    assert_eq!(get_flag_emoji("USA"), "🌍");
    assert_eq!(get_flag_emoji("U"), "🌍");
    assert_eq!(get_flag_emoji(" US"), "🌍");
    assert_eq!(get_flag_emoji("US "), "🌍");
    assert_eq!(get_flag_emoji("US\n"), "🌍");
    assert_eq!(get_flag_emoji("ＵＳ"), "🌍");
}

#[test]
fn a_glyph_taken_as_a_code_gets_the_globe() {
    assert_eq!(get_flag_emoji("🇺🇸"), "🌍");
    assert_eq!(get_flag_emoji("🌍"), "🌍");
    let once = get_flag_emoji("nowhere");
    assert_eq!(get_flag_emoji(&once), once);
}

#[test]
fn the_same_code_gets_the_same_glyph_again() {
    assert_eq!(get_flag_emoji("JP"), get_flag_emoji("JP"));
    assert_eq!(get_flag_emoji("??"), get_flag_emoji("??"));
}

#[test]
fn the_crate_root_offers_the_same_lookup() {
    assert_eq!(ipstatus::get_flag_emoji("BR"), "🇧🇷");
    assert_eq!(ipstatus::get_flag_emoji("br"), "🌍");
}
