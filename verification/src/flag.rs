use vstd::prelude::*;
use crate::text::same_text;

verus! {

/// The glyph of a code that has no flag of its own: the globe.
pub open spec fn globe() -> Seq<char> {
    "🌍"@
}

/// Whether `code` is one of the country codes that have a flag of their own.
/// The match is exact: two capital letters, nothing trimmed or folded.
pub open spec fn is_listed(code: Seq<char>) -> bool {
    ||| code == "US"@
    ||| code == "CN"@
    ||| code == "JP"@
    ||| code == "DE"@
    ||| code == "GB"@
    ||| code == "FR"@
    ||| code == "CA"@
    ||| code == "AU"@
    ||| code == "KR"@
    ||| code == "BR"@
    ||| code == "IN"@
    ||| code == "RU"@
    ||| code == "IT"@
    ||| code == "ES"@
    ||| code == "NL"@
    ||| code == "SE"@
    ||| code == "NO"@
    ||| code == "FI"@
    ||| code == "DK"@
    ||| code == "CH"@
    ||| code == "AT"@
    ||| code == "BE"@
    ||| code == "PL"@
    ||| code == "CZ"@
    ||| code == "HU"@
    ||| code == "PT"@
    ||| code == "GR"@
    ||| code == "TR"@
    ||| code == "IL"@
    ||| code == "AE"@
    ||| code == "SA"@
    ||| code == "EG"@
    ||| code == "ZA"@
    ||| code == "NG"@
    ||| code == "KE"@
    ||| code == "MX"@
    ||| code == "AR"@
    ||| code == "CL"@
    ||| code == "CO"@
    ||| code == "PE"@
    ||| code == "VE"@
    ||| code == "TH"@
    ||| code == "VN"@
    ||| code == "MY"@
    ||| code == "SG"@
    ||| code == "ID"@
    ||| code == "PH"@
    ||| code == "NZ"@
    ||| code == "TW"@
    ||| code == "HK"@
}

/// A capital letter of the basic Latin alphabet.
pub open spec fn is_capital(letter: char) -> bool {
    'A' <= letter <= 'Z'
}

/// The regional indicator symbol that stands for a capital letter: the
/// symbols run from U+1F1E6 for `A` to U+1F1FF for `Z`.
pub open spec fn regional_indicator(letter: char) -> char
    recommends
        is_capital(letter),
{
    (0x1F1E6 + (letter as u32 - 'A' as u32)) as char
}

/// The flag that a two-letter code spells: the regional indicators of its
/// first and of its second letter.
pub open spec fn national_flag(code: Seq<char>) -> Seq<char>
    recommends
        code.len() == 2,
        is_capital(code[0]),
        is_capital(code[1]),
{
    seq![regional_indicator(code[0]), regional_indicator(code[1])]
}

/// The glyph of any text taken as a country code: the national flag of a
/// listed code, the globe for everything else.
pub open spec fn flag_of(code: Seq<char>) -> Seq<char> {
    if is_listed(code) {
        national_flag(code)
    } else {
        globe()
    }
}

/// The glyph for `country_code`. Total: a text that is no listed code, the
/// empty text and a code in lower case among them, gets the globe.
pub fn get_flag_emoji(country_code: &str) -> (flag: String)
    ensures
        flag@ == flag_of(country_code@),
{
    proof {
        lemma_flag_table();
    }
    let glyph: &str = if same_text(country_code, "US") {
        "🇺🇸"
    } else if same_text(country_code, "CN") {
        "🇨🇳"
    } else if same_text(country_code, "JP") {
        "🇯🇵"
    } else if same_text(country_code, "DE") {
        "🇩🇪"
    } else if same_text(country_code, "GB") {
        "🇬🇧"
    } else if same_text(country_code, "FR") {
        "🇫🇷"
    } else if same_text(country_code, "CA") {
        "🇨🇦"
    } else if same_text(country_code, "AU") {
        "🇦🇺"
    } else if same_text(country_code, "KR") {
        "🇰🇷"
    } else if same_text(country_code, "BR") {
        "🇧🇷"
    } else if same_text(country_code, "IN") {
        "🇮🇳"
    } else if same_text(country_code, "RU") {
        "🇷🇺"
    } else if same_text(country_code, "IT") {
        "🇮🇹"
    } else if same_text(country_code, "ES") {
        "🇪🇸"
    } else if same_text(country_code, "NL") {
        "🇳🇱"
    } else if same_text(country_code, "SE") {
        "🇸🇪"
    } else if same_text(country_code, "NO") {
        "🇳🇴"
    } else if same_text(country_code, "FI") {
        "🇫🇮"
    } else if same_text(country_code, "DK") {
        "🇩🇰"
    } else if same_text(country_code, "CH") {
        "🇨🇭"
    } else if same_text(country_code, "AT") {
        "🇦🇹"
    } else if same_text(country_code, "BE") {
        "🇧🇪"
    } else if same_text(country_code, "PL") {
        "🇵🇱"
    } else if same_text(country_code, "CZ") {
        "🇨🇿"
    } else if same_text(country_code, "HU") {
        "🇭🇺"
    } else if same_text(country_code, "PT") {
        "🇵🇹"
    } else if same_text(country_code, "GR") {
        "🇬🇷"
    } else if same_text(country_code, "TR") {
        "🇹🇷"
    } else if same_text(country_code, "IL") {
        "🇮🇱"
    } else if same_text(country_code, "AE") {
        "🇦🇪"
    } else if same_text(country_code, "SA") {
        "🇸🇦"
    } else if same_text(country_code, "EG") {
        "🇪🇬"
    } else if same_text(country_code, "ZA") {
        "🇿🇦"
    } else if same_text(country_code, "NG") {
        "🇳🇬"
    } else if same_text(country_code, "KE") {
        "🇰🇪"
    } else if same_text(country_code, "MX") {
        "🇲🇽"
    } else if same_text(country_code, "AR") {
        "🇦🇷"
    } else if same_text(country_code, "CL") {
        "🇨🇱"
    } else if same_text(country_code, "CO") {
        "🇨🇴"
    } else if same_text(country_code, "PE") {
        "🇵🇪"
    } else if same_text(country_code, "VE") {
        "🇻🇪"
    } else if same_text(country_code, "TH") {
        "🇹🇭"
    } else if same_text(country_code, "VN") {
        "🇻🇳"
    } else if same_text(country_code, "MY") {
        "🇲🇾"
    } else if same_text(country_code, "SG") {
        "🇸🇬"
    } else if same_text(country_code, "ID") {
        "🇮🇩"
    } else if same_text(country_code, "PH") {
        "🇵🇭"
    } else if same_text(country_code, "NZ") {
        "🇳🇿"
    } else if same_text(country_code, "TW") {
        "🇹🇼"
    } else if same_text(country_code, "HK") {
        "🇭🇰"
    } else {
        "🌍"
    };
    String::from_str(glyph)
}

/// The table, entry by entry: each listed code with the flag it gets.
pub proof fn lemma_flag_table()
    ensures
        flag_of("US"@) == "🇺🇸"@,
        flag_of("CN"@) == "🇨🇳"@,
        flag_of("JP"@) == "🇯🇵"@,
        flag_of("DE"@) == "🇩🇪"@,
        flag_of("GB"@) == "🇬🇧"@,
        flag_of("FR"@) == "🇫🇷"@,
        flag_of("CA"@) == "🇨🇦"@,
        flag_of("AU"@) == "🇦🇺"@,
        flag_of("KR"@) == "🇰🇷"@,
        flag_of("BR"@) == "🇧🇷"@,
        flag_of("IN"@) == "🇮🇳"@,
        flag_of("RU"@) == "🇷🇺"@,
        flag_of("IT"@) == "🇮🇹"@,
        flag_of("ES"@) == "🇪🇸"@,
        flag_of("NL"@) == "🇳🇱"@,
        flag_of("SE"@) == "🇸🇪"@,
        flag_of("NO"@) == "🇳🇴"@,
        flag_of("FI"@) == "🇫🇮"@,
        flag_of("DK"@) == "🇩🇰"@,
        flag_of("CH"@) == "🇨🇭"@,
        flag_of("AT"@) == "🇦🇹"@,
        flag_of("BE"@) == "🇧🇪"@,
        flag_of("PL"@) == "🇵🇱"@,
        flag_of("CZ"@) == "🇨🇿"@,
        flag_of("HU"@) == "🇭🇺"@,
        flag_of("PT"@) == "🇵🇹"@,
        flag_of("GR"@) == "🇬🇷"@,
        flag_of("TR"@) == "🇹🇷"@,
        flag_of("IL"@) == "🇮🇱"@,
        flag_of("AE"@) == "🇦🇪"@,
        flag_of("SA"@) == "🇸🇦"@,
        flag_of("EG"@) == "🇪🇬"@,
        flag_of("ZA"@) == "🇿🇦"@,
        flag_of("NG"@) == "🇳🇬"@,
        flag_of("KE"@) == "🇰🇪"@,
        flag_of("MX"@) == "🇲🇽"@,
        flag_of("AR"@) == "🇦🇷"@,
        flag_of("CL"@) == "🇨🇱"@,
        flag_of("CO"@) == "🇨🇴"@,
        flag_of("PE"@) == "🇵🇪"@,
        flag_of("VE"@) == "🇻🇪"@,
        flag_of("TH"@) == "🇹🇭"@,
        flag_of("VN"@) == "🇻🇳"@,
        flag_of("MY"@) == "🇲🇾"@,
        flag_of("SG"@) == "🇸🇬"@,
        flag_of("ID"@) == "🇮🇩"@,
        flag_of("PH"@) == "🇵🇭"@,
        flag_of("NZ"@) == "🇳🇿"@,
        flag_of("TW"@) == "🇹🇼"@,
        flag_of("HK"@) == "🇭🇰"@,
{
    lemma_codes();
    lemma_glyphs();
}

/// Every listed code is two capital letters.
pub proof fn lemma_listed_is_capital_pair(code: Seq<char>)
    requires
        is_listed(code),
    ensures
        code.len() == 2,
        is_capital(code[0]),
        is_capital(code[1]),
{
    lemma_codes();
}

/// A text that is not a listed code gets the globe, and so does the globe
/// itself: asking for the glyph of that glyph changes nothing.
pub proof fn lemma_unlisted_gets_globe(code: Seq<char>)
    requires
        !is_listed(code),
    ensures
        flag_of(code) == globe(),
        flag_of(flag_of(code)) == flag_of(code),
{
    lemma_glyphs();
    if is_listed(globe()) {
        lemma_listed_is_capital_pair(globe());
    }
}

/// A text that is not two capital letters gets the globe: the empty text, a
/// longer word, a code in lower case.
pub proof fn lemma_malformed_gets_globe(code: Seq<char>)
    requires
        code.len() != 2 || !is_capital(code[0]) || !is_capital(code[1]),
    ensures
        flag_of(code) == globe(),
{
    if is_listed(code) {
        lemma_listed_is_capital_pair(code);
    }
}

/// A listed code gets the flag that its two letters spell. That flag is not
/// the globe, and no other text gets it.
pub proof fn lemma_listed_gets_own_flag(code: Seq<char>, other: Seq<char>)
    requires
        is_listed(code),
    ensures
        flag_of(code) == national_flag(code),
        flag_of(code) != globe(),
        other != code ==> flag_of(other) != flag_of(code),
{
    lemma_glyphs();
    lemma_listed_is_capital_pair(code);
    if is_listed(other) && flag_of(other) == flag_of(code) {
        lemma_listed_is_capital_pair(other);
        assert(other =~= code);
    }
}

/// What the code literals of the table hold.
proof fn lemma_codes()
    ensures
        "US"@ == seq!['U', 'S'],
        "CN"@ == seq!['C', 'N'],
        "JP"@ == seq!['J', 'P'],
        "DE"@ == seq!['D', 'E'],
        "GB"@ == seq!['G', 'B'],
        "FR"@ == seq!['F', 'R'],
        "CA"@ == seq!['C', 'A'],
        "AU"@ == seq!['A', 'U'],
        "KR"@ == seq!['K', 'R'],
        "BR"@ == seq!['B', 'R'],
        "IN"@ == seq!['I', 'N'],
        "RU"@ == seq!['R', 'U'],
        "IT"@ == seq!['I', 'T'],
        "ES"@ == seq!['E', 'S'],
        "NL"@ == seq!['N', 'L'],
        "SE"@ == seq!['S', 'E'],
        "NO"@ == seq!['N', 'O'],
        "FI"@ == seq!['F', 'I'],
        "DK"@ == seq!['D', 'K'],
        "CH"@ == seq!['C', 'H'],
        "AT"@ == seq!['A', 'T'],
        "BE"@ == seq!['B', 'E'],
        "PL"@ == seq!['P', 'L'],
        "CZ"@ == seq!['C', 'Z'],
        "HU"@ == seq!['H', 'U'],
        "PT"@ == seq!['P', 'T'],
        "GR"@ == seq!['G', 'R'],
        "TR"@ == seq!['T', 'R'],
        "IL"@ == seq!['I', 'L'],
        "AE"@ == seq!['A', 'E'],
        "SA"@ == seq!['S', 'A'],
        "EG"@ == seq!['E', 'G'],
        "ZA"@ == seq!['Z', 'A'],
        "NG"@ == seq!['N', 'G'],
        "KE"@ == seq!['K', 'E'],
        "MX"@ == seq!['M', 'X'],
        "AR"@ == seq!['A', 'R'],
        "CL"@ == seq!['C', 'L'],
        "CO"@ == seq!['C', 'O'],
        "PE"@ == seq!['P', 'E'],
        "VE"@ == seq!['V', 'E'],
        "TH"@ == seq!['T', 'H'],
        "VN"@ == seq!['V', 'N'],
        "MY"@ == seq!['M', 'Y'],
        "SG"@ == seq!['S', 'G'],
        "ID"@ == seq!['I', 'D'],
        "PH"@ == seq!['P', 'H'],
        "NZ"@ == seq!['N', 'Z'],
        "TW"@ == seq!['T', 'W'],
        "HK"@ == seq!['H', 'K'],
{
    reveal_strlit("US");
    reveal_strlit("CN");
    reveal_strlit("JP");
    reveal_strlit("DE");
    reveal_strlit("GB");
    reveal_strlit("FR");
    reveal_strlit("CA");
    reveal_strlit("AU");
    reveal_strlit("KR");
    reveal_strlit("BR");
    reveal_strlit("IN");
    reveal_strlit("RU");
    reveal_strlit("IT");
    reveal_strlit("ES");
    reveal_strlit("NL");
    reveal_strlit("SE");
    reveal_strlit("NO");
    reveal_strlit("FI");
    reveal_strlit("DK");
    reveal_strlit("CH");
    reveal_strlit("AT");
    reveal_strlit("BE");
    reveal_strlit("PL");
    reveal_strlit("CZ");
    reveal_strlit("HU");
    reveal_strlit("PT");
    reveal_strlit("GR");
    reveal_strlit("TR");
    reveal_strlit("IL");
    reveal_strlit("AE");
    reveal_strlit("SA");
    reveal_strlit("EG");
    reveal_strlit("ZA");
    reveal_strlit("NG");
    reveal_strlit("KE");
    reveal_strlit("MX");
    reveal_strlit("AR");
    reveal_strlit("CL");
    reveal_strlit("CO");
    reveal_strlit("PE");
    reveal_strlit("VE");
    reveal_strlit("TH");
    reveal_strlit("VN");
    reveal_strlit("MY");
    reveal_strlit("SG");
    reveal_strlit("ID");
    reveal_strlit("PH");
    reveal_strlit("NZ");
    reveal_strlit("TW");
    reveal_strlit("HK");
}

/// What the glyph literals of the table hold.
proof fn lemma_glyphs()
    ensures
        "🇺🇸"@ == national_flag(seq!['U', 'S']),
        "🇨🇳"@ == national_flag(seq!['C', 'N']),
        "🇯🇵"@ == national_flag(seq!['J', 'P']),
        "🇩🇪"@ == national_flag(seq!['D', 'E']),
        "🇬🇧"@ == national_flag(seq!['G', 'B']),
        "🇫🇷"@ == national_flag(seq!['F', 'R']),
        "🇨🇦"@ == national_flag(seq!['C', 'A']),
        "🇦🇺"@ == national_flag(seq!['A', 'U']),
        "🇰🇷"@ == national_flag(seq!['K', 'R']),
        "🇧🇷"@ == national_flag(seq!['B', 'R']),
        "🇮🇳"@ == national_flag(seq!['I', 'N']),
        "🇷🇺"@ == national_flag(seq!['R', 'U']),
        "🇮🇹"@ == national_flag(seq!['I', 'T']),
        "🇪🇸"@ == national_flag(seq!['E', 'S']),
        "🇳🇱"@ == national_flag(seq!['N', 'L']),
        "🇸🇪"@ == national_flag(seq!['S', 'E']),
        "🇳🇴"@ == national_flag(seq!['N', 'O']),
        "🇫🇮"@ == national_flag(seq!['F', 'I']),
        "🇩🇰"@ == national_flag(seq!['D', 'K']),
        "🇨🇭"@ == national_flag(seq!['C', 'H']),
        "🇦🇹"@ == national_flag(seq!['A', 'T']),
        "🇧🇪"@ == national_flag(seq!['B', 'E']),
        "🇵🇱"@ == national_flag(seq!['P', 'L']),
        "🇨🇿"@ == national_flag(seq!['C', 'Z']),
        "🇭🇺"@ == national_flag(seq!['H', 'U']),
        "🇵🇹"@ == national_flag(seq!['P', 'T']),
        "🇬🇷"@ == national_flag(seq!['G', 'R']),
        "🇹🇷"@ == national_flag(seq!['T', 'R']),
        "🇮🇱"@ == national_flag(seq!['I', 'L']),
        "🇦🇪"@ == national_flag(seq!['A', 'E']),
        "🇸🇦"@ == national_flag(seq!['S', 'A']),
        "🇪🇬"@ == national_flag(seq!['E', 'G']),
        "🇿🇦"@ == national_flag(seq!['Z', 'A']),
        "🇳🇬"@ == national_flag(seq!['N', 'G']),
        "🇰🇪"@ == national_flag(seq!['K', 'E']),
        "🇲🇽"@ == national_flag(seq!['M', 'X']),
        "🇦🇷"@ == national_flag(seq!['A', 'R']),
        "🇨🇱"@ == national_flag(seq!['C', 'L']),
        "🇨🇴"@ == national_flag(seq!['C', 'O']),
        "🇵🇪"@ == national_flag(seq!['P', 'E']),
        "🇻🇪"@ == national_flag(seq!['V', 'E']),
        "🇹🇭"@ == national_flag(seq!['T', 'H']),
        "🇻🇳"@ == national_flag(seq!['V', 'N']),
        "🇲🇾"@ == national_flag(seq!['M', 'Y']),
        "🇸🇬"@ == national_flag(seq!['S', 'G']),
        "🇮🇩"@ == national_flag(seq!['I', 'D']),
        "🇵🇭"@ == national_flag(seq!['P', 'H']),
        "🇳🇿"@ == national_flag(seq!['N', 'Z']),
        "🇹🇼"@ == national_flag(seq!['T', 'W']),
        "🇭🇰"@ == national_flag(seq!['H', 'K']),
        "🌍"@ == seq!['🌍'],
{
    reveal_strlit("🇺🇸");
    reveal_strlit("🇨🇳");
    reveal_strlit("🇯🇵");
    reveal_strlit("🇩🇪");
    reveal_strlit("🇬🇧");
    reveal_strlit("🇫🇷");
    reveal_strlit("🇨🇦");
    reveal_strlit("🇦🇺");
    reveal_strlit("🇰🇷");
    reveal_strlit("🇧🇷");
    reveal_strlit("🇮🇳");
    reveal_strlit("🇷🇺");
    reveal_strlit("🇮🇹");
    reveal_strlit("🇪🇸");
    reveal_strlit("🇳🇱");
    reveal_strlit("🇸🇪");
    reveal_strlit("🇳🇴");
    reveal_strlit("🇫🇮");
    reveal_strlit("🇩🇰");
    reveal_strlit("🇨🇭");
    reveal_strlit("🇦🇹");
    reveal_strlit("🇧🇪");
    reveal_strlit("🇵🇱");
    reveal_strlit("🇨🇿");
    reveal_strlit("🇭🇺");
    reveal_strlit("🇵🇹");
    reveal_strlit("🇬🇷");
    reveal_strlit("🇹🇷");
    reveal_strlit("🇮🇱");
    reveal_strlit("🇦🇪");
    reveal_strlit("🇸🇦");
    reveal_strlit("🇪🇬");
    reveal_strlit("🇿🇦");
    reveal_strlit("🇳🇬");
    reveal_strlit("🇰🇪");
    reveal_strlit("🇲🇽");
    reveal_strlit("🇦🇷");
    reveal_strlit("🇨🇱");
    reveal_strlit("🇨🇴");
    reveal_strlit("🇵🇪");
    reveal_strlit("🇻🇪");
    reveal_strlit("🇹🇭");
    reveal_strlit("🇻🇳");
    reveal_strlit("🇲🇾");
    reveal_strlit("🇸🇬");
    reveal_strlit("🇮🇩");
    reveal_strlit("🇵🇭");
    reveal_strlit("🇳🇿");
    reveal_strlit("🇹🇼");
    reveal_strlit("🇭🇰");
    reveal_strlit("🌍");
}

} // verus!
