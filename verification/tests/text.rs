use ipstatus::text::{chars_of, has_text, same_text};

#[test]
fn chars_of_gives_the_characters_in_order() {
    assert_eq!(chars_of(""), Vec::<char>::new());
    assert_eq!(chars_of("US"), vec!['U', 'S']);
    assert_eq!(chars_of("🇫🇷"), vec!['\u{1F1EB}', '\u{1F1F7}']);
    assert_eq!(chars_of("a🌍b"), vec!['a', '🌍', 'b']);
}

#[test]
fn same_text_is_exact() {
    assert!(same_text("", ""));
    assert!(same_text("success", "success"));
    assert!(same_text("🇫🇷", "🇫🇷"));
    assert!(!same_text("success", "Success"));
    assert!(!same_text("success", "succes"));
    assert!(!same_text("succes", "success"));
    assert!(!same_text("", "a"));
    assert!(!same_text("a", ""));
    assert!(!same_text("🇫🇷", "🇫🇮"));
}

#[test]
fn has_text_finds_a_word_wherever_it_stands() {
    assert!(has_text("ip-api.com", "ip-api.com"));
    assert!(has_text("http://ip-api.com/json/", "ip-api.com"));
    assert!(has_text("ip-api.com/json", "ip-api.com"));
    assert!(has_text("http://ip-api.com", "ip-api.com"));
    assert!(has_text("aab", "ab"));
    assert!(has_text("x🌍y", "🌍y"));
}

#[test]
fn has_text_rejects_what_is_not_there() {
    assert!(!has_text("https://ipapi.co/json/", "ip-api.com"));
    assert!(!has_text("https://api.ipify.org?format=json", "ip-api.com"));
    assert!(!has_text("ip-api.co", "ip-api.com"));
    assert!(!has_text("IP-API.COM", "ip-api.com"));
    assert!(!has_text("", "a"));
    assert!(!has_text("ab", "abc"));
    assert!(!has_text("ip-api-com", "ip-api.com"));
}

#[test]
fn the_empty_text_stands_in_every_text() {
    assert!(has_text("", ""));
    assert!(has_text("abc", ""));
}
