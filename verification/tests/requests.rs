use ronajo::requests::{
    api_episode_url, api_search_url, episode_variables_text, jikan_search_url,
    search_variables_text, EPISODE_QUERY, SEARCH_QUERY,
};

fn form_encode(s: &str) -> String {
    let mut out = String::new();
    for b in s.bytes() {
        match b {
            b'*' | b'-' | b'.' | b'_' | b'0'..=b'9' | b'A'..=b'Z' | b'a'..=b'z' => out.push(b as char),
            b' ' => out.push('+'),
            _ => out.push_str(&format!("%{:02X}", b)),
        }
    }
    out
}

#[test]
fn search_variables_for_safe_search() {
    assert_eq!(
        search_variables_text("one piece", "sub", true),
        "{\"search\":{\"allowAdult\":false,\"allowUnknown\":false,\"query\":\"one piece\"},\"limit\":40,\"page\":1,\"translationType\":\"sub\",\"countryOrigin\":\"ALL\"}"
    );
}

#[test]
fn search_variables_allow_adult_when_not_safe() {
    assert!(search_variables_text("x", "dub", false).contains("\"allowAdult\":true,"));
}

#[test]
fn search_address_is_form_encoded() {
    let url = api_search_url("one piece", "sub", true);
    let expected = format!(
        "https://api.allanime.day/api?query={}&variables={}",
        form_encode(SEARCH_QUERY),
        form_encode(&search_variables_text("one piece", "sub", true))
    );
    assert_eq!(url, expected);
    assert!(url.contains("%22query%22%3A%22one+piece%22"));
}

#[test]
fn episode_variables_and_address() {
    assert_eq!(
        episode_variables_text("abc123", "dub", 12),
        "{\"showId\":\"abc123\",\"translationType\":\"dub\",\"episodeString\":\"12\"}"
    );
    let url = api_episode_url("abc123", "dub", 12);
    let expected = format!(
        "https://api.allanime.day/api?query={}&variables={}",
        form_encode(EPISODE_QUERY),
        "%7B%22showId%22%3A%22abc123%22%2C%22translationType%22%3A%22dub%22%2C%22episodeString%22%3A%2212%22%7D"
    );
    assert_eq!(url, expected);
}

#[test]
fn jikan_address() {
    assert_eq!(
        jikan_search_url("naruto shippuden"),
        "https://api.jikan.moe/v4/anime?q=naruto+shippuden&limit=10&sfw&type=tv"
    );
    assert_eq!(
        jikan_search_url("caf\u{e9} & co"),
        "https://api.jikan.moe/v4/anime?q=caf%C3%A9+%26+co&limit=10&sfw&type=tv"
    );
}

#[test]
fn encoded_values_keep_no_separators() {
    let url = jikan_search_url("a=b&c#d?e f");
    let q = &url["https://api.jikan.moe/v4/anime?q=".len()..url.len() - "&limit=10&sfw&type=tv".len()];
    assert!(q.chars().all(|c| c.is_ascii_alphanumeric() || "*-._%+".contains(c)));
    assert_eq!(q, "a%3Db%26c%23d%3Fe+f");
}
