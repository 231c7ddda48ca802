use ronajo::stream_id::substitute_id;

const TABLE: [(&str, char); 29] = [
    ("01", '9'), ("08", '0'), ("05", '='), ("0a", '2'), ("0b", '3'), ("0c", '4'), ("07", '?'),
    ("00", '8'), ("5c", 'd'), ("0f", '7'), ("5e", 'f'), ("17", '/'), ("54", 'l'), ("09", '1'),
    ("48", 'p'), ("4f", 'w'), ("0e", '6'), ("5b", 'c'), ("5d", 'e'), ("0d", '5'), ("53", 'k'),
    ("1e", '&'), ("5a", 'b'), ("59", 'a'), ("4a", 'r'), ("4c", 't'), ("4e", 'v'), ("57", 'o'),
    ("51", 'i'),
];

fn encode(text: &str) -> String {
    let mut out = String::new();
    for c in text.chars() {
        let code = TABLE.iter().find(|(_, d)| *d == c).expect("codable character").0;
        out.push_str(code);
    }
    out
}

#[test]
fn decodes_known_codes() {
    assert_eq!(substitute_id("175948514e4c4f57".to_string()), "/apivtwo");
}

#[test]
fn every_code_decodes_to_its_character() {
    for (code, c) in TABLE.iter() {
        assert_eq!(substitute_id(code.to_string()), c.to_string());
    }
}

#[test]
fn unknown_codes_are_dropped() {
    assert_eq!(substitute_id("zz01ff".to_string()), "9");
    assert_eq!(substitute_id("1001".to_string()), "9");
}

#[test]
fn trailing_odd_byte_is_ignored() {
    assert_eq!(substitute_id("010".to_string()), "9");
    assert_eq!(substitute_id("0".to_string()), "");
    assert_eq!(substitute_id(String::new()), "");
}

#[test]
fn upper_case_hex_is_not_a_code() {
    assert_eq!(substitute_id("0A0B".to_string()), "");
}

#[test]
fn non_ascii_pairs_on_boundaries_are_dropped() {
    // U+00E9 takes two bytes, so it is one (unknown) code.
    assert_eq!(substitute_id("\u{e9}01".to_string()), "9");
}

#[test]
fn substitution_round_trip() {
    let text = "/apivtwo/clock?id=12&a=b";
    assert_eq!(substitute_id(encode(text)), text);
}

#[test]
fn substitution_length_bound() {
    let input = "01080505zz".to_string();
    let n = input.len();
    assert!(substitute_id(input).len() <= n / 2);
}
