use login_helper::encoder::{convert_password_to_macro_format, decode_macro_format, EncodedSecret};

#[test]
fn quote_is_doubled_then_encoded() {
    assert_eq!(convert_password_to_macro_format("a\"b", true), "#97#34#34#98");
}

#[test]
fn quote_is_not_doubled_outside_quotes() {
    assert_eq!(convert_password_to_macro_format("a\"b", false), "#97#34#98");
}

#[test]
fn empty_secret_has_empty_form() {
    assert_eq!(convert_password_to_macro_format("", true), "");
    assert_eq!(convert_password_to_macro_format("", false), "");
    assert_eq!(EncodedSecret::empty().as_str(), "");
}

#[test]
fn hash_blank_and_single_quote_are_tokens() {
    assert_eq!(convert_password_to_macro_format("# '", false), "#35#32#39");
    assert_eq!(convert_password_to_macro_format("# '", true), "#35#32#39");
}

#[test]
fn every_byte_of_a_character_gets_a_token() {
    assert_eq!(convert_password_to_macro_format("é", false), "#195#169");
    assert_eq!(convert_password_to_macro_format("パ", true), "#227#131#145");
    assert_eq!(convert_password_to_macro_format("😀", false), "#240#159#152#128");
}

#[test]
fn bytes_of_one_two_and_three_digits() {
    assert_eq!(convert_password_to_macro_format("\u{0}\t\n", false), "#0#9#10");
    assert_eq!(convert_password_to_macro_format("c d", false), "#99#32#100");
    assert_eq!(convert_password_to_macro_format("\u{7f}", false), "#127");
    assert_eq!(convert_password_to_macro_format("ÿ", false), "#195#191");
}

#[test]
fn only_double_quotes_are_doubled() {
    assert_eq!(convert_password_to_macro_format("\"\"", true), "#34#34#34#34");
    assert_eq!(convert_password_to_macro_format("'\"'", true), "#39#34#34#39");
}

#[test]
fn encoded_secret_matches_the_plain_function() {
    for secret in ["", "a\"b", "p@ss w#rd'", "パスワード", "\"\"\""] {
        for quote_context in [false, true] {
            assert_eq!(
                EncodedSecret::encode(secret, quote_context).as_str(),
                convert_password_to_macro_format(secret, quote_context)
            );
        }
    }
}

#[test]
fn round_trip_gives_the_bytes_back() {
    for secret in ["", "abc", "a#b", "it's", "two words", "a\"b", "パスワード", "naïve😀", "#34#34"] {
        let encoded = convert_password_to_macro_format(secret, false);
        assert_eq!(decode_macro_format(&encoded), Some(secret.as_bytes().to_vec()));
    }
}

#[test]
fn round_trip_in_quote_context_without_quotes() {
    for secret in ["", "abc", "a#b", "it's", "パスワード"] {
        let encoded = convert_password_to_macro_format(secret, true);
        assert_eq!(decode_macro_format(&encoded), Some(secret.as_bytes().to_vec()));
    }
}

#[test]
fn round_trip_in_quote_context_gives_doubled_quotes() {
    let encoded = convert_password_to_macro_format("a\"b", true);
    assert_eq!(decode_macro_format(&encoded), Some(b"a\"\"b".to_vec()));
    assert_ne!(decode_macro_format(&encoded), Some(b"a\"b".to_vec()));
}

#[test]
fn encoded_form_holds_only_hash_and_digits() {
    for secret in ["'", "\"", "' or '1'='1", "a\"b'c d\ne", "パス'ワ\"ード", "\r\n\t "] {
        for quote_context in [false, true] {
            let encoded = convert_password_to_macro_format(secret, quote_context);
            assert!(encoded.chars().all(|c| c == '#' || c.is_ascii_digit()));
            assert!(!encoded.contains('\''));
            assert!(!encoded.contains('"'));
            assert!(!encoded.contains(' '));
            assert!(!encoded.contains('\n'));
        }
    }
}

#[test]
fn decode_reads_tokens() {
    assert_eq!(decode_macro_format(""), Some(vec![]));
    assert_eq!(decode_macro_format("#0"), Some(vec![0]));
    assert_eq!(decode_macro_format("#255"), Some(vec![255]));
    assert_eq!(decode_macro_format("#97#34#34#98"), Some(vec![97, 34, 34, 98]));
    assert_eq!(decode_macro_format("#007"), Some(vec![7]));
}

#[test]
fn decode_refuses_what_is_no_token_run() {
    assert_eq!(decode_macro_format("97"), None);
    assert_eq!(decode_macro_format("#"), None);
    assert_eq!(decode_macro_format("#97#"), None);
    assert_eq!(decode_macro_format("#256"), None);
    assert_eq!(decode_macro_format("#999"), None);
    assert_eq!(decode_macro_format("#1000"), None);
    assert_eq!(decode_macro_format("#0097"), None);
    assert_eq!(decode_macro_format("#97 #98"), None);
    assert_eq!(decode_macro_format("#9a"), None);
    assert_eq!(decode_macro_format("#９"), None);
    assert_eq!(decode_macro_format("a#97"), None);
}

fn per_character(password: &str, login_flag: bool) -> String {
    password
        .chars()
        .map(|c| {
            let mut piece = c.to_string();
            if login_flag && c == '"' {
                piece.push('"');
            }
            piece.as_bytes().iter().map(|b| format!("#{}", b)).collect::<String>()
        })
        .collect()
}

#[test]
fn agrees_with_the_encoding_of_each_character() {
    let mut text = String::new();
    for code in (0u32..0x3000).chain((0x3000..0x11_0000).step_by(97)) {
        if let Some(c) = char::from_u32(code) {
            text.push(c);
        }
        if text.len() > 4096 {
            for login_flag in [false, true] {
                assert_eq!(
                    convert_password_to_macro_format(&text, login_flag),
                    per_character(&text, login_flag)
                );
            }
            text.clear();
        }
    }
    for login_flag in [false, true] {
        assert_eq!(
            convert_password_to_macro_format(&text, login_flag),
            per_character(&text, login_flag)
        );
    }
}

#[test]
fn every_byte_value_survives_the_round_trip() {
    let mut tokens = String::new();
    for b in 0u32..256 {
        tokens.push_str(&format!("#{}", b));
    }
    assert_eq!(decode_macro_format(&tokens), Some((0u8..=255).collect::<Vec<u8>>()));
    let text: String = (0u32..0x800).filter_map(char::from_u32).collect();
    assert_eq!(
        decode_macro_format(&convert_password_to_macro_format(&text, false)),
        Some(text.as_bytes().to_vec())
    );
}
