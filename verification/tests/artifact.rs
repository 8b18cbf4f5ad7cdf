use login_helper::artifact::{
    artifact_file_name, check_encoded, encode_script, file_path, script_fits,
    settings_file_name, ENCODER_LIMIT,
};
use login_helper::outcome::RunResult;

#[test]
fn ascii_script_keeps_its_bytes() {
    assert_eq!(encode_script("connect 'h'\nend\n"), Ok(b"connect 'h'\nend\n".to_vec()));
    assert_eq!(encode_script(""), Ok(vec![]));
}

#[test]
fn japanese_text_is_encoded_as_shift_jis() {
    assert_eq!(
        encode_script("パスワード"),
        Ok(vec![0x83, 0x70, 0x83, 0x58, 0x83, 0x8F, 0x81, 0x5B, 0x83, 0x68])
    );
    assert_eq!(encode_script("wait 'あ'"), Ok(vec![b'w', b'a', b'i', b't', b' ', b'\'', 0x82, 0xA0, b'\'']));
    assert_ne!(encode_script("パスワード"), Ok("パスワード".as_bytes().to_vec()));
}

#[test]
fn agrees_with_the_encoder() {
    let text = "; 接続実行\nconnect 'h'\n; suコマンド成功確認（プロンプトが変わることを想定）\n";
    let (bytes, _, had_errors) = encoding_rs::SHIFT_JIS.encode(text);
    assert!(!had_errors);
    assert_eq!(encode_script(text), Ok(bytes.into_owned()));
}

#[test]
fn unencodable_character_is_an_encoding_error() {
    assert_eq!(encode_script("settitle '[1] host (😀)'"), Err(RunResult::EncodingError));
    assert_eq!(encode_script("한국어"), Err(RunResult::EncodingError));
}

#[test]
fn long_script_is_encoded_like_any_other() {
    let long = "a".repeat(0x400_0001);
    assert!(script_fits(&long));
    assert_eq!(encode_script(&long).map(|bytes| bytes.len()), Ok(0x400_0001));
    let kana = "あ".repeat(0x10_0001);
    assert!(script_fits(&kana));
    let encoded = encode_script(&kana).unwrap();
    assert_eq!(encoded.len(), 2 * 0x10_0001);
    assert!(encoded.chunks(2).all(|pair| pair == [0x82, 0xA0]));
    let mixed = format!("{}{}", "あ".repeat(0x10_0000), "한");
    assert_eq!(encode_script(&mixed), Err(RunResult::EncodingError));
}

#[test]
fn encoder_takes_what_a_machine_can_hold() {
    assert_eq!(ENCODER_LIMIT, usize::MAX / 32);
    assert!(script_fits(""));
    assert!(script_fits("connect 'h'\nend\n"));
    assert!(script_fits("パスワード"));
}

#[test]
fn substituted_bytes_are_never_passed_on() {
    assert_eq!(check_encoded(vec![1, 2, 3], false), Ok(vec![1, 2, 3]));
    assert_eq!(check_encoded(vec![1, 2, 3], true), Err(RunResult::EncodingError));
    assert_eq!(check_encoded(vec![], true), Err(RunResult::EncodingError));
}

#[test]
fn artifact_name_holds_the_timestamp() {
    assert_eq!(artifact_file_name("2024-01-02_15-04-05.678"), "login_2024-01-02_15-04-05.678.ttl");
    assert_eq!(artifact_file_name(""), "login_.ttl");
}

#[test]
fn settings_name_holds_the_operator() {
    assert_eq!(settings_file_name(Some("alice")), "teraterm_ini_alice.ini");
    assert_eq!(settings_file_name(Some("")), "teraterm_ini_.ini");
    assert_eq!(settings_file_name(None), "teraterm_ini_default.ini");
}

#[test]
fn file_name_follows_the_directory() {
    assert_eq!(file_path("/w/", "login_x.ttl"), "/w/login_x.ttl");
    assert_eq!(file_path("C:\\work\\", "template.ini"), "C:\\work\\template.ini");
    assert_eq!(file_path("", "a"), "a");
    let directory = std::path::Path::new("work").join("");
    assert_eq!(
        file_path(&directory.to_string_lossy(), "template.ini"),
        std::path::Path::new("work").join("template.ini").to_string_lossy()
    );
}
