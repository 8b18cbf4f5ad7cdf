use login_helper::encoder::EncodedSecret;
use login_helper::request::{plan_sections, DisplayMeta, LoginRequest};
use login_helper::script::{
    compose_script, Escalation, Orchestration, ScriptSections, Title, Transcript,
};

fn request(host: &str, user: &str, password: &str) -> LoginRequest {
    LoginRequest {
        ip: host.to_string(),
        username: user.to_string(),
        password: password.to_string(),
        su_username: None,
        su_password: None,
        is_su: None,
        is_script: Some(false),
        oc_url: None,
        oc_user: None,
        oc_password: None,
        is_oc: None,
        display: None,
    }
}

fn count(text: &str, piece: &str) -> usize {
    text.matches(piece).count()
}

const CONNECT_ALICE: &str = "\n        ; 接続実行\n        connect '10.0.0.5:22 /ssh /2 /auth=password /user=alice /passwd=\"'#97#34#34#98'\"'\n        ";

const SWITCH_USER_ROOT: &str = "\n            ; suコマンドの実行\n            wait '$'\n            sendln 'su - root'\n            wait 'パスワード'\n            sendln #114#34#39\n\n            ; suコマンド成功確認（プロンプトが変わることを想定）\n            wait '#'\n\n            ; 必要な後続処理をここに記述可能\n            sendln 'whoami'\n            wait '#'\n            ";

#[test]
fn plain_login_script() {
    let sections = plan_sections(&request("10.0.0.5", "alice", "a\"b"), None, "202401021504", None);
    let script = compose_script(&sections);
    assert_eq!(script, format!("{}\nend\n", CONNECT_ALICE));
    assert_eq!(count(&script, "connect "), 1);
    assert!(script.contains("/passwd=\"'#97#34#34#98'\""));
    assert!(script.ends_with("\nend\n"));
    assert_eq!(script.lines().filter(|line| line.trim() == "end").count(), 1);
    assert_eq!(script.lines().last(), Some("end"));
    assert!(!script.contains("a\"b"));
}

#[test]
fn switch_user_without_orchestration() {
    let mut login = request("10.0.0.5", "alice", "a\"b");
    login.is_su = Some(true);
    login.su_username = Some("root".to_string());
    login.su_password = Some("r\"'".to_string());
    login.is_oc = Some(false);
    login.oc_url = Some("https://oc.example".to_string());
    login.oc_user = Some("dev".to_string());
    login.oc_password = Some("secret".to_string());
    let script = compose_script(&plan_sections(&login, None, "202401021504", None));
    assert_eq!(script, format!("{}{}\nend\n", CONNECT_ALICE, SWITCH_USER_ROOT));
    assert!(script.starts_with(&format!("{}{}", CONNECT_ALICE, SWITCH_USER_ROOT)));
    assert!(!script.contains("oc login"));
    assert!(!script.contains("secret"));
    assert_eq!(count(&script, "sendln 'su - root'"), 1);
}

#[test]
fn every_section_in_its_order() {
    let login = LoginRequest {
        ip: "host.example".to_string(),
        username: "bob".to_string(),
        password: "pw".to_string(),
        su_username: Some("admin".to_string()),
        su_password: Some("s u".to_string()),
        is_su: Some(true),
        is_script: None,
        oc_url: Some("https://api.cluster:6443".to_string()),
        oc_user: Some("kube".to_string()),
        oc_password: Some("o'c".to_string()),
        is_oc: Some(true),
        display: Some(DisplayMeta {
            sid: "S01".to_string(),
            hostname: "web1".to_string(),
            memo: "front".to_string(),
            bg_color: "0,0,64".to_string(),
        }),
    };
    let sections = plan_sections(&login, Some("carol"), "202401021504", Some("C:\\work\\teraterm_ini_carol.ini"));
    let script = compose_script(&sections);
    let expected = String::new()
        + "\n        ; 接続実行\n        connect 'host.example:22 /ssh /2 /auth=password /user=bob /passwd=\"'#112#119'\" /F=C:\\work\\teraterm_ini_carol.ini'\n        "
        + "\n            ; suコマンドの実行\n            wait '$'\n            sendln 'script /tmp/teraterm_`hostname`_carol_202401021504.log'\n            "
        + "\n            ; suコマンドの実行\n            wait '$'\n            sendln 'su - admin'\n            wait 'パスワード'\n            sendln #115#32#117\n\n            ; suコマンド成功確認（プロンプトが変わることを想定）\n            wait '#'\n\n            ; 必要な後続処理をここに記述可能\n            sendln 'whoami'\n            wait '#'\n            "
        + "\n            ; suコマンドの実行\n            sendln \"oc login https://api.cluster:6443 --username kube --password '\"#111#39#99\"'\"\n\n            ; suコマンド成功確認（プロンプトが変わることを想定）\n            wait '#'\n            "
        + "\n        ; ウィンドウタイトル変更\n        settitle '[S01] web1 (front)'\n\n        "
        + "\nend\n";
    assert_eq!(script, expected);
    let connect = script.find("connect '").unwrap();
    let transcript = script.find("sendln 'script ").unwrap();
    let switch_user = script.find("sendln 'su - ").unwrap();
    let orchestration = script.find("sendln \"oc login ").unwrap();
    let title = script.find("settitle '").unwrap();
    let end = script.rfind("\nend\n").unwrap();
    assert!(connect < transcript && transcript < switch_user);
    assert!(switch_user < orchestration && orchestration < title && title < end);
    assert_eq!(end + "\nend\n".len(), script.len());
}

#[test]
fn transcript_is_kept_unless_switched_off() {
    let mut login = request("h", "u", "p");
    login.is_script = None;
    let script = compose_script(&plan_sections(&login, None, "202401021504", None));
    assert!(script.contains("sendln 'script /tmp/teraterm_`hostname`_Unknown_202401021504.log'"));
    login.is_script = Some(true);
    let script = compose_script(&plan_sections(&login, Some("dave"), "209912312359", None));
    assert!(script.contains("sendln 'script /tmp/teraterm_`hostname`_dave_209912312359.log'"));
    login.is_script = Some(false);
    let script = compose_script(&plan_sections(&login, Some("dave"), "209912312359", None));
    assert!(!script.contains("script /tmp"));
}

#[test]
fn unset_fields_of_an_enabled_section_are_empty() {
    let mut login = request("h", "u", "");
    login.is_su = Some(true);
    login.is_oc = Some(true);
    let script = compose_script(&plan_sections(&login, None, "t", None));
    assert!(script.contains("/passwd=\"''\"'"));
    assert!(script.contains("            sendln 'su - '\n"));
    assert!(script.contains("            sendln \n\n"));
    assert!(script.contains("sendln \"oc login  --username  --password '\"\"'\"\n"));
}

#[test]
fn switch_user_password_needs_the_flag() {
    let mut login = request("h", "u", "p");
    login.su_username = Some("root".to_string());
    login.su_password = Some("toor".to_string());
    let script = compose_script(&plan_sections(&login, None, "t", None));
    assert!(!script.contains("su - "));
    login.is_su = Some(false);
    let script = compose_script(&plan_sections(&login, None, "t", None));
    assert!(!script.contains("su - "));
}

#[test]
fn orchestration_follows_whether_or_not_the_user_was_switched() {
    let mut login = request("h", "u", "p");
    login.is_oc = Some(true);
    login.oc_url = Some("url".to_string());
    login.oc_user = Some("me".to_string());
    login.oc_password = Some("x".to_string());
    let script = compose_script(&plan_sections(&login, None, "t", None));
    assert!(script.contains("sendln \"oc login url --username me --password '\"#120\"'\"\n"));
    assert!(!script.contains("su - "));
}

#[test]
fn title_and_settings_path_go_with_the_sections() {
    let sections = ScriptSections {
        host: "h".to_string(),
        username: "u".to_string(),
        password: EncodedSecret::encode("p", true),
        settings_path: Some("/w/teraterm_ini_default.ini".to_string()),
        transcript: None,
        escalation: None,
        orchestration: None,
        title: Some(Title {
            sid: "7".to_string(),
            hostname: "db".to_string(),
            memo: "it's \"db\"".to_string(),
        }),
    };
    assert_eq!(
        compose_script(&sections),
        "\n        ; 接続実行\n        connect 'h:22 /ssh /2 /auth=password /user=u /passwd=\"'#112'\" /F=/w/teraterm_ini_default.ini'\n        \n        ; ウィンドウタイトル変更\n        settitle '[7] db (it's \"db\")'\n\n        \nend\n"
    );
}

#[test]
fn sections_stand_alone() {
    let sections = ScriptSections {
        host: "h".to_string(),
        username: "u".to_string(),
        password: EncodedSecret::empty(),
        settings_path: None,
        transcript: Some(Transcript { os_user: "o".to_string(), timestamp: "1".to_string() }),
        escalation: Some(Escalation {
            username: "r".to_string(),
            password: EncodedSecret::encode("\"", false),
        }),
        orchestration: Some(Orchestration {
            url: "x".to_string(),
            user: "y".to_string(),
            password: EncodedSecret::encode("\"", true),
        }),
        title: None,
    };
    let script = compose_script(&sections);
    assert!(script.contains("teraterm_`hostname`_o_1.log"));
    assert!(script.contains("sendln #34\n"));
    assert!(script.contains("--password '\"#34#34\"'\""));
    assert!(!script.contains("settitle"));
}

#[test]
fn composing_twice_gives_the_same_script() {
    let mut login = request("10.0.0.5", "alice", "a\"b");
    login.is_su = Some(true);
    login.su_username = Some("root".to_string());
    login.su_password = Some("パスワード".to_string());
    let first = compose_script(&plan_sections(&login, Some("op"), "202401021504", Some("x.ini")));
    let second = compose_script(&plan_sections(&login, Some("op"), "202401021504", Some("x.ini")));
    assert_eq!(first, second);
    assert_eq!(first.as_bytes(), second.as_bytes());
    let sections = plan_sections(&login, Some("op"), "202401021504", Some("x.ini"));
    assert_eq!(compose_script(&sections), compose_script(&sections));
}

#[test]
fn passwords_never_appear_raw() {
    let mut login = request("h", "u", "Tr0ub4dor&3'; messagebox 'x' 'y'");
    login.is_su = Some(true);
    login.su_username = Some("root".to_string());
    login.su_password = Some("'\nend\n".to_string());
    login.is_oc = Some(true);
    login.oc_password = Some("\"; rm -rf /; \"".to_string());
    let script = compose_script(&plan_sections(&login, None, "t", None));
    assert!(!script.contains("Tr0ub4dor"));
    assert!(!script.contains("messagebox"));
    assert!(!script.contains("rm -rf"));
    assert_eq!(count(&script, "\nend\n"), 1);
    assert_eq!(script.lines().filter(|line| line.trim_start().starts_with("connect ")).count(), 1);
}

fn first_word(line: &str) -> Option<&str> {
    line.trim_start_matches(' ').split(' ').next().filter(|word| !word.is_empty())
}

#[test]
fn short_script_has_one_connect_line_and_one_end_line() {
    let mut login = request("10.0.0.5", "alice", "a\"b");
    for with_display in [false, true] {
        if with_display {
            login.display = Some(DisplayMeta {
                sid: "connect".to_string(),
                hostname: "end".to_string(),
                memo: "connect end".to_string(),
                bg_color: "0,0,0".to_string(),
            });
        }
        let settings_path = if with_display { Some("/w/teraterm_ini_op.ini") } else { None };
        let script = compose_script(&plan_sections(&login, None, "202401021504", settings_path));
        let lines: Vec<&str> = script.lines().collect();
        assert_eq!(lines.len(), if with_display { 9 } else { 5 });
        let connects: Vec<usize> =
            (0..lines.len()).filter(|k| first_word(lines[*k]) == Some("connect")).collect();
        assert_eq!(connects, vec![2]);
        let ends: Vec<usize> = (0..lines.len()).filter(|k| lines[*k] == "end").collect();
        assert_eq!(ends, vec![lines.len() - 1]);
        assert_eq!(lines[0], "");
        assert_eq!(lines[1], "        ; 接続実行");
        assert_eq!(lines[3], "        ");
        if with_display {
            assert_eq!(
                lines[2],
                "        connect '10.0.0.5:22 /ssh /2 /auth=password /user=alice /passwd=\"'#97#34#34#98'\" /F=/w/teraterm_ini_op.ini'"
            );
            assert_eq!(lines[4], "        ; ウィンドウタイトル変更");
            assert_eq!(lines[5], "        settitle '[connect] end (connect end)'");
            assert_eq!(lines[6], "");
            assert_eq!(lines[7], "        ");
        } else {
            assert_eq!(
                lines[2],
                "        connect '10.0.0.5:22 /ssh /2 /auth=password /user=alice /passwd=\"'#97#34#34#98'\"'"
            );
        }
    }
}

#[test]
fn switch_of_the_user_follows_the_connect_directive() {
    let mut login = request("h", "u", "p");
    login.is_su = Some(true);
    login.su_username = Some("root".to_string());
    login.su_password = Some("x".to_string());
    let script = compose_script(&plan_sections(&login, None, "t", None));
    let lines: Vec<&str> = script.lines().collect();
    let words: Vec<&str> = lines.iter().filter_map(|line| first_word(line)).collect();
    assert_eq!(
        words,
        vec![";", "connect", ";", "wait", "sendln", "wait", "sendln", ";", "wait", ";", "sendln", "wait", "end"]
    );
    assert_eq!(lines[5].trim_start(), "wait '$'");
    assert_eq!(lines[6].trim_start(), "sendln 'su - root'");
}

#[test]
fn fields_of_a_section_that_is_off_go_nowhere() {
    let mut with_fields = request("h", "u", "p");
    with_fields.oc_url = Some("https://oc".to_string());
    with_fields.oc_user = Some("dev".to_string());
    with_fields.oc_password = Some("secret".to_string());
    with_fields.su_username = Some("root".to_string());
    with_fields.su_password = Some("toor".to_string());
    let without = request("h", "u", "p");
    for flag in [None, Some(false)] {
        with_fields.is_oc = flag;
        with_fields.is_su = flag;
        assert_eq!(
            compose_script(&plan_sections(&with_fields, None, "t", None)),
            compose_script(&plan_sections(&without, None, "t", None))
        );
    }
}
