use login_helper::request::{
    compose_request, get_user, plan_sections, request_fits, DisplayMeta, Environment,
    LoginRequest, MINUTE_TIME_BYTES,
};

#[test]
fn operator_name_or_unknown() {
    assert_eq!(get_user(Some("alice")), "alice");
    assert_eq!(get_user(Some("")), "");
    assert_eq!(get_user(None), "Unknown");
}

#[test]
fn passwords_are_planned_encoded() {
    let request = LoginRequest {
        ip: "h".to_string(),
        username: "u".to_string(),
        password: "\"".to_string(),
        su_username: Some("r".to_string()),
        su_password: Some("\"".to_string()),
        is_su: Some(true),
        is_script: Some(false),
        oc_url: None,
        oc_user: None,
        oc_password: Some("é".to_string()),
        is_oc: Some(true),
        display: None,
    };
    let sections = plan_sections(&request, Some("op"), "t", Some("s.ini"));
    assert_eq!(sections.host, "h");
    assert_eq!(sections.username, "u");
    assert_eq!(sections.password.as_str(), "#34#34");
    assert_eq!(sections.settings_path, Some("s.ini".to_string()));
    assert!(sections.transcript.is_none());
    let escalation = sections.escalation.unwrap();
    assert_eq!(escalation.username, "r");
    assert_eq!(escalation.password.as_str(), "#34");
    let orchestration = sections.orchestration.unwrap();
    assert_eq!(orchestration.url, "");
    assert_eq!(orchestration.user, "");
    assert_eq!(orchestration.password.as_str(), "#195#169");
    assert!(sections.title.is_none());
}

fn login() -> LoginRequest {
    LoginRequest {
        ip: "10.0.0.5".to_string(),
        username: "alice".to_string(),
        password: "a\"b".to_string(),
        su_username: None,
        su_password: None,
        is_su: None,
        is_script: None,
        oc_url: None,
        oc_user: None,
        oc_password: None,
        is_oc: None,
        display: Some(DisplayMeta {
            sid: "1".to_string(),
            hostname: "web".to_string(),
            memo: "m".to_string(),
            bg_color: "7,8,9".to_string(),
        }),
    }
}

fn surroundings() -> Environment {
    Environment {
        os_user: Some("op".to_string()),
        working_dir: "/w/".to_string(),
        ttpmacro_path: "ttpmacro.exe".to_string(),
    }
}

#[test]
fn script_of_a_request_for_a_given_time() {
    let script = compose_request(&login(), &surroundings(), "202401021504");
    let expected = String::new()
        + "\n        ; 接続実行\n        connect '10.0.0.5:22 /ssh /2 /auth=password /user=alice /passwd=\"'#97#34#34#98'\" /F=/w/teraterm_ini_op.ini'\n        "
        + "\n            ; suコマンドの実行\n            wait '$'\n            sendln 'script /tmp/teraterm_`hostname`_op_202401021504.log'\n            "
        + "\n        ; ウィンドウタイトル変更\n        settitle '[1] web (m)'\n\n        "
        + "\nend\n";
    assert_eq!(script, expected);
    let mut plain = login();
    plain.display = None;
    plain.is_script = Some(false);
    assert_eq!(
        compose_request(&plain, &surroundings(), "ignored"),
        "\n        ; 接続実行\n        connect '10.0.0.5:22 /ssh /2 /auth=password /user=alice /passwd=\"'#97#34#34#98'\"'\n        \nend\n"
    );
}

#[test]
fn time_adds_its_length_to_the_script() {
    let without = compose_request(&login(), &surroundings(), "");
    for time in ["202401021504", "+26214301021504", "-000101021504"] {
        let with = compose_request(&login(), &surroundings(), time);
        assert_eq!(with.len(), without.len() + time.len());
        assert!(time.len() <= MINUTE_TIME_BYTES);
    }
    assert_eq!(MINUTE_TIME_BYTES, 15);
}

#[test]
fn ordinary_requests_fit_the_encoder() {
    assert!(request_fits(&login(), &surroundings()));
    let mut large = login();
    large.password = "パ\"".repeat(100_000);
    large.display.as_mut().unwrap().memo = "x".repeat(1_000_000);
    assert!(request_fits(&large, &surroundings()));
}
