use login_helper::settings::render_settings;

fn by_lines(template: &str, bg_color: &str) -> String {
    let color = format!("VTColor=255,255,255,{}", bg_color);
    template
        .lines()
        .map(|line| if line.starts_with("VTColor") { color.clone() } else { line.to_string() })
        .collect::<Vec<String>>()
        .join("\n")
}

#[test]
fn colour_line_is_replaced() {
    assert_eq!(
        render_settings("[Tera Term]\nVTColor=0,0,0,255,255,255\nPort=tcpip\n", "10,20,30"),
        "[Tera Term]\nVTColor=255,255,255,10,20,30\nPort=tcpip"
    );
}

#[test]
fn template_without_the_key_keeps_its_lines() {
    assert_eq!(render_settings("a=1\nb=2", "0,0,0"), "a=1\nb=2");
    assert_eq!(render_settings("a=1\nb=2\n", "0,0,0"), "a=1\nb=2");
}

#[test]
fn empty_template_gives_empty_settings() {
    assert_eq!(render_settings("", "1,2,3"), "");
}

#[test]
fn carriage_returns_of_line_endings_go() {
    assert_eq!(render_settings("a\r\nVTColor=1\r\nb\r\n", "9,9,9"), "a\nVTColor=255,255,255,9,9,9\nb");
}

#[test]
fn last_line_without_ending_keeps_its_carriage_return() {
    assert_eq!(render_settings("a\r\nb\r", "0,0,0"), "a\nb\r");
    assert_eq!(render_settings("a\rb\n", "0,0,0"), "a\rb");
}

#[test]
fn empty_lines_stay() {
    assert_eq!(render_settings("\n", "0,0,0"), "");
    assert_eq!(render_settings("\n\n", "0,0,0"), "\n");
    assert_eq!(render_settings("a\n\nb", "0,0,0"), "a\n\nb");
    assert_eq!(render_settings("\r\n\r\n", "0,0,0"), "\n");
}

#[test]
fn every_line_with_the_key_is_replaced() {
    assert_eq!(
        render_settings("VTColor=1\nVTColorful\n VTColor=2\nvtcolor=3\nVTColo", "5,6,7"),
        "VTColor=255,255,255,5,6,7\nVTColor=255,255,255,5,6,7\n VTColor=2\nvtcolor=3\nVTColo"
    );
}

#[test]
fn key_alone_on_the_last_line() {
    assert_eq!(render_settings("VTColor", ""), "VTColor=255,255,255,");
    assert_eq!(render_settings("x\nVTColor\r\n", "1,1,1"), "x\nVTColor=255,255,255,1,1,1");
}

#[test]
fn text_beyond_ascii_passes_through() {
    assert_eq!(
        render_settings("; 設定\r\nVTColor=0\r\nTitle=端末\r\n", "1,2,3"),
        "; 設定\nVTColor=255,255,255,1,2,3\nTitle=端末"
    );
}

#[test]
fn agrees_with_the_lines_of_the_standard_library() {
    let templates = [
        "",
        "\n",
        "\r",
        "\r\n",
        "\n\r",
        "a",
        "a\n",
        "a\r\n",
        "a\n\n",
        "a\r\r\n",
        "\r\r",
        "VTColor=1,2,3\nx",
        "x\nVTColor=1,2,3",
        "x\r\nVTColor=1,2,3\r",
        "VTColor\r\n\r\nVTColor\n",
        "あ\nVTColorい\r\nう",
        "[Tera Term]\r\nVersion=5.0\r\nVTColor=255,255,255,0,0,0\r\nVTFont=Terminal,0,-13,128\r\n",
    ];
    for template in templates {
        for bg_color in ["", "0,0,0", "12,34,56"] {
            assert_eq!(render_settings(template, bg_color), by_lines(template, bg_color));
        }
    }
}

#[test]
fn splitting_undoes_joining() {
    for lines in [
        vec![""],
        vec!["a"],
        vec!["", ""],
        vec!["a", "", "b"],
        vec!["VTColor", " x ", "端末", ""],
    ] {
        let text = format!("{}\n", lines.join("\n"));
        assert_eq!(text.lines().collect::<Vec<&str>>(), lines);
        assert_eq!(render_settings(&text, "1"), by_lines(&text, "1"));
    }
}
