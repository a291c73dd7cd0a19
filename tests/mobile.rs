use agent_core::json::Json;
use agent_core::mobile::{
    get_argument, package_names, parse_dimensions, parse_i32, parse_screen_size, plan_android_command,
    screenshot_content, split_lines, split_words, store_title, trim_blanks, AndroidCommand,
};
use agent_core::message::Content;

fn args(text: &str) -> Json {
    Json::parse(text).unwrap()
}

#[test]
fn package_list_is_read_line_by_line() {
    let out = "package:com.example.one\r\npackage: com.example.two \nnot a package\npackage:\n";
    assert_eq!(package_names(out), vec!["com.example.one".to_string(), "com.example.two".to_string(), String::new()]);
    assert!(package_names("").is_empty());
    assert_eq!(package_names("package:a"), vec!["a".to_string()]);
}

#[test]
fn blanks_are_trimmed_at_both_ends() {
    assert_eq!(trim_blanks(" \t x y \r\n"), "x y");
    assert_eq!(trim_blanks("   "), "");
}

#[test]
fn android_commands_are_planned() {
    assert!(matches!(plan_android_command("android", &args(r#"{"command":"home"}"#)), Ok(AndroidCommand::Home)));
    match plan_android_command("android", &args(r#"{"command":"click","click_where":{"x":10,"y":20}}"#)) {
        Ok(AndroidCommand::Click { x, y }) => assert_eq!((x, y), (10, 20)),
        _ => panic!("expected a click"),
    }
    assert_eq!(
        plan_android_command("android", &args(r#"{"command":"click","click_where":{"x":10}}"#)).unwrap_err(),
        "Missing or invalid click coordinates."
    );
    match plan_android_command("android", &args(r#"{"command":"start_app","start_app":{"package_name":"com.a"}}"#)) {
        Ok(AndroidCommand::StartApp(p)) => assert_eq!(p, "com.a"),
        _ => panic!("expected start_app"),
    }
    assert_eq!(plan_android_command("other", &args("{}")).unwrap_err(), "Unknown tool name.");
    assert_eq!(
        plan_android_command("android", &args(r#"{"command":"fly"}"#)).unwrap_err(),
        "Invalid or unsupported command."
    );
    assert_eq!(
        plan_android_command("android", &args(r#"{"command":"enter_text"}"#)).unwrap_err(),
        "Missing or invalid text input."
    );
}

#[test]
fn arguments_are_looked_up_by_one_or_two_keys() {
    let a = args(r#"{"outer":{"inner":"v"}}"#);
    assert_eq!(get_argument(&a, "outer", Some("inner")).unwrap().as_str(), Some("v"));
    assert!(get_argument(&a, "outer", None).is_some());
    assert!(get_argument(&a, "missing", Some("inner")).is_none());
}

#[test]
fn screen_size_is_read_from_physical_size_line() {
    assert_eq!(parse_screen_size("Physical size: 1080x2400\n"), Some((1080, 2400)));
    assert_eq!(parse_screen_size("Override size: 720x1280\nPhysical size: 1440x3120"), Some((1440, 3120)));
    assert_eq!(parse_screen_size("nothing here"), None);
    assert_eq!(parse_screen_size("Physical size:"), None);
    assert_eq!(parse_screen_size("Physical size: abcx12"), Some((0, 12)));
    assert_eq!(parse_screen_size("Physical size: 1080"), Some((1080, 0)));
}

#[test]
fn decimal_integers_are_read_like_std() {
    assert_eq!(parse_i32("42"), Some(42));
    assert_eq!(parse_i32("-17"), Some(-17));
    assert_eq!(parse_i32("+5"), Some(5));
    assert_eq!(parse_i32("2147483647"), Some(i32::MAX));
    assert_eq!(parse_i32("-2147483648"), Some(i32::MIN));
    assert_eq!(parse_i32("2147483648"), None);
    assert_eq!(parse_i32("99999999999999999999"), None);
    assert_eq!(parse_i32(""), None);
    assert_eq!(parse_i32("-"), None);
    assert_eq!(parse_i32("12a"), None);
    assert_eq!(parse_dimensions("1x2x3"), (1, 2));
}

#[test]
fn lines_and_words_are_split() {
    assert_eq!(split_lines("a\n\nb\n"), vec!["a".to_string(), String::new(), "b".to_string()]);
    assert_eq!(split_lines("\n"), vec![String::new()]);
    assert_eq!(split_words("  Physical size:\t1080x2400 "), vec!["Physical", "size:", "1080x2400"]);
    assert!(split_words("   ").is_empty());
}

#[test]
fn store_title_is_the_first_text_of_the_title_span() {
    let page = r#"<html><body><h1><span class="AfwdI" itemprop="name">Maps</span></h1><h1><span class="AfwdI" itemprop="name">Other</span></h1></body></html>"#;
    assert_eq!(store_title(page), Some("Maps".to_string()));
    assert_eq!(store_title("<html><body><h1>No span</h1></body></html>"), None);
}

#[test]
fn screenshot_is_carried_as_base64_png() {
    match screenshot_content(b"hello") {
        Content::Image { data, mime_type } => {
            assert_eq!(data, "aGVsbG8=");
            assert_eq!(mime_type, "image/png");
        }
        _ => panic!("expected an image"),
    }
}
