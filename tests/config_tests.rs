use ruffle_libretro::config::{
    bool_option, number_option, parse_unsigned, Config, FileAccessPolicy, LoadBehavior, Letterbox, OptionValues,
    WebBrowserAccess,
};

fn none() -> OptionValues<'static> {
    OptionValues {
        autoplay: None,
        letterbox: None,
        max_execution_duration: None,
        msaa: None,
        warn_on_unsupported_content: None,
        file_access_policy: None,
        web_browser_access: None,
        audio_sample_rate: None,
        load_behavior: None,
    }
}

#[test]
fn defaults() {
    let c = Config::new();
    assert!(c.autoplay);
    assert_eq!(c.letterbox, Letterbox::Fullscreen);
    assert_eq!(c.max_execution_seconds, 15);
    assert_eq!(c.msaa, 0);
    assert!(c.warn_on_unsupported_content);
    assert_eq!(c.load_behavior, LoadBehavior::Streaming);
    assert_eq!(c.file_access_policy, FileAccessPolicy::Never);
    assert_eq!(c.web_browser_access, WebBrowserAccess::Ignore);
    assert_eq!(c.sample_rate, 44100);
    assert!(c.upgrade_to_https);
    assert_eq!(c.spoofed_url, None);
}

#[test]
fn options_are_read() {
    let mut c = Config::new();
    let v = OptionValues {
        autoplay: Some("false"),
        letterbox: Some("on"),
        max_execution_duration: Some("30"),
        msaa: Some("4"),
        warn_on_unsupported_content: Some("false"),
        file_access_policy: Some("notify"),
        web_browser_access: Some("off-notify"),
        audio_sample_rate: Some("48000"),
        load_behavior: Some("delayed"),
    };
    c.on_options_changed(&v);
    assert!(!c.autoplay);
    assert_eq!(c.letterbox, Letterbox::On);
    assert_eq!(c.max_execution_seconds, 30);
    assert_eq!(c.msaa, 4);
    assert!(!c.warn_on_unsupported_content);
    assert_eq!(c.file_access_policy, FileAccessPolicy::Notify);
    assert_eq!(c.web_browser_access, WebBrowserAccess::Notify);
    assert_eq!(c.sample_rate, 48000);
    assert_eq!(c.load_behavior, LoadBehavior::Delayed);
}

#[test]
fn missing_or_unknown_options_fall_back() {
    let mut c = Config::new();
    c.on_options_changed(&OptionValues { letterbox: Some("sometimes"), msaa: Some("256"), ..none() });
    assert_eq!(c.letterbox, Letterbox::Fullscreen);
    assert_eq!(c.msaa, 0);
    assert!(c.autoplay);
    assert_eq!(c.web_browser_access, WebBrowserAccess::Ignore);
    c.on_options_changed(&OptionValues { web_browser_access: Some("external"), file_access_policy: Some("always"), ..none() });
    assert_eq!(c.web_browser_access, WebBrowserAccess::OpenInBrowser);
    assert_eq!(c.file_access_policy, FileAccessPolicy::Always);
}

#[test]
fn no_limit_value_overflows_to_default() {
    let mut c = Config::new();
    c.on_options_changed(&OptionValues { max_execution_duration: Some("18446744073709551616"), ..none() });
    assert_eq!(c.max_execution_seconds, 15);
}

#[test]
fn parsing_matches_std() {
    for s in ["0", "7", "+12", "255", "256", "", "+", "-1", " 1", "1 ", "12a", "00042", "18446744073709551615", "18446744073709551616"] {
        assert_eq!(parse_unsigned(s, u64::MAX), s.parse::<u64>().ok(), "{s}");
        assert_eq!(parse_unsigned(s, u8::MAX as u64), s.parse::<u8>().ok().map(u64::from), "{s}");
    }
    assert_eq!(number_option(Some("x"), 100, 5), 5);
    assert_eq!(number_option(None, 100, 5), 5);
    assert_eq!(bool_option(Some("TRUE"), false), false);
    assert_eq!(bool_option(Some("true"), false), true);
}
