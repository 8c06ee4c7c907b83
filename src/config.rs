//! The core's options and their defaults.
use vstd::prelude::*;
use crate::negotiation::same_text;

verus! {

/// What to do when a movie opens a `file://` URL.
#[derive(Clone, Copy, Debug, PartialEq, Eq, Structural)]
pub enum FileAccessPolicy {
    Never,
    Notify,
    Always,
}

/// What to do when a movie navigates the browser.
#[derive(Clone, Copy, Debug, PartialEq, Eq, Structural)]
pub enum WebBrowserAccess {
    Ignore,
    Notify,
    OpenInBrowser,
}

/// When the content is letterboxed.
#[derive(Clone, Copy, Debug, PartialEq, Eq, Structural)]
pub enum Letterbox {
    Off,
    Fullscreen,
    On,
}

/// How the root movie is loaded.
#[derive(Clone, Copy, Debug, PartialEq, Eq, Structural)]
pub enum LoadBehavior {
    Streaming,
    Blocking,
    Delayed,
}

pub const DEFAULT_AUTOPLAY: bool = true;
pub const DEFAULT_LETTERBOX: Letterbox = Letterbox::Fullscreen;
pub const DEFAULT_MAX_EXECUTION_SECONDS: u64 = 15;
pub const DEFAULT_MSAA: u8 = 0;
pub const DEFAULT_WARN_ON_UNSUPPORTED_CONTENT: bool = true;
pub const DEFAULT_LOAD_BEHAVIOR: LoadBehavior = LoadBehavior::Streaming;
pub const DEFAULT_FILE_ACCESS_POLICY: FileAccessPolicy = FileAccessPolicy::Never;
pub const DEFAULT_WEB_BROWSER_ACCESS: WebBrowserAccess = WebBrowserAccess::Ignore;
pub const DEFAULT_SAMPLE_RATE: u32 = 44100;
pub const DEFAULT_UPGRADE_TO_HTTPS: bool = true;

/// The core's configuration.
#[derive(Clone, Debug)]
pub struct Config {
    pub autoplay: bool,
    pub letterbox: Letterbox,
    pub max_execution_seconds: u64,
    pub warn_on_unsupported_content: bool,
    pub load_behavior: LoadBehavior,
    pub file_access_policy: FileAccessPolicy,
    pub web_browser_access: WebBrowserAccess,
    pub spoofed_url: Option<String>,
    pub sample_rate: u32,
    pub msaa: u8,
    pub upgrade_to_https: bool,
}

impl Config {
    /// The defaults.
    pub fn new() -> (r: Config)
        ensures
            r.autoplay == DEFAULT_AUTOPLAY,
            r.letterbox == DEFAULT_LETTERBOX,
            r.max_execution_seconds == DEFAULT_MAX_EXECUTION_SECONDS,
            r.warn_on_unsupported_content == DEFAULT_WARN_ON_UNSUPPORTED_CONTENT,
            r.load_behavior == DEFAULT_LOAD_BEHAVIOR,
            r.file_access_policy == DEFAULT_FILE_ACCESS_POLICY,
            r.web_browser_access == DEFAULT_WEB_BROWSER_ACCESS,
            r.spoofed_url is None,
            r.sample_rate == DEFAULT_SAMPLE_RATE,
            r.msaa == DEFAULT_MSAA,
            r.upgrade_to_https == DEFAULT_UPGRADE_TO_HTTPS,
    {
        Config {
            autoplay: DEFAULT_AUTOPLAY,
            letterbox: DEFAULT_LETTERBOX,
            max_execution_seconds: DEFAULT_MAX_EXECUTION_SECONDS,
            warn_on_unsupported_content: DEFAULT_WARN_ON_UNSUPPORTED_CONTENT,
            load_behavior: DEFAULT_LOAD_BEHAVIOR,
            file_access_policy: DEFAULT_FILE_ACCESS_POLICY,
            web_browser_access: DEFAULT_WEB_BROWSER_ACCESS,
            spoofed_url: None,
            sample_rate: DEFAULT_SAMPLE_RATE,
            msaa: DEFAULT_MSAA,
            upgrade_to_https: DEFAULT_UPGRADE_TO_HTTPS,
        }
    }
}

/// Whether a character is an ASCII digit.
pub open spec fn is_digit(c: char) -> bool {
    '0' <= c <= '9'
}

/// The value of a digit.
pub open spec fn digit_value(c: char) -> nat {
    (c as u32 - '0' as u32) as nat
}

/// The value of a string of digits.
pub open spec fn digits_value(s: Seq<char>) -> nat
    decreases s.len(),
{
    if s.len() == 0 {
        0
    } else {
        digits_value(s.drop_last()) * 10 + digit_value(s.last())
    }
}

pub open spec fn all_digits(s: Seq<char>) -> bool {
    forall|i: int| 0 <= i < s.len() ==> is_digit(#[trigger] s[i])
}

/// The digits of a decimal numeral: an optional `+` followed by at least one digit.
pub open spec fn numeral_digits(s: Seq<char>) -> Seq<char> {
    if s.len() > 0 && s[0] == '+' {
        s.drop_first()
    } else {
        s
    }
}

/// The unsigned integer a string denotes, as `str::parse` reads one: an
/// optional `+` and one or more ASCII digits, nothing else.
pub open spec fn numeral_value(s: Seq<char>) -> Option<nat> {
    let d = numeral_digits(s);
    if d.len() > 0 && all_digits(d) {
        Some(digits_value(d))
    } else {
        None
    }
}

proof fn lemma_prefix_value_le(s: Seq<char>, i: int)
    requires
        0 <= i <= s.len(),
        all_digits(s),
    ensures
        digits_value(s.subrange(0, i)) <= digits_value(s),
    decreases s.len(),
{
    if i < s.len() {
        let t = s.drop_last();
        assert(t.subrange(0, i) =~= s.subrange(0, i));
        assert(all_digits(t)) by {
            assert forall|k: int| 0 <= k < t.len() implies is_digit(#[trigger] t[k]) by {
                assert(t[k] == s[k]);
            }
        }
        lemma_prefix_value_le(t, i);
    } else {
        assert(s.subrange(0, i) =~= s);
    }
}

/// Reads an unsigned integer no larger than `max`, as `str::parse` does for
/// an unsigned type whose largest value is `max`.
pub fn parse_unsigned(s: &str, max: u64) -> (r: Option<u64>)
    ensures
        r == match numeral_value(s@) {
            Some(v) => if v <= max {
                Some(v as u64)
            } else {
                None::<u64>
            },
            None => None::<u64>,
        },
{
    let n = s.unicode_len();
    let start: usize = if n > 0 && s.get_char(0) == '+' {
        1
    } else {
        0
    };
    if start >= n {
        assert(numeral_digits(s@).len() == 0);
        return None;
    }
    let ghost d = numeral_digits(s@);
    assert(d =~= s@.subrange(start as int, n as int));
    let mut acc: u64 = 0;
    let mut i: usize = start;
    while i < n
        invariant
            n == s@.len(),
            start <= i <= n,
            start < n,
            d =~= s@.subrange(start as int, n as int),
            d == numeral_digits(s@),
            forall|k: int| start <= k < i ==> is_digit(#[trigger] s@[k]),
            acc == digits_value(s@.subrange(start as int, i as int)),
            acc <= max,
        decreases n - i,
    {
        let c = s.get_char(i);
        if c < '0' || c > '9' {
            assert(d[i - start] == s@[i as int]);
            assert(!is_digit(d[i - start]));
            assert(!all_digits(d));
            return None;
        }
        let v = (c as u32 - '0' as u32) as u64;
        let ghost prev = s@.subrange(start as int, i as int);
        let ghost next = s@.subrange(start as int, i + 1);
        assert(next.drop_last() =~= prev);
        assert(next.last() == c);
        let wide: u128 = (acc as u128) * 10 + (v as u128);
        if wide > max as u128 {
            proof {
                assert(digits_value(next) == acc * 10 + v);
                if exists|k: int| i < k < n && !is_digit(s@[k]) {
                    let k = choose|k: int| i < k < n && !is_digit(s@[k]);
                    assert(d[k - start] == s@[k]);
                    assert(!is_digit(d[k - start]));
                    assert(!all_digits(d));
                } else {
                    assert(all_digits(d)) by {
                        assert forall|k: int| 0 <= k < d.len() implies is_digit(#[trigger] d[k]) by {
                            assert(d[k] == s@[k + start]);
                            if k + start > i {
                                assert(is_digit(s@[k + start]));
                            }
                        }
                    }
                    lemma_prefix_value_le(d, i + 1 - start);
                    assert(d.subrange(0, i + 1 - start) =~= next);
                    assert(digits_value(d) > max);
                }
            }
            return None;
        }
        acc = wide as u64;
        i = i + 1;
    }
    assert(s@.subrange(start as int, n as int) =~= d);
    assert(all_digits(d)) by {
        assert forall|k: int| 0 <= k < d.len() implies is_digit(#[trigger] d[k]) by {
            assert(d[k] == s@[k + start]);
        }
    }
    Some(acc)
}

pub const OPTION_AUTOPLAY: &'static str = "ruffle_autoplay";
pub const OPTION_LETTERBOX: &'static str = "ruffle_letterbox";
pub const OPTION_MAX_EXECUTION_DURATION: &'static str = "ruffle_max_execution_duration";
pub const OPTION_MSAA: &'static str = "ruffle_msaa";
pub const OPTION_WARN_ON_UNSUPPORTED_CONTENT: &'static str = "ruffle_warn_on_unsupported_content";
pub const OPTION_FILE_ACCESS_POLICY: &'static str = "ruffle_file_access_policy";
pub const OPTION_WEB_BROWSER_ACCESS: &'static str = "ruffle_web_browser_access";
pub const OPTION_AUDIO_SAMPLE_RATE: &'static str = "ruffle_audio_sample_rate";
pub const OPTION_LOAD_BEHAVIOR: &'static str = "ruffle_load_behavior";

/// The values the host holds for the core's options; `None` where it has none.
pub struct OptionValues<'a> {
    pub autoplay: Option<&'a str>,
    pub letterbox: Option<&'a str>,
    pub max_execution_duration: Option<&'a str>,
    pub msaa: Option<&'a str>,
    pub warn_on_unsupported_content: Option<&'a str>,
    pub file_access_policy: Option<&'a str>,
    pub web_browser_access: Option<&'a str>,
    pub audio_sample_rate: Option<&'a str>,
    pub load_behavior: Option<&'a str>,
}

/// Whether an option holds exactly this text.
pub open spec fn holds(value: Option<&str>, text: &str) -> bool {
    match value {
        Some(v) => v@ == text@,
        None => false,
    }
}

pub open spec fn bool_of(value: Option<&str>, default: bool) -> bool {
    if holds(value, "true") {
        true
    } else if holds(value, "false") {
        false
    } else {
        default
    }
}

pub open spec fn letterbox_of(value: Option<&str>) -> Letterbox {
    if holds(value, "off") {
        Letterbox::Off
    } else if holds(value, "fullscreen") {
        Letterbox::Fullscreen
    } else if holds(value, "on") {
        Letterbox::On
    } else {
        DEFAULT_LETTERBOX
    }
}

pub open spec fn file_access_of(value: Option<&str>) -> FileAccessPolicy {
    if holds(value, "never") {
        FileAccessPolicy::Never
    } else if holds(value, "notify") {
        FileAccessPolicy::Notify
    } else if holds(value, "always") {
        FileAccessPolicy::Always
    } else {
        DEFAULT_FILE_ACCESS_POLICY
    }
}

pub open spec fn web_browser_of(value: Option<&str>) -> WebBrowserAccess {
    if holds(value, "off") {
        WebBrowserAccess::Ignore
    } else if holds(value, "off-notify") {
        WebBrowserAccess::Notify
    } else if holds(value, "external") {
        WebBrowserAccess::OpenInBrowser
    } else {
        DEFAULT_WEB_BROWSER_ACCESS
    }
}

pub open spec fn load_behavior_of(value: Option<&str>) -> LoadBehavior {
    if holds(value, "streaming") {
        LoadBehavior::Streaming
    } else if holds(value, "blocking") {
        LoadBehavior::Blocking
    } else if holds(value, "delayed") {
        LoadBehavior::Delayed
    } else {
        DEFAULT_LOAD_BEHAVIOR
    }
}

/// The number an option holds, if it is one no larger than `max`, else the default.
pub open spec fn number_of(value: Option<&str>, max: u64, default: u64) -> u64 {
    match value {
        Some(v) => match numeral_value(v@) {
            Some(n) => if n <= max {
                n as u64
            } else {
                default
            },
            None => default,
        },
        None => default,
    }
}

fn option_is(value: Option<&str>, text: &str) -> (r: bool)
    ensures
        r == holds(value, text),
{
    match value {
        Some(v) => same_text(v, text),
        None => false,
    }
}

/// Reads a `true`/`false` option.
pub fn bool_option(value: Option<&str>, default: bool) -> (r: bool)
    ensures
        r == bool_of(value, default),
{
    if option_is(value, "true") {
        true
    } else if option_is(value, "false") {
        false
    } else {
        default
    }
}

/// Reads the letterbox option.
pub fn letterbox_option(value: Option<&str>) -> (r: Letterbox)
    ensures
        r == letterbox_of(value),
{
    if option_is(value, "off") {
        Letterbox::Off
    } else if option_is(value, "fullscreen") {
        Letterbox::Fullscreen
    } else if option_is(value, "on") {
        Letterbox::On
    } else {
        DEFAULT_LETTERBOX
    }
}

/// Reads the `file://` policy option.
pub fn file_access_option(value: Option<&str>) -> (r: FileAccessPolicy)
    ensures
        r == file_access_of(value),
{
    if option_is(value, "never") {
        FileAccessPolicy::Never
    } else if option_is(value, "notify") {
        FileAccessPolicy::Notify
    } else if option_is(value, "always") {
        FileAccessPolicy::Always
    } else {
        DEFAULT_FILE_ACCESS_POLICY
    }
}

/// Reads the browser access option.
pub fn web_browser_option(value: Option<&str>) -> (r: WebBrowserAccess)
    ensures
        r == web_browser_of(value),
{
    if option_is(value, "off") {
        WebBrowserAccess::Ignore
    } else if option_is(value, "off-notify") {
        WebBrowserAccess::Notify
    } else if option_is(value, "external") {
        WebBrowserAccess::OpenInBrowser
    } else {
        DEFAULT_WEB_BROWSER_ACCESS
    }
}

/// Reads the load behavior option.
pub fn load_behavior_option(value: Option<&str>) -> (r: LoadBehavior)
    ensures
        r == load_behavior_of(value),
{
    if option_is(value, "streaming") {
        LoadBehavior::Streaming
    } else if option_is(value, "blocking") {
        LoadBehavior::Blocking
    } else if option_is(value, "delayed") {
        LoadBehavior::Delayed
    } else {
        DEFAULT_LOAD_BEHAVIOR
    }
}

/// Reads a numeric option no larger than `max`.
pub fn number_option(value: Option<&str>, max: u64, default: u64) -> (r: u64)
    ensures
        r == number_of(value, max, default),
{
    match value {
        Some(v) => match parse_unsigned(v, max) {
            Some(n) => n,
            None => default,
        },
        None => default,
    }
}

impl Config {
    /// Takes the host's option values; an option without a value the core
    /// knows falls back to its default. The spoofed URL and the HTTPS upgrade
    /// are not options and stay.
    pub fn on_options_changed(&mut self, values: &OptionValues)
        ensures
            final(self).autoplay == bool_of(values.autoplay, DEFAULT_AUTOPLAY),
            final(self).letterbox == letterbox_of(values.letterbox),
            final(self).max_execution_seconds == number_of(values.max_execution_duration, u64::MAX, DEFAULT_MAX_EXECUTION_SECONDS),
            final(self).msaa as u64 == number_of(values.msaa, u8::MAX as u64, DEFAULT_MSAA as u64),
            final(self).warn_on_unsupported_content == bool_of(values.warn_on_unsupported_content, DEFAULT_WARN_ON_UNSUPPORTED_CONTENT),
            final(self).file_access_policy == file_access_of(values.file_access_policy),
            final(self).web_browser_access == web_browser_of(values.web_browser_access),
            final(self).sample_rate as u64 == number_of(values.audio_sample_rate, u32::MAX as u64, DEFAULT_SAMPLE_RATE as u64),
            final(self).load_behavior == load_behavior_of(values.load_behavior),
            final(self).spoofed_url == old(self).spoofed_url,
            final(self).upgrade_to_https == old(self).upgrade_to_https,
    {
        self.autoplay = bool_option(values.autoplay, DEFAULT_AUTOPLAY);
        self.letterbox = letterbox_option(values.letterbox);
        self.max_execution_seconds = number_option(values.max_execution_duration, u64::MAX, DEFAULT_MAX_EXECUTION_SECONDS);
        self.msaa = number_option(values.msaa, u8::MAX as u64, DEFAULT_MSAA as u64) as u8;
        self.warn_on_unsupported_content = bool_option(values.warn_on_unsupported_content, DEFAULT_WARN_ON_UNSUPPORTED_CONTENT);
        self.file_access_policy = file_access_option(values.file_access_policy);
        self.web_browser_access = web_browser_option(values.web_browser_access);
        self.sample_rate = number_option(values.audio_sample_rate, u32::MAX as u64, DEFAULT_SAMPLE_RATE as u64) as u32;
        self.load_behavior = load_behavior_option(values.load_behavior);
    }
}

} // verus!
