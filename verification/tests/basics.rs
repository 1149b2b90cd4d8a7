use airlink::capture::{choose_input_device, pulse_default_source_name, InputChoice};
use airlink::clock::{clock_millis, millis_at, now_ms};
use airlink::level::{Level, Seconds};
use airlink::text::{
    begins_with, chars_of, is_white_space, join, lists, lower_chars, occurs, same_text, trim,
};
use airlink::web::{https_url, local_lan_ip};

fn names(list: &[&str]) -> Vec<String> {
    list.iter().map(|s| s.to_string()).collect()
}

#[test]
fn clamping_agrees_with_the_numbers() {
    let mut bits: u32 = 0;
    loop {
        let f = f32::from_bits(bits);
        let held = Level { bits }.clamp();
        assert_eq!(held.bits, f.clamp(0.0, 2.0).to_bits(), "{}", f);
        assert_eq!(Level { bits }.is_inaudible(), f <= 0.0, "{}", f);
        match bits.checked_add(65_521) {
            Some(b) => bits = b,
            None => break,
        }
    }
    for f in [0.0f32, -0.0, 2.0, 2.0000002, 1.9999999, f32::INFINITY, f32::NEG_INFINITY, f32::NAN, -f32::NAN, f32::MIN_POSITIVE, -f32::MIN_POSITIVE] {
        let level = Level { bits: f.to_bits() };
        assert_eq!(level.clamp().bits, f.clamp(0.0, 2.0).to_bits());
        assert_eq!(level.clamp().clamp(), level.clamp());
        assert_eq!(level.is_inaudible(), f <= 0.0);
    }
    assert_eq!(Level::unity().bits, 1.0f32.to_bits());
}

#[test]
fn times_count_from_the_start() {
    for t in [0.0f64, 1.5, 1e300, f64::INFINITY, f64::MIN_POSITIVE, 5e-324] {
        assert_eq!(Seconds { bits: t.to_bits() }.not_negative().bits, t.max(0.0).to_bits());
    }
    for t in [-1.0f64, -0.0, f64::NEG_INFINITY, f64::NAN, -f64::NAN, -5e-324] {
        assert_eq!(Seconds { bits: t.to_bits() }.not_negative(), Seconds::zero());
        assert_eq!(t.max(0.0), 0.0);
    }
    assert_eq!(Seconds::zero().bits, 0.0f64.to_bits());
}

#[test]
fn clock_counts_milliseconds() {
    assert_eq!(clock_millis(None), 0);
    assert_eq!(clock_millis(Some(12)), 12);
    assert_eq!(clock_millis(Some(u64::MAX as u128)), u64::MAX);
    assert_eq!(clock_millis(Some(u64::MAX as u128 + 6)), 5);
    let start = std::time::SystemTime::UNIX_EPOCH;
    let later = start + std::time::Duration::from_micros(1_234_567);
    assert_eq!(millis_at(later), 1_234);
    assert_eq!(millis_at(start), 0);
    assert_eq!(millis_at(start - std::time::Duration::from_secs(5)), 0);
    let a = now_ms();
    let b = now_ms();
    assert!(a > 1_600_000_000_000);
    assert!(b < a + 60_000);
}

#[test]
fn texts_are_compared() {
    assert!(same_text("ab", "ab"));
    assert!(!same_text("ab", "aB"));
    assert!(same_text("", ""));
    assert!(begins_with("/sender/x", "/sender"));
    assert!(begins_with("x", ""));
    assert!(!begins_with("/send", "/sender"));
    assert!(!begins_with("a/sender", "/sender"));
    assert_eq!(chars_of("aé"), vec!['a', 'é']);
    assert_eq!(join("a", "é"), "aé");
    assert!(lists(&names(&["a", "b"]), "b"));
    assert!(!lists(&names(&["a", "b"]), "c"));
}

#[test]
fn words_are_found() {
    let hay = lower_chars("ALSA Monitor Ünit");
    let text: String = hay.iter().collect();
    assert_eq!(text, "ALSA Monitor Ünit".to_ascii_lowercase());
    assert!(occurs(&chars_of("monitor"), &hay));
    assert!(occurs(&chars_of(""), &hay));
    assert!(occurs(&chars_of("Ünit"), &hay));
    assert!(!occurs(&chars_of("monitors"), &hay));
    assert!(occurs(&chars_of("aab"), &chars_of("aaab")));
    assert!(occurs(&chars_of(""), &chars_of("")));
    assert!(!occurs(&chars_of("a"), &chars_of("")));
}

#[test]
fn white_space_agrees_with_the_characters() {
    for n in 0..=0x10ffffu32 {
        if let Some(c) = char::from_u32(n) {
            assert_eq!(is_white_space(c), c.is_whitespace(), "{:x}", n);
        }
    }
    for s in ["", " ", "a", " a ", "\t\n a b \u{3000}", "\u{200b}a\u{200b}", "a\u{85}", "   "] {
        assert_eq!(trim(s), s.trim());
    }
}

#[test]
fn default_source_is_read_from_the_command() {
    let read = |ok: bool, s: &[u8]| pulse_default_source_name(ok, s.to_vec());
    assert_eq!(read(true, b"alsa_output.monitor\n"), Some("alsa_output.monitor".to_string()));
    assert_eq!(read(true, "  \u{e9}t\u{e9} \n".as_bytes()), Some("\u{e9}t\u{e9}".to_string()));
    assert_eq!(read(true, b" \n"), None);
    assert_eq!(read(true, b""), None);
    assert_eq!(read(true, &[0xff, 0xfe]), None);
    assert_eq!(read(false, b"alsa"), None);
}

#[test]
fn input_device_is_chosen_by_name() {
    let list = names(&["Mic", "HDMI MONITOR", "Alsa.Out Card", "monitor 2"]);
    let source = |s: &str| Some(s.to_string());
    assert_eq!(choose_input_device(&list, &source("ALSA.out")), InputChoice::Listed(2));
    assert_eq!(choose_input_device(&list, &source("nowhere")), InputChoice::Listed(1));
    assert_eq!(choose_input_device(&list, &None), InputChoice::Listed(1));
    assert_eq!(choose_input_device(&names(&["Mic"]), &source("x")), InputChoice::Default);
    assert_eq!(choose_input_device(&names(&["Mic"]), &None), InputChoice::Default);
    assert_eq!(choose_input_device(&vec![], &source("x")), InputChoice::NoDevices);
    assert_eq!(choose_input_device(&vec![], &None), InputChoice::NoDevices);
}

#[test]
fn plain_addresses_lead_to_https() {
    let some = |s: &str| Some(s.to_string());
    assert_eq!(https_url(some("hub.lan"), some("/a?b=1")), "https://hub.lan/a?b=1");
    assert_eq!(https_url(None, some("/a")), "https://airlink.y4z.dev/a");
    assert_eq!(https_url(some("hub.lan"), None), "https://hub.lan/");
    assert_eq!(local_lan_ip(None), "127.0.0.1");
    assert_eq!(local_lan_ip(some("192.168.1.4")), "192.168.1.4");
}
