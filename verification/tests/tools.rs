use wfhelper::audio::{audio_is_playing, decide_inhibit, InhibitAction};
use wfhelper::inhibit::{inhibition_policies, PMCookies};
use wfhelper::reminder::break_reminder_message;
use wfhelper::strutil::{contains_substr, str_eq};
use wfhelper::usage::{
    format_size, low_unallocated_message, obtain_unallocated, parse_u64_digits,
    unallocated_is_low,
};

#[test]
fn format_size_picks_the_largest_fitting_unit() {
    assert_eq!(format_size(0), "0B");
    assert_eq!(format_size(512), "512B");
    assert_eq!(format_size(1023), "1023B");
    assert_eq!(format_size(1024), "1KB");
    assert_eq!(format_size(1536), "1KB");
    assert_eq!(format_size(1048576), "1MB");
    assert_eq!(format_size(5 * 1024 * 1024), "5MB");
    assert_eq!(format_size(2 * 1024 * 1024 * 1024), "2GB");
    assert_eq!(format_size(3 * 1024 * 1024 * 1024 * 1024), "3TB");
    // Beyond tebibytes the scaling stops at the tebibyte unit.
    assert_eq!(format_size(u64::MAX), "16777215TB");
}

#[test]
fn parse_digits_exactly() {
    assert_eq!(parse_u64_digits("0"), Some(0));
    assert_eq!(parse_u64_digits("123"), Some(123));
    assert_eq!(parse_u64_digits("005"), Some(5));
    assert_eq!(parse_u64_digits(""), None);
    assert_eq!(parse_u64_digits("12a"), None);
    assert_eq!(parse_u64_digits("-5"), None);
    assert_eq!(parse_u64_digits("18446744073709551615"), Some(u64::MAX));
    // One past the largest 64-bit value must be rejected, not wrapped.
    assert_eq!(parse_u64_digits("18446744073709551616"), None);
}

#[test]
fn unallocated_figure_is_read_from_a_usage_report() {
    let report = "Overall:\n    Device size:                 500107862016\n    \
                  Device allocated:            120259084288\n    \
                  Device unallocated:          379848777728\n    \
                  Device missing:                         0\n";
    assert_eq!(obtain_unallocated(report), Some(379848777728));
}

#[test]
fn usage_report_without_the_line_yields_nothing() {
    assert_eq!(obtain_unallocated(""), None);
    assert_eq!(obtain_unallocated("Device allocated: 42"), None);
    assert_eq!(obtain_unallocated("Device unallocated: none"), None);
}

#[test]
fn low_unallocated_boundary() {
    assert!(unallocated_is_low(0));
    assert!(unallocated_is_low(2 * 1024 * 1024 * 1024));
    assert!(!unallocated_is_low(2 * 1024 * 1024 * 1024 + 1));
}

#[test]
fn low_unallocated_warning_text() {
    assert_eq!(
        low_unallocated_message(2 * 1024 * 1024 * 1024),
        "Btrfs device unallocated is low (2GB)"
    );
    assert_eq!(low_unallocated_message(999), "Btrfs device unallocated is low (999B)");
}

#[test]
fn playing_audio_is_detected_by_an_uncorked_stream() {
    let playing = "Sink Input #57\n\tDriver: protocol-native.c\n\tCorked: no\n\tMute: no\n";
    let corked = "Sink Input #57\n\tDriver: protocol-native.c\n\tCorked: yes\n\tMute: no\n";
    assert!(audio_is_playing(playing));
    assert!(!audio_is_playing(corked));
    assert!(!audio_is_playing(""));
}

#[test]
fn inhibit_decision_table() {
    assert_eq!(decide_inhibit(true, false), InhibitAction::Add);
    assert_eq!(decide_inhibit(false, true), InhibitAction::Release);
    assert_eq!(decide_inhibit(true, true), InhibitAction::Keep);
    assert_eq!(decide_inhibit(false, false), InhibitAction::Keep);
}

#[test]
fn cookies_follow_the_inhibition_lifecycle() {
    assert_eq!(inhibition_policies(), vec![1, 2, 4]);

    let mut pm = PMCookies::new();
    assert!(!pm.get_inhibit_status());

    // Releasing with nothing held returns no cookies.
    assert_eq!(pm.release_inhibit(), Vec::<u32>::new());

    pm.add_inhibit(&vec![101, 102, 103]);
    assert!(pm.get_inhibit_status());

    let returned = pm.release_inhibit();
    assert_eq!(returned, vec![101, 102, 103]);
    assert!(!pm.get_inhibit_status());

    // Exactly one release per add: nothing is left afterwards.
    assert_eq!(pm.release_inhibit(), Vec::<u32>::new());
}

#[test]
fn inhibition_summary_is_sorted_and_deduplicated() {
    let apps = vec![
        (String::from("media"), String::from("playback")),
        (String::from("backup"), String::from("running")),
        (String::from("media"), String::from("playback")),
    ];
    let lines = PMCookies::get_inhibitions(&apps);
    assert_eq!(lines, vec!["backup: running", "media: playback"]);

    let none: Vec<(String, String)> = Vec::new();
    assert_eq!(PMCookies::get_inhibitions(&none), Vec::<String>::new());
}

#[test]
fn break_reminder_text_counts_the_minutes() {
    assert_eq!(
        break_reminder_message(25),
        "\u{60a8}\u{5df2}\u{8fde}\u{7eed}\u{6ce8}\u{89c6}\u{5c4f}\u{5e55}25\u{5206}\u{949f}"
    );
}

#[test]
fn string_search_edges() {
    assert!(str_eq("", ""));
    assert!(!str_eq("a", "b"));
    assert!(str_eq("wayland", "wayland"));
    assert!(contains_substr("anything", ""));
    assert!(contains_substr("abc", "abc"));
    assert!(!contains_substr("ab", "abc"));
}
