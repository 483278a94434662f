use status_bar::battery::battery_display;
use status_bar::battery::battery_fetch;
use status_bar::battery::battery_icon;
use status_bar::clock::clock_display;
use status_bar::cycle::CommandRun;
use status_bar::cycle::FetchFailure;
use status_bar::network::network_display;
use status_bar::network::network_fetch;
use status_bar::network::network_from_name;
use status_bar::volume::volume_display;
use status_bar::volume::volume_fetch;
use status_bar::volume::volume_from_capture;
use status_bar::volume::volume_from_level;
use status_bar::volume::volume_icon;

const REPORT: &str = "Simple mixer control 'Master',0\n  Capabilities: pvolume pswitch pswitch-joined\n  Playback channels: Front Left - Front Right\n  Limits: Playback 0 - 65536\n  Mono:\n  Front Left: Playback 26214 [40%] [on]\n  Front Right: Playback 52428 [80%] [on]\n";

#[test]
fn battery_icon_at_bucket_edges() {
    assert_eq!(battery_icon(0), "\u{f06d}");
    assert_eq!(battery_icon(10), "\u{f06d}");
    assert_eq!(battery_icon(11), "\u{f244}");
    assert_eq!(battery_icon(15), "\u{f244}");
    assert_eq!(battery_icon(16), "\u{f243}");
    assert_eq!(battery_icon(50), "\u{f243}");
    assert_eq!(battery_icon(51), "\u{f242}");
    assert_eq!(battery_icon(75), "\u{f242}");
    assert_eq!(battery_icon(76), "\u{f241}");
    assert_eq!(battery_icon(99), "\u{f241}");
    assert_eq!(battery_icon(100), "\u{f240}");
}

#[test]
fn battery_icon_outside_the_range() {
    assert_eq!(battery_icon(-1), "\u{f06d}");
    assert_eq!(battery_icon(101), "\u{f06d}");
    assert_eq!(battery_icon(i32::MIN), "\u{f06d}");
    assert_eq!(battery_icon(i32::MAX), "\u{f06d}");
}

#[test]
fn battery_icon_is_total_over_the_range() {
    let known = ["\u{f06d}", "\u{f244}", "\u{f243}", "\u{f242}", "\u{f241}", "\u{f240}"];
    let mut percentage: i32 = 0;
    while percentage <= 100 {
        let glyph = battery_icon(percentage);
        assert!(known.contains(&glyph));
        assert_eq!(glyph, battery_icon(percentage));
        percentage += 1;
    }
}

#[test]
fn battery_text_discharging() {
    assert_eq!(battery_display(87, "Discharging"), "\u{f241} 87%");
    assert_eq!(battery_display(100, "Full"), "\u{f240} 100%");
    assert_eq!(battery_display(0, ""), "\u{f06d} 0%");
}

#[test]
fn battery_text_charging() {
    assert_eq!(battery_display(42, "Charging"), "\u{f0e7} \u{f243} 42%");
    assert_eq!(battery_display(42, "charging"), "\u{f243} 42%");
    assert_eq!(battery_display(42, "Charging "), "\u{f243} 42%");
}

#[test]
fn battery_text_out_of_range() {
    assert_eq!(battery_display(-5, "Discharging"), "\u{f06d} -5%");
    assert_eq!(battery_display(250, "Charging"), "\u{f0e7} \u{f06d} 250%");
    assert_eq!(
        battery_display(i32::MIN, "Discharging"),
        "\u{f06d} -2147483648%"
    );
}

#[test]
fn battery_fetch_trims_both_files() {
    assert_eq!(
        battery_fetch(Ok(String::from("87\n")), Ok(String::from("Charging\n"))),
        Ok(String::from("\u{f0e7} \u{f241} 87%"))
    );
    assert_eq!(
        battery_fetch(Ok(String::from(" 12 ")), Ok(String::from("Discharging\n"))),
        Ok(String::from("\u{f244} 12%"))
    );
}

#[test]
fn battery_fetch_failures() {
    assert_eq!(
        battery_fetch(Err(FetchFailure::Fatal), Ok(String::from("Charging"))),
        Err(FetchFailure::Fatal)
    );
    assert_eq!(
        battery_fetch(Err(FetchFailure::Transient), Err(FetchFailure::Fatal)),
        Err(FetchFailure::Transient)
    );
    assert_eq!(
        battery_fetch(Ok(String::from("full")), Ok(String::from("Charging"))),
        Err(FetchFailure::Transient)
    );
    assert_eq!(
        battery_fetch(Ok(String::from("")), Err(FetchFailure::Fatal)),
        Err(FetchFailure::Transient)
    );
    assert_eq!(
        battery_fetch(Ok(String::from("99999999999")), Ok(String::from("Charging"))),
        Err(FetchFailure::Transient)
    );
    assert_eq!(
        battery_fetch(Ok(String::from("50")), Err(FetchFailure::Fatal)),
        Err(FetchFailure::Fatal)
    );
    assert_eq!(
        battery_fetch(Ok(String::from("50")), Err(FetchFailure::Transient)),
        Err(FetchFailure::Transient)
    );
}

#[test]
fn volume_icon_at_bucket_edges() {
    assert_eq!(volume_icon(0), "\u{f026}");
    assert_eq!(volume_icon(1), "\u{f027}");
    assert_eq!(volume_icon(75), "\u{f027}");
    assert_eq!(volume_icon(76), "\u{f028}");
    assert_eq!(volume_icon(100), "\u{f028}");
    assert_eq!(volume_icon(101), "\u{f06d}");
    assert_eq!(volume_icon(u32::MAX), "\u{f06d}");
}

#[test]
fn volume_text_from_level() {
    assert_eq!(volume_from_level("40%"), Some(String::from("\u{f027} 40%")));
    assert_eq!(volume_from_level("0%"), Some(String::from("\u{f026} 0%")));
    assert_eq!(volume_from_level("100%"), Some(String::from("\u{f028} 100%")));
    assert_eq!(volume_from_level("153%"), Some(String::from("\u{f06d} 153%")));
    assert_eq!(volume_from_level("007%"), Some(String::from("\u{f027} 007%")));
}

#[test]
fn volume_text_from_malformed_level() {
    assert_eq!(volume_from_level(""), None);
    assert_eq!(volume_from_level("%"), None);
    assert_eq!(volume_from_level("40"), None);
    assert_eq!(volume_from_level("4a%"), None);
    assert_eq!(volume_from_level("-4%"), None);
    assert_eq!(volume_from_level("4294967296%"), None);
    assert_eq!(volume_from_level("٤٠%"), None);
    assert_eq!(
        volume_from_level("4294967295%"),
        Some(String::from("\u{f06d} 4294967295%"))
    );
}

#[test]
fn volume_text_from_capture() {
    assert_eq!(
        volume_from_capture(Some(String::from("76%"))),
        Ok(String::from("\u{f028} 76%"))
    );
    assert_eq!(volume_from_capture(None), Err(FetchFailure::Transient));
    assert_eq!(
        volume_from_capture(Some(String::from("x"))),
        Err(FetchFailure::Transient)
    );
}

#[test]
fn volume_text_from_mixer_report() {
    assert_eq!(volume_display(REPORT), Ok(String::from("\u{f027} 40%")));
    assert_eq!(
        volume_display("Front Left: Playback 0 [0%] [off]"),
        Ok(String::from("\u{f026} 0%"))
    );
    assert_eq!(
        volume_display("x\r\n  Front Left: Playback [80%] [55%]\r\nFront Left: [1%]"),
        Ok(String::from("\u{f028} 80%"))
    );
}

#[test]
fn volume_text_from_bad_report() {
    assert_eq!(volume_display(""), Err(FetchFailure::Transient));
    assert_eq!(
        volume_display("  Front Right: Playback 52428 [80%] [on]\n"),
        Err(FetchFailure::Transient)
    );
    assert_eq!(
        volume_display("  Front Left: Playback 52428 [on]\n  Mono: [40%]\n"),
        Err(FetchFailure::Transient)
    );
    assert_eq!(
        volume_display("[40%]\nFront Left: none\n"),
        Err(FetchFailure::Transient)
    );
    assert_eq!(
        volume_display("Front Left: [99999999999%]"),
        Err(FetchFailure::Transient)
    );
    assert_eq!(
        volume_display("Front Left: [٤٠%]"),
        Err(FetchFailure::Transient)
    );
    assert_eq!(
        volume_display("Front Left: [40 %]"),
        Err(FetchFailure::Transient)
    );
}

#[test]
fn volume_fetch_by_run() {
    assert_eq!(
        volume_fetch(CommandRun::NotStarted, FetchFailure::Transient),
        Err(FetchFailure::Fatal)
    );
    assert_eq!(
        volume_fetch(CommandRun::Failed, FetchFailure::Transient),
        Err(FetchFailure::Transient)
    );
    assert_eq!(
        volume_fetch(CommandRun::Succeeded(String::from(REPORT)), FetchFailure::Transient),
        Ok(String::from("\u{f027} 40%"))
    );
    assert_eq!(
        volume_fetch(CommandRun::Succeeded(String::from("noise")), FetchFailure::Fatal),
        Err(FetchFailure::Transient)
    );
}

#[test]
fn network_text_connected() {
    assert_eq!(network_from_name("home-wifi"), "\u{f1eb} home-wifi");
    assert_eq!(network_display("home-wifi\n"), "\u{f1eb} home-wifi");
    assert_eq!(network_display("  my net \n"), "\u{f1eb} my net");
}

#[test]
fn network_text_disconnected() {
    assert_eq!(network_from_name(""), "\u{f05e}");
    assert_eq!(network_display("\n"), "\u{f05e}");
    assert_eq!(network_display(""), "\u{f05e}");
    assert_eq!(network_display(" \t\r\n"), "\u{f05e}");
}

#[test]
fn network_fetch_by_run() {
    assert_eq!(
        network_fetch(CommandRun::NotStarted, FetchFailure::Fatal),
        Err(FetchFailure::Fatal)
    );
    assert_eq!(
        network_fetch(CommandRun::Failed, FetchFailure::Fatal),
        Err(FetchFailure::Fatal)
    );
    assert_eq!(
        network_fetch(CommandRun::Failed, FetchFailure::Transient),
        Err(FetchFailure::Transient)
    );
    assert_eq!(
        network_fetch(CommandRun::Succeeded(String::from("cafe\n")), FetchFailure::Fatal),
        Ok(String::from("\u{f1eb} cafe"))
    );
}

#[test]
fn clock_text_has_the_clock_form() {
    let text = clock_display();
    assert_eq!(text.chars().count(), 19);
    assert_eq!(text.len(), 19);
    let days = ["Sun", "Mon", "Tue", "Wed", "Thu", "Fri", "Sat"];
    let months = [
        "Jan", "Feb", "Mar", "Apr", "May", "Jun", "Jul", "Aug", "Sep", "Oct", "Nov", "Dec",
    ];
    assert!(days.contains(&&text[0..3]));
    assert_eq!(&text[3..4], " ");
    assert!(months.contains(&&text[7..10]));
    assert_eq!(&text[6..7], " ");
    assert_eq!(&text[10..11], " ");
    assert_eq!(&text[13..14], ":");
    assert_eq!(&text[16..17], ":");
    let fields = [(4, 1, 31), (11, 0, 23), (14, 0, 59), (17, 0, 60)];
    for (at, low, high) in fields {
        let digits = &text[at..at + 2];
        assert!(digits.bytes().all(|b| b.is_ascii_digit()));
        let number = digits.parse::<u32>().unwrap();
        assert!(low <= number && number <= high);
    }
}
