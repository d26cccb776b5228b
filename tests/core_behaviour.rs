use wind_applet::applet::{
    icon_for_hour, Effect, Message, Persist, PopupCommand, SkyIcon, Weather, TICK_INTERVAL_SECS,
};
use wind_applet::observation::{
    observation_from_entries, observation_from_fetch, push_decimal, wind_details,
    wind_details_given_blank, FetchFailure, ObservationData, ObservationEntry,
};

fn obs(dir: &str, speed: Option<i32>, gust: Option<i32>) -> ObservationData {
    ObservationData { wind_dir: dir.to_string(), wind_spd_kt: speed, gust_kt: gust }
}

fn fresh_state() -> Weather {
    let (w, first) = Weather::init("-33.86".to_string(), "151.2".to_string(), false);
    assert!(matches!(first, Message::Tick));
    w
}

fn is_no_data(o: &ObservationData) -> bool {
    o.wind_dir.is_empty() && o.wind_spd_kt.is_none() && o.gust_kt.is_none()
}

#[test]
fn transport_failure_gives_no_data() {
    let o = observation_from_fetch(Err(FetchFailure::Transport));
    assert!(is_no_data(&o));
}

#[test]
fn decode_failure_gives_no_data() {
    let o = observation_from_fetch(Err(FetchFailure::Decode));
    assert!(is_no_data(&o));
}

#[test]
fn empty_observation_list_gives_no_data() {
    let o = observation_from_fetch(Ok(Vec::new()));
    assert!(is_no_data(&o));
}

#[test]
fn decoded_entry_becomes_observation() {
    let entry = ObservationEntry {
        wind_dir: Some("N".to_string()),
        wind_spd_kt: Some(12),
        gust_kt: Some(18),
    };
    let o = observation_from_fetch(Ok(vec![entry]));
    assert_eq!(o.wind_dir, "N");
    assert_eq!(o.wind_spd_kt, Some(12));
    assert_eq!(o.gust_kt, Some(18));
}

#[test]
fn only_first_entry_is_consulted() {
    let first = ObservationEntry { wind_dir: None, wind_spd_kt: Some(5), gust_kt: None };
    let second = ObservationEntry {
        wind_dir: Some("SW".to_string()),
        wind_spd_kt: Some(20),
        gust_kt: Some(30),
    };
    let o = observation_from_entries(vec![first, second]);
    assert_eq!(o.wind_dir, "");
    assert_eq!(o.wind_spd_kt, Some(5));
    assert_eq!(o.gust_kt, None);
}

#[test]
fn wind_text_speed_and_gust() {
    assert_eq!(wind_details(&obs("N", Some(12), Some(18))), "N 12kt gust 18kt");
}

#[test]
fn wind_text_speed_only() {
    assert_eq!(wind_details(&obs("N", Some(12), None)), "N 12kt");
}

#[test]
fn wind_text_gust_only() {
    assert_eq!(wind_details(&obs("N", None, Some(18))), "N gust 18kt");
}

#[test]
fn wind_text_direction_only() {
    assert_eq!(wind_details(&obs("N", None, None)), "N");
}

#[test]
fn wind_text_empty_direction_shows_dash() {
    assert_eq!(wind_details(&obs("", Some(12), Some(18))), "- 12kt gust 18kt");
    assert_eq!(wind_details(&obs("", None, None)), "-");
}

#[test]
fn wind_text_blank_direction_shows_dash() {
    assert_eq!(wind_details(&obs("  \t", Some(7), None)), "- 7kt");
}

#[test]
fn wind_text_keeps_direction_untrimmed() {
    assert_eq!(wind_details(&obs(" NE", None, None)), " NE");
}

#[test]
fn wind_text_extreme_numbers() {
    assert_eq!(wind_details(&obs("E", Some(0), Some(-5))), "E 0kt gust -5kt");
    assert_eq!(
        wind_details(&obs("E", Some(i32::MAX), Some(i32::MIN))),
        "E 2147483647kt gust -2147483648kt"
    );
}

#[test]
fn decimal_text_matches_std() {
    for v in [0, 9, 10, 99, 100, 12345, -1, -10, i32::MAX, i32::MIN] {
        let mut s = String::from("x");
        push_decimal(&mut s, v);
        assert_eq!(s, format!("x{v}"));
    }
}

#[test]
fn format_wind_details_uses_current_observation() {
    let mut w = fresh_state();
    assert_eq!(w.format_wind_details(), "-");
    w.update(Message::UpdateObservation(obs("SSE", Some(3), Some(9))));
    assert_eq!(w.format_wind_details(), "SSE 3kt gust 9kt");
}

#[test]
fn init_starts_closed_with_no_data() {
    let w = fresh_state();
    assert_eq!(w.popup, None);
    assert!(is_no_data(&w.observation));
    assert_eq!(w.latitude, "-33.86");
    assert_eq!(w.longitude, "151.2");
    assert!(!w.use_fahrenheit);
}

#[test]
fn stale_close_is_ignored() {
    let mut w = fresh_state();
    let eff = w.update(Message::ToggleWindow);
    let h = match eff.popup {
        PopupCommand::Open(h) => h,
        other => panic!("expected an open request, got {other:?}"),
    };
    assert_eq!(w.popup, Some(h));
    w.update(Message::PopupClosed(h.wrapping_add(1000)));
    assert_eq!(w.popup, Some(h));
    w.update(Message::PopupClosed(h));
    assert_eq!(w.popup, None);
    let eff = w.update(Message::PopupClosed(h));
    assert_eq!(w.popup, None);
    assert_eq!(eff.popup, PopupCommand::Unchanged);
}

#[test]
fn toggle_opens_then_destroys() {
    let mut w = fresh_state();
    let first = w.update(Message::ToggleWindow);
    let h = match first.popup {
        PopupCommand::Open(h) => h,
        other => panic!("expected an open request, got {other:?}"),
    };
    let second = w.update(Message::ToggleWindow);
    assert_eq!(second.popup, PopupCommand::Destroy(h));
    assert_eq!(w.popup, None);
    let third = w.update(Message::ToggleWindow);
    match third.popup {
        PopupCommand::Open(h2) => assert_ne!(h2, h),
        other => panic!("expected an open request, got {other:?}"),
    }
}

#[test]
fn old_handle_does_not_close_new_popup() {
    let mut w = fresh_state();
    w.update(Message::ToggleWindow);
    let h1 = w.popup.unwrap();
    w.update(Message::ToggleWindow);
    w.update(Message::ToggleWindow);
    let h2 = w.popup.unwrap();
    w.update(Message::PopupClosed(h1));
    assert_eq!(w.popup, Some(h2));
}

#[test]
fn non_numeric_latitude_is_kept_and_fetches_once() {
    let mut w = fresh_state();
    let eff = w.update(Message::UpdateLatitude("abc".to_string()));
    assert_eq!(w.latitude, "abc");
    assert!(eff.fetch);
    match eff.persist {
        Some(Persist::Latitude(t)) => assert_eq!(t, "abc"),
        other => panic!("expected a latitude write, got {other:?}"),
    }
}

#[test]
fn longitude_edit_persists_and_fetches() {
    let mut w = fresh_state();
    let eff = w.update(Message::UpdateLongitude("150.5".to_string()));
    assert_eq!(w.longitude, "150.5");
    assert_eq!(w.latitude, "-33.86");
    assert!(eff.fetch);
    assert!(matches!(eff.persist, Some(Persist::Longitude(ref t)) if t == "150.5"));
}

#[test]
fn every_setting_edit_hands_over_a_commit() {
    let mut w = fresh_state();
    let eff = w.update(Message::UpdateLatitude("1.5".to_string()));
    assert!(eff.fetch);
    assert!(matches!(eff.persist, Some(Persist::Latitude(ref t)) if t == "1.5"));
    assert_eq!(w.latitude, "1.5");
    let eff = w.update(Message::ToggleFahrenheit(false));
    assert!(matches!(eff.persist, Some(Persist::UseFahrenheit(false))));
    assert!(!w.use_fahrenheit);
}

#[test]
fn wind_text_unicode_white_space_is_blank() {
    assert_eq!(wind_details(&obs("\u{3000}\u{a0}\u{2029}", None, Some(4))), "- gust 4kt");
}

#[test]
fn wind_text_zero_width_space_is_not_blank() {
    assert_eq!(wind_details(&obs("\u{200b}", None, None)), "\u{200b}");
}

#[test]
fn wind_text_given_blank_flag() {
    let o = obs("NNW", Some(12), Some(18));
    assert_eq!(wind_details_given_blank(&o, true), "- 12kt gust 18kt");
    assert_eq!(wind_details_given_blank(&o, false), "NNW 12kt gust 18kt");
    let empty = obs("", None, Some(2));
    assert_eq!(wind_details_given_blank(&empty, true), "- gust 2kt");
}

#[test]
fn fahrenheit_toggle_persists_without_fetch() {
    let mut w = fresh_state();
    let eff = w.update(Message::ToggleFahrenheit(true));
    assert!(w.use_fahrenheit);
    assert!(!eff.fetch);
    assert!(matches!(eff.persist, Some(Persist::UseFahrenheit(true))));
}

#[test]
fn fetch_scheduling_per_event() {
    let cases: Vec<(Message, bool)> = vec![
        (Message::Tick, true),
        (Message::UpdateLatitude("1".to_string()), true),
        (Message::UpdateLongitude("2".to_string()), true),
        (Message::ToggleFahrenheit(true), false),
        (Message::PopupClosed(0), false),
        (Message::ToggleWindow, false),
        (Message::UpdateObservation(obs("N", None, None)), false),
    ];
    for (msg, expected) in cases {
        let mut w = fresh_state();
        let eff: Effect = w.update(msg);
        assert_eq!(eff.fetch, expected);
    }
}

#[test]
fn tick_changes_nothing_but_fetches() {
    let mut w = fresh_state();
    let eff = w.update(Message::Tick);
    assert!(eff.fetch);
    assert!(eff.persist.is_none());
    assert_eq!(eff.popup, PopupCommand::Unchanged);
    assert_eq!(w.popup, None);
    assert_eq!(w.latitude, "-33.86");
}

#[test]
fn observation_is_replaced_wholesale() {
    let mut w = fresh_state();
    w.update(Message::UpdateObservation(obs("N", Some(12), Some(18))));
    w.update(Message::UpdateObservation(obs("W", None, None)));
    assert_eq!(w.observation.wind_dir, "W");
    assert_eq!(w.observation.wind_spd_kt, None);
    assert_eq!(w.observation.gust_kt, None);
}

#[test]
fn icon_by_hour() {
    assert_eq!(icon_for_hour(0), SkyIcon::Moon);
    assert_eq!(icon_for_hour(5), SkyIcon::Moon);
    assert_eq!(icon_for_hour(6), SkyIcon::Sun);
    assert_eq!(icon_for_hour(17), SkyIcon::Sun);
    assert_eq!(icon_for_hour(18), SkyIcon::Moon);
    assert_eq!(icon_for_hour(23), SkyIcon::Moon);
}

#[test]
fn refresh_interval_is_a_minute() {
    assert_eq!(TICK_INTERVAL_SECS, 60);
}
