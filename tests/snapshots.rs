use appearance_watch::appearance::{Appearance, Change, ColorSchemeKind, ContrastKind, Rgb};
use appearance_watch::builder::{appearance, build_initial};
use appearance_watch::merge::AppearanceStream;
use appearance_watch::normalize::{fix_not_found, ProviderError};

const BLUE: Rgb = Rgb { red: 0x35, green: 0x84, blue: 0xe4 };

fn json_line(a: &Appearance) -> String {
    let mut map = serde_json::Map::new();
    for (k, v) in a.entries() {
        map.insert(k, serde_json::Value::String(v));
    }
    serde_json::Value::Object(map).to_string()
}

fn differing_fields(a: &Appearance, b: &Appearance) -> usize {
    let mut n = 0;
    if a.accent_color != b.accent_color {
        n += 1;
    }
    if a.color_scheme != b.color_scheme {
        n += 1;
    }
    if a.contrast != b.contrast {
        n += 1;
    }
    n
}

#[test]
fn fix_not_found_maps_each_case() {
    assert_eq!(fix_not_found::<u8, &str>(Ok(3)), Ok(Some(3)));
    assert_eq!(fix_not_found::<u8, &str>(Err(ProviderError::NotFound)), Ok(None));
    assert_eq!(fix_not_found::<u8, &str>(Err(ProviderError::Fatal("down"))), Err("down"));
}

#[test]
fn build_with_every_field_present() {
    let r = build_initial::<&str>(Ok(Some(ColorSchemeKind::Dark)), Ok(BLUE), Ok(Some(ContrastKind::High)));
    assert_eq!(
        r,
        Ok(Appearance {
            accent_color: Some(BLUE),
            color_scheme: Some(ColorSchemeKind::Dark),
            contrast: Some(ContrastKind::High),
        })
    );
}

#[test]
fn build_with_no_preference_scheme_is_absent() {
    let r = build_initial::<&str>(Ok(None), Ok(BLUE), Ok(None));
    assert_eq!(
        r,
        Ok(Appearance { accent_color: Some(BLUE), color_scheme: None, contrast: None })
    );
}

#[test]
fn contrast_not_found_is_absent_and_succeeds() {
    let r = build_initial::<&str>(Ok(Some(ColorSchemeKind::Light)), Ok(BLUE), Err(ProviderError::NotFound));
    assert_eq!(
        r,
        Ok(Appearance {
            accent_color: Some(BLUE),
            color_scheme: Some(ColorSchemeKind::Light),
            contrast: None,
        })
    );
}

#[test]
fn every_field_not_found_gives_empty_snapshot() {
    let r = build_initial::<&str>(
        Err(ProviderError::NotFound),
        Err(ProviderError::NotFound),
        Err(ProviderError::NotFound),
    );
    assert_eq!(r, Ok(Appearance { accent_color: None, color_scheme: None, contrast: None }));
}

#[test]
fn accent_failure_fails_the_build() {
    let r = build_initial::<&str>(Ok(Some(ColorSchemeKind::Dark)), Err(ProviderError::Fatal("accent")), Ok(None));
    assert_eq!(r, Err("accent"));
}

#[test]
fn first_fatal_failure_in_fixed_order_wins() {
    let r = build_initial::<&str>(
        Err(ProviderError::Fatal("scheme")),
        Err(ProviderError::Fatal("accent")),
        Err(ProviderError::Fatal("contrast")),
    );
    assert_eq!(r, Err("scheme"));
    let r = build_initial::<&str>(
        Err(ProviderError::NotFound),
        Err(ProviderError::Fatal("accent")),
        Err(ProviderError::Fatal("contrast")),
    );
    assert_eq!(r, Err("accent"));
    let r = build_initial::<&str>(Ok(None), Ok(BLUE), Err(ProviderError::Fatal("contrast")));
    assert_eq!(r, Err("contrast"));
}

#[test]
fn portal_not_found_becomes_absence() {
    let not_found = ashpd::Error::Portal(ashpd::PortalError::NotFound("contrast".to_string()));
    let r = appearance(Ok(Some(ColorSchemeKind::Dark)), Ok(BLUE), Err(not_found));
    assert_eq!(
        r.unwrap(),
        Appearance {
            accent_color: Some(BLUE),
            color_scheme: Some(ColorSchemeKind::Dark),
            contrast: None,
        }
    );
}

#[test]
fn portal_other_failure_is_fatal() {
    let r = appearance(Ok(Some(ColorSchemeKind::Dark)), Err(ashpd::Error::NoResponse), Ok(None));
    assert!(matches!(r, Err(ashpd::Error::NoResponse)));
    let failed = ashpd::Error::Portal(ashpd::PortalError::Failed("x".to_string()));
    let r = appearance(Err(failed), Ok(BLUE), Ok(None));
    assert!(matches!(r, Err(ashpd::Error::Portal(ashpd::PortalError::Failed(_)))));
}

#[test]
fn with_change_replaces_one_field() {
    let a = Appearance { accent_color: Some(BLUE), color_scheme: Some(ColorSchemeKind::Dark), contrast: None };
    let red = Rgb { red: 0xe0, green: 0x1b, blue: 0x24 };
    assert_eq!(a.with_change(Change::AccentColor(red)).accent_color, Some(red));
    assert_eq!(a.with_change(Change::ColorScheme(None)).color_scheme, None);
    let b = a.with_change(Change::Contrast(Some(ContrastKind::High)));
    assert_eq!(b, Appearance { contrast: Some(ContrastKind::High), ..a });
}

#[test]
fn first_snapshot_is_the_initial_build() {
    let initial = build_initial::<&str>(Ok(Some(ColorSchemeKind::Dark)), Ok(BLUE), Err(ProviderError::NotFound)).unwrap();
    let (stream, first) = AppearanceStream::start(initial);
    assert_eq!(first, initial);
    assert_eq!(stream.current_snapshot(), initial);
    assert!(!stream.is_ended());
}

#[test]
fn scheme_change_emits_two_lines() {
    let initial = Appearance { accent_color: Some(BLUE), color_scheme: Some(ColorSchemeKind::Dark), contrast: None };
    let (mut stream, first) = AppearanceStream::start(initial);
    let second = stream.next_snapshot(Some(Change::ColorScheme(Some(ColorSchemeKind::Light)))).unwrap();
    assert_eq!(json_line(&first), r##"{"accent-color":"#3584e4","color-scheme":"dark"}"##);
    assert_eq!(json_line(&second), r##"{"accent-color":"#3584e4","color-scheme":"light"}"##);
}

#[test]
fn quick_changes_are_never_merged() {
    let initial = Appearance { accent_color: Some(BLUE), color_scheme: Some(ColorSchemeKind::Dark), contrast: None };
    let red = Rgb { red: 0xe0, green: 0x1b, blue: 0x24 };
    let (mut stream, first) = AppearanceStream::start(initial);
    let second = stream.next_snapshot(Some(Change::AccentColor(red))).unwrap();
    let third = stream.next_snapshot(Some(Change::Contrast(Some(ContrastKind::High)))).unwrap();
    assert_eq!(differing_fields(&first, &second), 1);
    assert_eq!(differing_fields(&second, &third), 1);
    assert_eq!(second, Appearance { accent_color: Some(red), ..first });
    assert_eq!(third, Appearance { contrast: Some(ContrastKind::High), ..second });
}

#[test]
fn neighbours_differ_in_at_most_one_field() {
    let initial = Appearance { accent_color: None, color_scheme: None, contrast: None };
    let changes = [
        Change::ColorScheme(Some(ColorSchemeKind::Light)),
        Change::ColorScheme(Some(ColorSchemeKind::Light)),
        Change::AccentColor(BLUE),
        Change::Contrast(Some(ContrastKind::High)),
        Change::ColorScheme(None),
        Change::Contrast(None),
    ];
    let (mut stream, mut prev) = AppearanceStream::start(initial);
    for c in changes {
        let next = stream.next_snapshot(Some(c)).unwrap();
        assert!(differing_fields(&prev, &next) <= 1);
        prev = next;
    }
    assert_eq!(prev, Appearance { accent_color: Some(BLUE), color_scheme: None, contrast: None });
}

#[test]
fn ended_subscription_ends_the_sequence() {
    let initial = Appearance { accent_color: None, color_scheme: Some(ColorSchemeKind::Light), contrast: None };
    let (mut stream, _) = AppearanceStream::start(initial);
    assert_eq!(stream.next_snapshot(None), None);
    assert!(stream.is_ended());
    assert_eq!(stream.next_snapshot(Some(Change::Contrast(Some(ContrastKind::High)))), None);
    assert_eq!(stream.current_snapshot(), initial);
}
