use warp_tray::icon::{
    get_active_tray_icon, icon_after_poll, is_warp_disconnected, load_tray_icon, IconError,
    TrayIconKind,
};
use warp_tray::text::contains_bytes;
use warp_tray::theme::{is_dark_mode_enabled, ThemeQuery, ThemeReading, ThemeSource};

fn reading(source: ThemeSource, text: &str) -> ThemeReading {
    ThemeReading { source, output: text.as_bytes().to_vec() }
}

#[test]
fn substring_search() {
    assert!(contains_bytes(b"prefer-dark", b"dark"));
    assert!(contains_bytes(b"dark", b"dark"));
    assert!(contains_bytes(b"abc", b""));
    assert!(contains_bytes(b"", b""));
    assert!(!contains_bytes(b"", b"a"));
    assert!(!contains_bytes(b"dar", b"dark"));
    assert!(!contains_bytes(b"d a r k", b"dark"));
    assert!(contains_bytes(b"xxdarxdark", b"dark"));
}

#[test]
fn gnome_color_scheme_is_case_sensitive() {
    assert!(ThemeSource::GnomeColorScheme.reports_dark(b"'prefer-dark'\n"));
    assert!(!ThemeSource::GnomeColorScheme.reports_dark(b"'Dark'\n"));
    assert!(!ThemeSource::GnomeColorScheme.reports_dark(b"'default'\n"));
}

#[test]
fn theme_names_accept_either_case() {
    for s in [
        ThemeSource::XfceThemeName,
        ThemeSource::CinnamonGtkTheme,
        ThemeSource::MateGtkTheme,
        ThemeSource::GnomeGtkTheme,
    ] {
        assert!(s.reports_dark(b"Adwaita-dark"));
        assert!(s.reports_dark(b"Mint-Y-Dark"));
        assert!(!s.reports_dark(b"Adwaita"));
        assert!(!s.reports_dark(b""));
    }
}

#[test]
fn elementary_flag() {
    assert!(ThemeSource::ElementaryPreferDark.reports_dark(b"true\n"));
    assert!(!ThemeSource::ElementaryPreferDark.reports_dark(b"false\n"));
    assert!(!ThemeSource::ElementaryPreferDark.reports_dark(b"dark"));
}

#[test]
fn kde_globals_markers() {
    let k = ThemeSource::KdeGlobals;
    assert!(k.reports_dark(b"[Colors:View]\nBackgroundNormal=35,38,41\n"));
    assert!(!k.reports_dark(b"[Colors:View]\nBackgroundNormal=252,252,252\n"));
    // the background colour counts only beside a [Colors:View] group
    assert!(!k.reports_dark(b"[Colors:Window]\nBackgroundNormal=35,38,41\n"));
    assert!(k.reports_dark(b"[General]\nColorScheme=BreezeDark\n"));
    assert!(k.reports_dark(b"[General]\nname=Breeze Dark\n"));
    assert!(!k.reports_dark(b"[General]\nColorScheme=BreezeLight\n"));
    // the plain word is no marker for this source
    assert!(!k.reports_dark(b"dark Dark"));
}

#[test]
fn dark_mode_from_readings() {
    assert!(!is_dark_mode_enabled(&[]));
    let light = vec![
        reading(ThemeSource::GnomeColorScheme, "'default'"),
        reading(ThemeSource::GnomeGtkTheme, "'Adwaita'"),
    ];
    assert!(!is_dark_mode_enabled(&light));
    let mixed = vec![
        reading(ThemeSource::GnomeColorScheme, "'default'"),
        reading(ThemeSource::MateGtkTheme, "'Menta-Dark'"),
        reading(ThemeSource::GnomeGtkTheme, "'Adwaita'"),
    ];
    assert!(is_dark_mode_enabled(&mixed));
}

#[test]
fn sources_and_their_queries() {
    let all = ThemeSource::all();
    assert_eq!(all.len(), 7);
    assert_eq!(all[0], ThemeSource::GnomeColorScheme);
    assert_eq!(all[6], ThemeSource::GnomeGtkTheme);
    match ThemeSource::GnomeColorScheme.query() {
        ThemeQuery::Command(inv) => {
            assert_eq!(inv.program, "gsettings");
            assert_eq!(inv.args, vec!["get", "org.gnome.desktop.interface", "color-scheme"]);
        }
        ThemeQuery::HomeFile(_) => panic!("expected a command"),
    }
    match ThemeSource::XfceThemeName.query() {
        ThemeQuery::Command(inv) => {
            assert_eq!(inv.program, "xfconf-query");
            assert_eq!(inv.args, vec!["-c", "xsettings", "-p", "/Net/ThemeName"]);
        }
        ThemeQuery::HomeFile(_) => panic!("expected a command"),
    }
    match ThemeSource::ElementaryPreferDark.query() {
        ThemeQuery::Command(inv) => {
            assert_eq!(inv.args, vec!["get", "io.elementary.terminal.settings", "prefer-dark-style"]);
        }
        ThemeQuery::HomeFile(_) => panic!("expected a command"),
    }
    match ThemeSource::KdeGlobals.query() {
        ThemeQuery::HomeFile(p) => assert_eq!(p, ".config/kdeglobals"),
        ThemeQuery::Command(_) => panic!("expected a file"),
    }
}

#[test]
fn disconnected_marker() {
    assert!(is_warp_disconnected(b"Status update: Disconnected\nReason: Manual Disconnection\n"));
    assert!(!is_warp_disconnected(b"Status update: Connected\nNetwork: healthy\n"));
    assert!(!is_warp_disconnected(b"status update: disconnected"));
    assert!(!is_warp_disconnected(b""));
}

#[test]
fn active_icon_follows_theme() {
    assert_eq!(get_active_tray_icon(true), TrayIconKind::LightActive);
    assert_eq!(get_active_tray_icon(false), TrayIconKind::DarkActive);
}

#[test]
fn icon_after_a_poll() {
    let dark = vec![reading(ThemeSource::GnomeColorScheme, "'prefer-dark'")];
    let light = vec![reading(ThemeSource::GnomeColorScheme, "'default'")];
    let down = b"Status update: Disconnected";
    let up = b"Status update: Connected";
    assert_eq!(icon_after_poll(down, &dark), TrayIconKind::Inactive);
    assert_eq!(icon_after_poll(down, &light), TrayIconKind::Inactive);
    assert_eq!(icon_after_poll(up, &dark), TrayIconKind::LightActive);
    assert_eq!(icon_after_poll(up, &light), TrayIconKind::DarkActive);
    assert_eq!(icon_after_poll(up, &[]), TrayIconKind::DarkActive);
}

#[test]
fn icon_file_names() {
    assert_eq!(TrayIconKind::Inactive.file_name(), "cloudflare-inactive.ico");
    assert_eq!(TrayIconKind::DarkActive.file_name(), "cloudflare-dark-active.ico");
    assert_eq!(TrayIconKind::LightActive.file_name(), "cloudflare-light-active.ico");
}

#[test]
fn decodes_a_png_into_rgba() {
    let pixels: Vec<u8> = (0u8..24).collect();
    let img = image::RgbaImage::from_raw(2, 3, pixels.clone()).unwrap();
    let mut encoded = std::io::Cursor::new(Vec::new());
    img.write_to(&mut encoded, image::ImageOutputFormat::Png).unwrap();
    let bytes = encoded.into_inner();
    let icon = load_tray_icon(&bytes).unwrap();
    assert_eq!(icon.width, 2);
    assert_eq!(icon.height, 3);
    assert_eq!(icon.rgba, pixels);
    assert_ne!(icon.rgba, bytes);
}

#[test]
fn refuses_bytes_that_are_no_image() {
    assert!(matches!(load_tray_icon(b"not an image"), Err(IconError::Undecodable)));
    assert!(matches!(load_tray_icon(&[]), Err(IconError::Undecodable)));
}

#[test]
fn polls_the_client_status() {
    let q = warp_tray::icon::status_query();
    assert_eq!(q.program, "warp-cli");
    assert_eq!(q.args, vec!["status"]);
}

#[test]
fn root_reexports() {
    assert!(!warp_tray::is_dark_mode_enabled(&[]));
    assert_eq!(warp_tray::get_active_tray_icon(true), TrayIconKind::LightActive);
}
