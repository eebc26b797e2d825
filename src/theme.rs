//! Desktop theme detection: which settings each desktop environment is
//! asked, and how its answer is read as "dark" or not.
use vstd::prelude::*;
use vstd::string::StringSliceAdditionalSpecFns;
use crate::invocation::{Invocation, InvocationView};
use crate::text::{contains_bytes, has_substring};

verus! {

/// A place where a desktop environment records its light/dark preference.
#[derive(Clone, Copy, Debug, PartialEq, Eq, Structural)]
pub enum ThemeSource {
    /// GNOME's `color-scheme` setting.
    GnomeColorScheme,
    /// KDE Plasma's `kdeglobals` file.
    KdeGlobals,
    /// XFCE's xsettings theme name.
    XfceThemeName,
    /// Cinnamon's GTK theme.
    CinnamonGtkTheme,
    /// MATE's GTK theme.
    MateGtkTheme,
    /// elementary OS's `prefer-dark-style` flag.
    ElementaryPreferDark,
    /// The general GNOME GTK theme, asked last.
    GnomeGtkTheme,
}

/// How to obtain what a [`ThemeSource`] reports.
pub enum ThemeQuery {
    /// Run a program and read its standard output.
    Command(Invocation),
    /// Read a file, named relative to the user's home directory.
    HomeFile(String),
}

/// The abstract value of a [`ThemeQuery`].
pub ghost enum ThemeQueryView {
    Command(InvocationView),
    HomeFile(Seq<char>),
}

impl View for ThemeQuery {
    type V = ThemeQueryView;

    open spec fn view(&self) -> ThemeQueryView {
        match self {
            ThemeQuery::Command(inv) => ThemeQueryView::Command(inv@),
            ThemeQuery::HomeFile(p) => ThemeQueryView::HomeFile(p@),
        }
    }
}

/// What one source reported: the raw bytes of its answer.
pub struct ThemeReading {
    pub source: ThemeSource,
    pub output: Vec<u8>,
}

/// A `gsettings get <schema> <key>` query.
pub open spec fn gsettings_get(schema: &str, key: &str) -> ThemeQueryView {
    ThemeQueryView::Command(
        InvocationView { program: "gsettings"@, args: seq!["get"@, schema@, key@] },
    )
}

/// The query behind each source.
pub open spec fn query_of(source: ThemeSource) -> ThemeQueryView {
    match source {
        ThemeSource::GnomeColorScheme => gsettings_get("org.gnome.desktop.interface", "color-scheme"),
        ThemeSource::KdeGlobals => ThemeQueryView::HomeFile(".config/kdeglobals"@),
        ThemeSource::XfceThemeName => ThemeQueryView::Command(
            InvocationView {
                program: "xfconf-query"@,
                args: seq!["-c"@, "xsettings"@, "-p"@, "/Net/ThemeName"@],
            },
        ),
        ThemeSource::CinnamonGtkTheme => gsettings_get("org.cinnamon.desktop.interface", "gtk-theme"),
        ThemeSource::MateGtkTheme => gsettings_get("org.mate.interface", "gtk-theme"),
        ThemeSource::ElementaryPreferDark => gsettings_get(
            "io.elementary.terminal.settings",
            "prefer-dark-style",
        ),
        ThemeSource::GnomeGtkTheme => gsettings_get("org.gnome.desktop.interface", "gtk-theme"),
    }
}

/// The sources, in the order in which they are asked.
pub open spec fn all_sources() -> Seq<ThemeSource> {
    seq![
        ThemeSource::GnomeColorScheme,
        ThemeSource::KdeGlobals,
        ThemeSource::XfceThemeName,
        ThemeSource::CinnamonGtkTheme,
        ThemeSource::MateGtkTheme,
        ThemeSource::ElementaryPreferDark,
        ThemeSource::GnomeGtkTheme,
    ]
}

/// The bytes of a text marker.
pub open spec fn mark(s: &str) -> Seq<u8> {
    s.spec_bytes()
}

/// The answer contains "dark" or "Dark".
pub open spec fn mentions_dark(out: Seq<u8>) -> bool {
    has_substring(out, mark("dark")) || has_substring(out, mark("Dark"))
}

/// Whether `out`, as reported by `source`, indicates a dark theme.
pub open spec fn reports_dark(source: ThemeSource, out: Seq<u8>) -> bool {
    match source {
        ThemeSource::GnomeColorScheme => has_substring(out, mark("dark")),
        ThemeSource::KdeGlobals => (has_substring(out, mark("[Colors:View]"))
            && has_substring(out, mark("BackgroundNormal="))
            && has_substring(out, mark("BackgroundNormal=35,38,41")))
            || has_substring(out, mark("ColorScheme=BreezeDark"))
            || has_substring(out, mark("name=Breeze Dark")),
        ThemeSource::ElementaryPreferDark => has_substring(out, mark("true")),
        _ => mentions_dark(out),
    }
}

/// At least one reading indicates a dark theme.
pub open spec fn any_reports_dark(readings: Seq<ThemeReading>) -> bool {
    exists|i: int| 0 <= i < readings.len() && reports_dark(readings[i].source, readings[i].output@)
}

fn gsettings(schema: &str, key: &str) -> (r: ThemeQuery)
    ensures
        r@ == gsettings_get(schema, key),
{
    let inv = Invocation::new("gsettings", &["get", schema, key]);
    assert(inv@.args =~= seq!["get"@, schema@, key@]);
    ThemeQuery::Command(inv)
}

impl ThemeSource {
    /// Every source, in the order in which they are asked.
    pub fn all() -> (r: Vec<ThemeSource>)
        ensures
            r@ == all_sources(),
    {
        let r = vec![
            ThemeSource::GnomeColorScheme,
            ThemeSource::KdeGlobals,
            ThemeSource::XfceThemeName,
            ThemeSource::CinnamonGtkTheme,
            ThemeSource::MateGtkTheme,
            ThemeSource::ElementaryPreferDark,
            ThemeSource::GnomeGtkTheme,
        ];
        assert(r@ =~= all_sources());
        r
    }

    /// The query that obtains this source's answer.
    pub fn query(&self) -> (r: ThemeQuery)
        ensures
            r@ == query_of(*self),
    {
        match self {
            ThemeSource::GnomeColorScheme => gsettings("org.gnome.desktop.interface", "color-scheme"),
            ThemeSource::KdeGlobals => ThemeQuery::HomeFile(String::from_str(".config/kdeglobals")),
            ThemeSource::XfceThemeName => {
                let inv = Invocation::new(
                    "xfconf-query",
                    &["-c", "xsettings", "-p", "/Net/ThemeName"],
                );
                assert(inv@.args =~= seq!["-c"@, "xsettings"@, "-p"@, "/Net/ThemeName"@]);
                ThemeQuery::Command(inv)
            },
            ThemeSource::CinnamonGtkTheme => gsettings("org.cinnamon.desktop.interface", "gtk-theme"),
            ThemeSource::MateGtkTheme => gsettings("org.mate.interface", "gtk-theme"),
            ThemeSource::ElementaryPreferDark => gsettings(
                "io.elementary.terminal.settings",
                "prefer-dark-style",
            ),
            ThemeSource::GnomeGtkTheme => gsettings("org.gnome.desktop.interface", "gtk-theme"),
        }
    }

    /// Whether `output`, this source's answer, indicates a dark theme.
    pub fn reports_dark(&self, output: &[u8]) -> (r: bool)
        ensures
            r == reports_dark(*self, output@),
    {
        match self {
            ThemeSource::GnomeColorScheme => contains_bytes(output, "dark".as_bytes()),
            ThemeSource::KdeGlobals => {
                (contains_bytes(output, "[Colors:View]".as_bytes()) && contains_bytes(
                    output,
                    "BackgroundNormal=".as_bytes(),
                ) && contains_bytes(output, "BackgroundNormal=35,38,41".as_bytes()))
                    || contains_bytes(output, "ColorScheme=BreezeDark".as_bytes())
                    || contains_bytes(output, "name=Breeze Dark".as_bytes())
            },
            ThemeSource::ElementaryPreferDark => contains_bytes(output, "true".as_bytes()),
            _ => contains_bytes(output, "dark".as_bytes()) || contains_bytes(
                output,
                "Dark".as_bytes(),
            ),
        }
    }
}

/// Whether the desktop uses a dark theme, judged from the answers of the
/// sources that could be asked: dark exactly when at least one of them
/// reports a dark marker, light when none does or none answered.
pub fn is_dark_mode_enabled(readings: &[ThemeReading]) -> (r: bool)
    ensures
        r == any_reports_dark(readings@),
        readings@.len() == 0 ==> !r,
{
    let mut i: usize = 0;
    while i < readings.len()
        invariant
            i <= readings@.len(),
            forall|k: int|
                0 <= k < i ==> !reports_dark(#[trigger] readings@[k].source, readings@[k].output@),
        decreases readings@.len() - i,
    {
        if readings[i].source.reports_dark(readings[i].output.as_slice()) {
            return true;
        }
        i = i + 1;
    }
    false
}

} // verus!
