//! Create-or-focus decisions for the shell's webview windows.
//!
//! The host framework keeps a registry of windows by string label. The shell
//! never creates a second window under a label that is already taken: a
//! request for a window that exists focuses it, a request for one that does
//! not creates it with a fixed configuration. The decisions live here; the
//! caller observes the real registry, asks for a decision, and performs the
//! returned action on the host framework.

use vstd::prelude::*;
use vstd::string::*;
use crate::encode::encode_path;
use crate::encode::encode_image_path;

verus! {

/// The labels under which the shell's windows are registered.
#[derive(Clone, Copy, Debug, PartialEq, Eq, Structural)]
pub enum WindowLabel {
    Main,
    Splashscreen,
    Settings,
    Edit,
}

impl WindowLabel {
    /// The registry string for this label.
    pub open spec fn spec_text(self) -> Seq<char> {
        match self {
            WindowLabel::Main => "main"@,
            WindowLabel::Splashscreen => "splashscreen"@,
            WindowLabel::Settings => "settings"@,
            WindowLabel::Edit => "edit"@,
        }
    }

    /// The registry string for this label.
    pub fn text(&self) -> (t: &'static str)
        ensures
            t@ == self.spec_text(),
    {
        match self {
            WindowLabel::Main => "main",
            WindowLabel::Splashscreen => "splashscreen",
            WindowLabel::Settings => "settings",
            WindowLabel::Edit => "edit",
        }
    }
}

/// Everything the host framework needs to create one of the shell's
/// secondary windows.
#[derive(Debug, PartialEq, Eq)]
pub struct WindowConfig {
    pub label: WindowLabel,
    pub title: String,
    pub url: String,
    pub width: u32,
    pub height: u32,
    pub min_width: u32,
    pub min_height: u32,
    pub resizable: bool,
    pub decorations: bool,
    pub transparent: bool,
    pub centered: bool,
}

/// The URL the edit window loads: the internal edit view, with the image
/// path appended as an encoded query parameter when one is given.
pub open spec fn edit_url_spec(path: Option<Seq<char>>) -> Seq<char> {
    match path {
        Option::Some(p) => "index.html?window=edit&imagePath="@ + encode_path(p),
        Option::None => "index.html?window=edit"@,
    }
}

/// Builds the edit window's URL. With no path the URL is exactly
/// `index.html?window=edit`, with no `imagePath` parameter.
pub fn edit_url(image_path: Option<&str>) -> (u: String)
    ensures
        u@ == edit_url_spec(
            match image_path {
                Option::Some(p) => Option::Some(p@),
                Option::None => Option::None,
            },
        ),
{
    match image_path {
        Option::Some(p) => {
            let mut u: String = "index.html?window=edit&imagePath=".to_owned();
            let encoded = encode_image_path(p);
            u.append(encoded.as_str());
            u
        },
        Option::None => "index.html?window=edit".to_owned(),
    }
}

/// The fixed configuration of the settings window.
pub open spec fn is_settings_config(c: WindowConfig) -> bool {
    &&& c.label == WindowLabel::Settings
    &&& c.title@ == "Settings"@
    &&& c.url@ == "index.html?window=settings"@
    &&& c.width == 600
    &&& c.height == 450
    &&& c.min_width == 400
    &&& c.min_height == 300
    &&& c.resizable
    &&& !c.decorations
    &&& c.transparent
    &&& c.centered
}

/// The fixed configuration of the edit window, loading the edit view with
/// the given image path encoded into the URL.
pub open spec fn is_edit_config(c: WindowConfig, path: Option<Seq<char>>) -> bool {
    &&& c.label == WindowLabel::Edit
    &&& c.title@ == "Edit Image"@
    &&& c.url@ == edit_url_spec(path)
    &&& c.width == 800
    &&& c.height == 600
    &&& c.min_width == 400
    &&& c.min_height == 300
    &&& c.resizable
    &&& !c.decorations
    &&& c.transparent
    &&& c.centered
}

/// What to do for a request to reveal the main window.
#[derive(Clone, Copy, Debug, PartialEq, Eq, Structural)]
pub enum MainAction {
    /// Show the main window.
    ShowMain,
    /// Leave the windows as they are.
    Leave,
}

/// What to do for a request to close the splash window.
#[derive(Clone, Copy, Debug, PartialEq, Eq, Structural)]
pub enum SplashAction {
    /// Close the splash window.
    CloseSplash,
    /// Leave the windows as they are.
    Leave,
}

/// What to do for a request to open the settings window.
#[derive(Debug, PartialEq, Eq)]
pub enum SettingsAction {
    /// Bring the existing settings window to focus.
    FocusSettings,
    /// Create the settings window with this configuration.
    CreateSettings(WindowConfig),
}

/// What to do for a request to open the edit window.
#[derive(Debug, PartialEq, Eq)]
pub enum EditAction {
    /// Bring the existing edit window to focus and, when a path is carried,
    /// deliver it to the window as an event payload.
    FocusEdit(Option<String>),
    /// Create the edit window with this configuration.
    CreateEdit(WindowConfig),
}

/// Which of the shell's windows are present in the host framework's
/// registry, and so which labels are taken.
#[derive(Clone, Copy, Debug, PartialEq, Eq, Structural)]
pub struct ShellWindows {
    pub main_present: bool,
    pub splash_present: bool,
    pub settings_present: bool,
    pub edit_present: bool,
}

/// The registry after a request for the settings window: the window is
/// present, whether it was found or had to be created, and nothing else
/// changes.
pub open spec fn settings_after(r: ShellWindows) -> ShellWindows {
    ShellWindows { settings_present: true, ..r }
}

/// A request for the settings window focuses the existing window, rather
/// than creating one, exactly when the window is present.
pub open spec fn settings_focuses(r: ShellWindows) -> bool {
    r.settings_present
}

/// The registry after a request for the edit window.
pub open spec fn edit_after(r: ShellWindows) -> ShellWindows {
    ShellWindows { edit_present: true, ..r }
}

impl ShellWindows {
    /// Decides a request to reveal the main window. `observed_visible` is
    /// what the visibility query on the main window returned, or nothing
    /// where the query failed. The window is shown exactly when it was
    /// observed hidden. The main window's absence is a startup defect the
    /// shell does not recover from, so a decision is only owed while it is
    /// present.
    pub fn reveal_main(&self, observed_visible: Option<bool>) -> (a: MainAction)
        requires
            self.main_present,
        ensures
            a == (if observed_visible == Option::Some(false) {
                MainAction::ShowMain
            } else {
                MainAction::Leave
            }),
    {
        match observed_visible {
            Option::Some(v) => if !v {
                MainAction::ShowMain
            } else {
                MainAction::Leave
            },
            Option::None => MainAction::Leave,
        }
    }

    /// Decides a request to close the splash window: close it exactly when
    /// it is present, a no-op otherwise. Afterwards the splash window is
    /// gone and no other window changed.
    pub fn close_splash(&mut self) -> (a: SplashAction)
        ensures
            a == (if old(self).splash_present {
                SplashAction::CloseSplash
            } else {
                SplashAction::Leave
            }),
            *final(self) == (ShellWindows { splash_present: false, ..*old(self) }),
    {
        let a = if self.splash_present {
            SplashAction::CloseSplash
        } else {
            SplashAction::Leave
        };
        self.splash_present = false;
        a
    }

    /// Decides a request to open the settings window: focus it when its
    /// label is taken, create it with the fixed settings configuration
    /// otherwise. Afterwards exactly one settings window is present and no
    /// other window changed.
    pub fn open_settings(&mut self) -> (a: SettingsAction)
        ensures
            *final(self) == settings_after(*old(self)),
            settings_focuses(*old(self)) ==> a == SettingsAction::FocusSettings,
            !settings_focuses(*old(self)) ==> (a matches SettingsAction::CreateSettings(c)
                && is_settings_config(c)),
    {
        let a = if self.settings_present {
            SettingsAction::FocusSettings
        } else {
            SettingsAction::CreateSettings(
                WindowConfig {
                    label: WindowLabel::Settings,
                    title: "Settings".to_owned(),
                    url: "index.html?window=settings".to_owned(),
                    width: 600,
                    height: 450,
                    min_width: 400,
                    min_height: 300,
                    resizable: true,
                    decorations: false,
                    transparent: true,
                    centered: true,
                },
            )
        };
        self.settings_present = true;
        a
    }

    /// Decides a request to open the edit window. When its label is taken,
    /// the existing window is focused and the given image path, if any, is
    /// delivered to it unencoded. Otherwise the window is created with the
    /// fixed edit configuration, the path encoded into its URL. Afterwards
    /// exactly one edit window is present and no other window changed.
    pub fn open_edit(&mut self, image_path: Option<String>) -> (a: EditAction)
        ensures
            *final(self) == edit_after(*old(self)),
            old(self).edit_present ==> a == EditAction::FocusEdit(image_path),
            !old(self).edit_present ==> (a matches EditAction::CreateEdit(c) && is_edit_config(
                c,
                image_path.deep_view(),
            )),
    {
        let a = if self.edit_present {
            EditAction::FocusEdit(image_path)
        } else {
            let url = match &image_path {
                Option::Some(p) => edit_url(Option::Some(p.as_str())),
                Option::None => edit_url(Option::None),
            };
            EditAction::CreateEdit(
                WindowConfig {
                    label: WindowLabel::Edit,
                    title: "Edit Image".to_owned(),
                    url,
                    width: 800,
                    height: 600,
                    min_width: 400,
                    min_height: 300,
                    resizable: true,
                    decorations: false,
                    transparent: true,
                    centered: true,
                },
            )
        };
        self.edit_present = true;
        a
    }
}

/// The event through which an already-open edit window is told about a new
/// image path.
pub fn image_path_changed_event() -> (s: &'static str)
    ensures
        s@ == "image-path-changed"@,
{
    "image-path-changed"
}

/// Requesting the settings window twice yields exactly one settings window:
/// the first request leaves it present, so the second finds its label taken,
/// focuses the existing window, and changes nothing.
pub proof fn lemma_settings_requested_twice(r: ShellWindows)
    ensures
        settings_after(r).settings_present,
        settings_focuses(settings_after(r)),
        settings_after(settings_after(r)) == settings_after(r),
{
}

} // verus!
