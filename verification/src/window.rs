use vstd::prelude::*;

verus! {

/// The properties of the application window that the application logic reads
/// and writes. The user interface shows them; every change goes through here.
#[derive(Debug)]
pub struct AppWindowState {
    pub app_name: String,
    pub app_version: String,
    pub autostart_enabled: bool,
    /// The row of the shortcut being edited, or a negative number while no row is.
    pub editing_index: i32,
    pub editing_label: String,
    pub pending_shortcut: String,
    pub pending_shortcut_valid: bool,
}

/// The window's properties as values.
pub struct AppWindowView {
    pub app_name: Seq<char>,
    pub app_version: Seq<char>,
    pub autostart_enabled: bool,
    pub editing_index: i32,
    pub editing_label: Seq<char>,
    pub pending_shortcut: Seq<char>,
    pub pending_shortcut_valid: bool,
}

impl View for AppWindowState {
    type V = AppWindowView;

    open spec fn view(&self) -> AppWindowView {
        AppWindowView {
            app_name: self.app_name@,
            app_version: self.app_version@,
            autostart_enabled: self.autostart_enabled,
            editing_index: self.editing_index,
            editing_label: self.editing_label@,
            pending_shortcut: self.pending_shortcut@,
            pending_shortcut_valid: self.pending_shortcut_valid,
        }
    }
}

/// The application's name, as the window shows it.
pub open spec fn app_name_text() -> Seq<char> {
    "SwitchLayout"@
}

impl AppWindowState {
    /// A window before anything was set: no name or version, autostart off,
    /// and the shortcut editor closed.
    pub fn new() -> (r: Self)
        ensures
            r@.app_name.len() == 0,
            r@.app_version.len() == 0,
            !r.autostart_enabled,
            r.editing_index == -1,
            r@.editing_label.len() == 0,
            r@.pending_shortcut.len() == 0,
            !r.pending_shortcut_valid,
    {
        AppWindowState {
            app_name: String::new(),
            app_version: String::new(),
            autostart_enabled: false,
            editing_index: -1,
            editing_label: String::new(),
            pending_shortcut: String::new(),
            pending_shortcut_valid: false,
        }
    }
}

/// Shows the application's name and its version, written "v" followed by the
/// package version.
pub fn configure_window(window: &mut AppWindowState, package_version: &str)
    ensures
        final(window)@ == (AppWindowView {
            app_name: app_name_text(),
            app_version: "v"@ + package_version@,
            ..old(window)@
        }),
{
    window.app_name = String::from_str("SwitchLayout");
    let mut version = String::from_str("v");
    version.append(package_version);
    window.app_version = version;
}

} // verus!
