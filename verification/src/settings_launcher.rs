//! Starting the settings program.
use vstd::prelude::*;
use vstd::string::*;

verus! {

pub const SETTINGS_EXE_NAME: &'static str = "rakukan-settings.exe";

pub const SETTINGS_DIR_NAME: &'static str = "settings-ui";

/// Where the program is.
#[derive(Clone, Copy, Debug, PartialEq, Eq, Structural)]
pub enum SettingsPlace {
    /// In its own directory beside the library.
    OwnDirectory,
    /// Beside the library.
    InstallDirectory,
}

/// The program to start: the one in its own directory comes first. Nothing where
/// there is none.
fn settings_place(in_own_directory: bool, in_install_directory: bool) -> (r: Option<
    SettingsPlace,
>)
    ensures
        r == (if in_own_directory {
            Some(SettingsPlace::OwnDirectory)
        } else if in_install_directory {
            Some(SettingsPlace::InstallDirectory)
        } else {
            None
        }),
{
    if in_own_directory {
        Some(SettingsPlace::OwnDirectory)
    } else if in_install_directory {
        Some(SettingsPlace::InstallDirectory)
    } else {
        None
    }
}

/// What the user is told when the program does not start.
pub open spec fn error_text(reason: Seq<char>) -> Seq<char> {
    "設定アプリを起動できませんでした。\n"@ + reason + "\n\n"@ + SETTINGS_EXE_NAME@
        + " をインストール先に配置してください。"@
}

pub fn launch_error_text(reason: &str) -> (r: String)
    ensures
        r@ == error_text(reason@),
{
    let mut s = "設定アプリを起動できませんでした。\n".to_owned();
    s.append(reason);
    s.append("\n\n");
    s.append(SETTINGS_EXE_NAME);
    s.append(" をインストール先に配置してください。");
    s
}


/// The program to start, or what the user is told where it is missing. `path` is
/// where it was looked for last.
pub fn launch_settings_app(
    in_own_directory: bool,
    in_install_directory: bool,
    path: &str,
) -> (r: Result<SettingsPlace, String>)
    ensures
        in_own_directory ==> r == Ok::<SettingsPlace, String>(SettingsPlace::OwnDirectory),
        !in_own_directory && in_install_directory ==> r == Ok::<SettingsPlace, String>(
            SettingsPlace::InstallDirectory,
        ),
        !in_own_directory && !in_install_directory ==> r is Err && r->Err_0@ == error_text(
            "missing file: "@ + path@,
        ),
{
    match settings_place(in_own_directory, in_install_directory) {
        Some(place) => Ok(place),
        None => {
            let reason = crate::text::concat2("missing file: ", path);
            Err(launch_error_text(reason.as_str()))
        },
    }
}

/// The user is told the reason as it is, and which program to put in place.
pub proof fn the_reason_is_told(reason: Seq<char>)
    ensures
        crate::text::contains_text(error_text(reason), reason),
        crate::text::contains_text(error_text(reason), SETTINGS_EXE_NAME@),
{
    let a = "設定アプリを起動できませんでした。\n"@;
    let b = "\n\n"@;
    let c = " をインストール先に配置してください。"@;
    crate::text::patterns_occur_where_they_stand(a, reason, b + SETTINGS_EXE_NAME@ + c, a);
    assert(error_text(reason) =~= a + reason + (b + SETTINGS_EXE_NAME@ + c));
    crate::text::patterns_occur_where_they_stand(a + reason + b, SETTINGS_EXE_NAME@, c, a);
}

}
