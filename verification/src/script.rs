//! The windowless launcher: a small script that the scheduled task runs in
//! place of the program, so that no console window appears.

use vstd::prelude::*;
use crate::level::Level;
use crate::level::whole_percent;
use crate::text::decimal;
use crate::text::format_decimal;

verus! {

/// The directory below the user's application data that holds the program's files.
pub const APPLICATION: &'static str = "mic-volume-control";

/// The file name of the launcher script.
pub const SCRIPT_FILE: &'static str = "run-silent.vbs";

/// The script host that runs the launcher.
pub const SCRIPT_HOST: &'static str = "wscript.exe";

/// The launcher's text: it starts `executable` hidden with the one-shot
/// arguments `volume <percent>` and waits for it to end.
pub open spec fn launcher_text(executable: Seq<char>, percent: nat) -> Seq<char> {
    "Set WshShell = CreateObject(\"WScript.Shell\")\nWshShell.Run \"\"\""@ + executable
        + "\"\" volume "@ + decimal(percent) + "\", 0, True\n"@
}

/// The arguments of the script host: batch mode, no banner, then the quoted script path.
pub open spec fn host_arguments(script_path: Seq<char>) -> Seq<char> {
    "//B //Nologo \""@ + script_path + "\""@
}

/// Writes the launcher script for the given executable and target level.
/// The level is passed on in whole percent, fractions cut off.
pub fn launcher_script(executable: &str, target: Level) -> (text: String)
    ensures
        text@ == launcher_text(executable@, whole_percent(target@) as nat),
{
    let percent: u8 = target.percent();
    let number: String = format_decimal(percent as u64);
    let mut text: String = String::from_str(
        "Set WshShell = CreateObject(\"WScript.Shell\")\nWshShell.Run \"\"\"",
    );
    text.append(executable);
    text.append("\"\" volume ");
    text.append(number.as_str());
    text.append("\", 0, True\n");
    text
}

/// Writes the argument string that makes the script host run the launcher.
pub fn launcher_arguments(script_path: &str) -> (text: String)
    ensures
        text@ == host_arguments(script_path@),
{
    let mut text: String = String::from_str("//B //Nologo \"");
    text.append(script_path);
    text.append("\"");
    text
}

} // verus!
