use vstd::prelude::*;
use vstd::string::StringExecFns;

verus! {

/// The shell script that, once this process has exited, replaces the
/// executable at `current` by the download at `new`, removes the marker at
/// `flag`, and starts the new executable.
pub open spec fn unix_script_text(current: Seq<char>, new: Seq<char>, flag: Seq<char>) -> Seq<
    char,
> {
    "#!/bin/bash\nsleep 3\nrm -f \""@ + current + "\"\nmv \""@ + new + "\" \""@ + current
        + "\"\nchmod +x \""@ + current + "\"\nrm -f \""@ + flag + "\"\n\""@ + current
        + "\" &\n"@
}

/// The batch script that does the same on Windows, retrying the delete of the
/// executable until the exiting process has let go of it.
pub open spec fn windows_script_text(current: Seq<char>, new: Seq<char>, flag: Seq<char>) -> Seq<
    char,
> {
    "@echo off\nchcp 65001 >nul\necho Aplicando actualización...\ntimeout /t 3 /nobreak >nul\n:retry\ndel /F /Q \""@
        + current + "\" 2>nul\nif exist \""@ + current
        + "\" ( timeout /t 1 /nobreak >nul & goto retry )\nmove /Y \""@ + new + "\" \""@
        + current + "\"\ndel /F /Q \""@ + flag
        + "\"\necho Actualización completada. Iniciando...\nstart \"\" \""@ + current
        + "\"\ntimeout /t 1 /nobreak >nul\ndel \"%~f0\"\n"@
}

/// The helper script of the deferred swap for a Unix platform.
pub fn unix_script(current: &str, new: &str, flag: &str) -> (r: String)
    ensures
        r@ == unix_script_text(current@, new@, flag@),
{
    let mut r = String::new();
    r.append("#!/bin/bash\nsleep 3\nrm -f \"");
    r.append(current);
    r.append("\"\nmv \"");
    r.append(new);
    r.append("\" \"");
    r.append(current);
    r.append("\"\nchmod +x \"");
    r.append(current);
    r.append("\"\nrm -f \"");
    r.append(flag);
    r.append("\"\n\"");
    r.append(current);
    r.append("\" &\n");
    r
}

/// The helper script of the deferred swap for Windows.
pub fn windows_script(current: &str, new: &str, flag: &str) -> (r: String)
    ensures
        r@ == windows_script_text(current@, new@, flag@),
{
    let mut r = String::new();
    r.append(
        "@echo off\nchcp 65001 >nul\necho Aplicando actualización...\ntimeout /t 3 /nobreak >nul\n:retry\ndel /F /Q \"",
    );
    r.append(current);
    r.append("\" 2>nul\nif exist \"");
    r.append(current);
    r.append("\" ( timeout /t 1 /nobreak >nul & goto retry )\nmove /Y \"");
    r.append(new);
    r.append("\" \"");
    r.append(current);
    r.append("\"\ndel /F /Q \"");
    r.append(flag);
    r.append("\"\necho Actualización completada. Iniciando...\nstart \"\" \"");
    r.append(current);
    r.append("\"\ntimeout /t 1 /nobreak >nul\ndel \"%~f0\"\n");
    r
}

/// The helper script for the platform: a batch script on Windows, a shell
/// script elsewhere.
pub fn helper_script(windows: bool, current: &str, new: &str, flag: &str) -> (r: String)
    ensures
        windows ==> r@ == windows_script_text(current@, new@, flag@),
        !windows ==> r@ == unix_script_text(current@, new@, flag@),
{
    if windows {
        windows_script(current, new, flag)
    } else {
        unix_script(current, new, flag)
    }
}

} // verus!
