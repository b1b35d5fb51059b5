//! The command lines the shell hands to the host: package-manager calls
//! (with privilege elevation where it is due), availability probes and the
//! host shell itself.
use vstd::prelude::*;
use vstd::string::*;
use crate::platform::Platform;
use crate::text::{Delim, opt_text, pieces, same_text, split_by, texts};

verus! {

/// The system package managers that must run with elevated privileges.
pub open spec fn is_system_manager(name: Seq<char>) -> bool {
    name == "apt"@ || name == "dnf"@ || name == "pacman"@ || name == "zypper"@ || name == "port"@
}

/// Whether a call of manager `name` must be wrapped in `sudo`: on Linux and
/// macOS alike, for the system managers only, and only when the shell does
/// not already run as root. (Both platforms are gated by the same set of
/// system managers.)
pub open spec fn needs_elevation(platform: Platform, name: Seq<char>, root: bool) -> bool {
    (platform == Platform::Linux || platform == Platform::MacOS) && is_system_manager(name)
        && !root
}

/// The words of a package-manager call: `sudo` first when elevated, then
/// the template's words, then the target if there is one.
pub open spec fn command_words(template: Seq<char>, target: Option<Seq<char>>, elevate: bool) -> Seq<
    Seq<char>,
> {
    let head: Seq<Seq<char>> = if elevate {
        seq!["sudo"@]
    } else {
        Seq::empty()
    };
    let tail: Seq<Seq<char>> = match target {
        Some(t) => seq![t],
        None => Seq::empty(),
    };
    head + pieces(template, Delim::Space) + tail
}

/// The call that tells whether `program` is on the search path.
pub open spec fn probe_words(platform: Platform, program: Seq<char>) -> Seq<Seq<char>> {
    if platform == Platform::Windows {
        seq!["where"@, program]
    } else {
        seq!["which"@, program]
    }
}

/// The call of the host shell that runs `line`.
pub open spec fn shell_words(platform: Platform, line: Seq<char>) -> Seq<Seq<char>> {
    if platform == Platform::Windows {
        seq!["cmd"@, "/C"@, line]
    } else {
        seq!["sh"@, "-c"@, line]
    }
}

/// Relies on `is_root::is_root`: whether the process runs with superuser
/// (or, on Windows, elevated) rights. Nothing is promised of the answer.
#[verifier::external_body]
pub(crate) fn running_as_root() -> (r: bool) {
    is_root::is_root()
}

/// Whether a call of the manager `name` must be elevated, given whether the
/// shell runs as root.
pub fn requires_elevation(platform: Platform, name: &str, root: bool) -> (r: bool)
    ensures
        r == needs_elevation(platform, name@, root),
{
    (platform == Platform::Linux || platform == Platform::MacOS) && !root && (same_text(name, "apt")
        || same_text(name, "dnf") || same_text(name, "pacman") || same_text(name, "zypper")
        || same_text(name, "port"))
}

/// Builds a package-manager call from a command template.
pub fn command_line(template: &str, target: Option<&str>, elevate: bool) -> (r: Vec<String>)
    ensures
        texts(r@) == command_words(template@, opt_text(target), elevate),
{
    let mut out: Vec<String> = Vec::new();
    if elevate {
        out.push("sudo".to_owned());
    }
    let ghost head = texts(out@);
    let mut words = split_by(template, Delim::Space);
    let ghost body = texts(words@);
    out.append(&mut words);
    assert(texts(out@) =~= head + body);
    match target {
        Some(t) => {
            let ghost before = out@;
            out.push(t.to_owned());
            assert(texts(out@) =~= texts(before).push(t@));
        },
        None => {},
    }
    assert(texts(out@) =~= command_words(template@, opt_text(target), elevate));
    out
}

/// The call that tells whether `program` is on the search path: `where` on
/// Windows, `which` elsewhere.
pub fn probe_command(platform: Platform, program: &str) -> (r: Vec<String>)
    ensures
        texts(r@) == probe_words(platform, program@),
{
    let finder = if platform == Platform::Windows {
        "where"
    } else {
        "which"
    };
    let r = vec![finder.to_owned(), program.to_owned()];
    assert(texts(r@) =~= probe_words(platform, program@));
    r
}

/// The call of the host shell that runs `line`: `cmd /C` on Windows,
/// `sh -c` elsewhere.
pub fn shell_command(platform: Platform, line: &str) -> (r: Vec<String>)
    ensures
        texts(r@) == shell_words(platform, line@),
{
    let r = if platform == Platform::Windows {
        vec!["cmd".to_owned(), "/C".to_owned(), line.to_owned()]
    } else {
        vec!["sh".to_owned(), "-c".to_owned(), line.to_owned()]
    };
    assert(texts(r@) =~= shell_words(platform, line@));
    r
}

} // verus!
