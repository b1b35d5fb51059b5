//! The arguments of `rm` and of `pkg`, and what `rm` does with each target.
use vstd::prelude::*;
use crate::text::{has_char, same_text, texts};

verus! {

/// Whether an argument of `rm` is a flag.
pub open spec fn is_flag(a: Seq<char>) -> bool {
    a.len() > 0 && a[0] == '-'
}

/// Whether an argument of `rm` asks for recursive removal: `-r`, `-R`,
/// `--recursive`, or any other flag but `-f`/`--force` holding `r` or `R`.
pub open spec fn sets_recursive(a: Seq<char>) -> bool {
    a == "-r"@ || a == "-R"@ || a == "--recursive"@ || (a != "-f"@ && a != "--force"@ && is_flag(a)
        && (a.contains('r') || a.contains('R')))
}

/// Whether an argument of `rm` asks to force: `-f`, `--force`, or any other
/// flag but `-r`/`-R`/`--recursive` holding `f`.
pub open spec fn sets_force(a: Seq<char>) -> bool {
    a == "-f"@ || a == "--force"@ || (a != "-r"@ && a != "-R"@ && a != "--recursive"@ && is_flag(a)
        && a.contains('f'))
}

/// What `rm` was asked: its flags and its targets, in order.
#[derive(Debug)]
pub struct RmRequest {
    pub recursive: bool,
    pub force: bool,
    pub targets: Vec<String>,
}

/// What became of a target of `rm` when the shell looked it up.
#[derive(Clone, Copy, Debug, PartialEq, Eq, Structural)]
pub enum Entry {
    /// It could not be looked up (it does not exist, or access failed).
    Missing,
    File,
    Directory,
}

/// What `rm` does with one target.
#[derive(Clone, Copy, Debug, PartialEq, Eq, Structural)]
pub enum RmStep {
    /// Nothing, and say nothing.
    Skip,
    /// Report why the target could not be looked up.
    ReportLookupError,
    /// Report "Is a directory" and leave it.
    ReportIsDirectory,
    RemoveFile,
    RemoveTree,
}

fn flag_effect(a: &str) -> (r: (bool, bool))
    ensures
        r.0 == sets_recursive(a@),
        r.1 == sets_force(a@),
{
    proof {
        reveal_strlit("-f");
        reveal_strlit("--force");
        reveal_strlit("-r");
        reveal_strlit("-R");
        reveal_strlit("--recursive");
    }
    if same_text(a, "-r") || same_text(a, "-R") || same_text(a, "--recursive") {
        assert(a@ != "-f"@ && a@ != "--force"@) by {
            if a@ == "-f"@ || a@ == "--force"@ {
                assert(a@[1] == "-f"@[1] || a@.len() == "--force"@.len());
            }
        }
        (true, false)
    } else if same_text(a, "-f") || same_text(a, "--force") {
        (false, true)
    } else if a.unicode_len() > 0 && a.get_char(0) == '-' {
        (has_char(a, 'r') || has_char(a, 'R'), has_char(a, 'f'))
    } else {
        (false, false)
    }
}

/// Reads the arguments of `rm`. `None` when no target is given.
pub fn parse_rm_args(args: &Vec<String>) -> (r: Option<RmRequest>)
    ensures
        r is None <==> texts(args@).filter(|a: Seq<char>| !is_flag(a)).len() == 0,
        r matches Some(q) ==> {
            &&& q.recursive == exists|i: int|
                0 <= i < args@.len() && #[trigger] sets_recursive(args@[i]@)
            &&& q.force == exists|i: int| 0 <= i < args@.len() && #[trigger] sets_force(args@[i]@)
            &&& texts(q.targets@) == texts(args@).filter(|a: Seq<char>| !is_flag(a))
        },
{
    let mut recursive = false;
    let mut force = false;
    let mut targets: Vec<String> = Vec::new();
    let mut i: usize = 0;
    while i < args.len()
        invariant
            i <= args@.len(),
            recursive == exists|j: int| 0 <= j < i && #[trigger] sets_recursive(args@[j]@),
            force == exists|j: int| 0 <= j < i && #[trigger] sets_force(args@[j]@),
            texts(targets@) == texts(args@).subrange(0, i as int).filter(
                |a: Seq<char>| !is_flag(a),
            ),
        decreases args@.len() - i,
    {
        let a = args[i].as_str();
        let ghost pre = texts(args@).subrange(0, i + 1);
        assert(pre.drop_last() =~= texts(args@).subrange(0, i as int));
        assert(pre.last() == a@);
        reveal(Seq::filter);
        let (r_here, f_here) = flag_effect(a);
        let ghost old_r = recursive;
        let ghost old_f = force;
        recursive = recursive || r_here;
        force = force || f_here;
        assert(recursive == exists|j: int| 0 <= j < i + 1 && #[trigger] sets_recursive(args@[j]@))
            by {
            if r_here {
                assert(sets_recursive(args@[i as int]@));
            }
            if old_r {
                let j = choose|j: int| 0 <= j < i && #[trigger] sets_recursive(args@[j]@);
                assert(sets_recursive(args@[j]@));
            }
        }
        assert(force == exists|j: int| 0 <= j < i + 1 && #[trigger] sets_force(args@[j]@)) by {
            if f_here {
                assert(sets_force(args@[i as int]@));
            }
            if old_f {
                let j = choose|j: int| 0 <= j < i && #[trigger] sets_force(args@[j]@);
                assert(sets_force(args@[j]@));
            }
        }
        let n = a.unicode_len();
        if !(n > 0 && a.get_char(0) == '-') {
            let ghost before = targets@;
            targets.push(a.to_owned());
            assert(texts(targets@) =~= texts(before).push(a@));
        }
        i = i + 1;
    }
    assert(texts(args@).subrange(0, args@.len() as int) =~= texts(args@));
    if targets.len() == 0 {
        None
    } else {
        Some(RmRequest { recursive, force, targets })
    }
}

/// What `rm` does with a target found as `entry`: a missing target is
/// reported unless forced; a directory is removed with its contents only
/// when recursive, else reported and left; a file is removed.
pub fn rm_step(entry: Entry, recursive: bool, force: bool) -> (r: RmStep)
    ensures
        entry == Entry::Missing ==> r == (if force {
            RmStep::Skip
        } else {
            RmStep::ReportLookupError
        }),
        entry == Entry::Directory ==> r == (if recursive {
            RmStep::RemoveTree
        } else {
            RmStep::ReportIsDirectory
        }),
        entry == Entry::File ==> r == RmStep::RemoveFile,
{
    match entry {
        Entry::Missing => if force {
            RmStep::Skip
        } else {
            RmStep::ReportLookupError
        },
        Entry::Directory => if recursive {
            RmStep::RemoveTree
        } else {
            RmStep::ReportIsDirectory
        },
        Entry::File => RmStep::RemoveFile,
    }
}

impl RmRequest {
    /// Whether a failed removal is reported: always, unless forced.
    pub fn reports_failures(&self) -> (r: bool)
        ensures
            r == !self.force,
    {
        !self.force
    }
}

/// A `pkg` command, read from the words after `pkg`.
#[derive(Debug)]
pub enum PkgCommand {
    Install(String),
    Search(String),
    /// Update one package, or everything.
    Update(Option<String>),
    List,
    /// No subcommand was given.
    MissingSubcommand,
    /// `install` without a package.
    MissingPackage,
    /// `search` without a query.
    MissingQuery,
    /// A subcommand that does not exist.
    Unknown(String),
}

pub enum PkgCommandView {
    Install(Seq<char>),
    Search(Seq<char>),
    Update(Option<Seq<char>>),
    List,
    MissingSubcommand,
    MissingPackage,
    MissingQuery,
    Unknown(Seq<char>),
}

impl View for PkgCommand {
    type V = PkgCommandView;

    open spec fn view(&self) -> PkgCommandView {
        match self {
            PkgCommand::Install(p) => PkgCommandView::Install(p@),
            PkgCommand::Search(q) => PkgCommandView::Search(q@),
            PkgCommand::Update(p) => PkgCommandView::Update(
                match p {
                    Some(p) => Some(p@),
                    None => None,
                },
            ),
            PkgCommand::List => PkgCommandView::List,
            PkgCommand::MissingSubcommand => PkgCommandView::MissingSubcommand,
            PkgCommand::MissingPackage => PkgCommandView::MissingPackage,
            PkgCommand::MissingQuery => PkgCommandView::MissingQuery,
            PkgCommand::Unknown(w) => PkgCommandView::Unknown(w@),
        }
    }
}

/// The `pkg` command that the words `args` ask for. Subcommands and their
/// synonyms: `install`/`i`, `search`/`s`, `update`/`u`/`upgrade`,
/// `list`/`ls`. Only the first word after the subcommand is used.
pub open spec fn pkg_command(args: Seq<Seq<char>>) -> PkgCommandView {
    if args.len() == 0 {
        PkgCommandView::MissingSubcommand
    } else {
        let w = args[0];
        if w == "install"@ || w == "i"@ {
            if args.len() < 2 {
                PkgCommandView::MissingPackage
            } else {
                PkgCommandView::Install(args[1])
            }
        } else if w == "search"@ || w == "s"@ {
            if args.len() < 2 {
                PkgCommandView::MissingQuery
            } else {
                PkgCommandView::Search(args[1])
            }
        } else if w == "update"@ || w == "u"@ || w == "upgrade"@ {
            PkgCommandView::Update(
                if args.len() < 2 {
                    None
                } else {
                    Some(args[1])
                },
            )
        } else if w == "list"@ || w == "ls"@ {
            PkgCommandView::List
        } else {
            PkgCommandView::Unknown(w)
        }
    }
}

/// Reads the words after `pkg`.
pub fn parse_package_command(args: &Vec<String>) -> (r: PkgCommand)
    ensures
        r@ == pkg_command(texts(args@)),
{
    if args.len() == 0 {
        return PkgCommand::MissingSubcommand;
    }
    let w = args[0].as_str();
    let second: Option<String> = if args.len() < 2 {
        None
    } else {
        Some(args[1].clone())
    };
    if same_text(w, "install") || same_text(w, "i") {
        match second {
            None => PkgCommand::MissingPackage,
            Some(p) => PkgCommand::Install(p),
        }
    } else if same_text(w, "search") || same_text(w, "s") {
        match second {
            None => PkgCommand::MissingQuery,
            Some(q) => PkgCommand::Search(q),
        }
    } else if same_text(w, "update") || same_text(w, "u") || same_text(w, "upgrade") {
        PkgCommand::Update(second)
    } else if same_text(w, "list") || same_text(w, "ls") {
        PkgCommand::List
    } else {
        PkgCommand::Unknown(w.to_owned())
    }
}

} // verus!
