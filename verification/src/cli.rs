//! The command line of the editor: which front end to start, or the help
//! or version text to print.
use crate::text::{owned, str_equal};
use vstd::prelude::*;

verus! {

/// What the command line asks for.
#[derive(Debug, Clone, PartialEq, Eq)]
pub enum LaunchRequest {
    /// Print the usage.
    Help,
    /// Print the version.
    Version,
    /// An option the editor does not know.
    UnknownOption(String),
    /// Start the editor, in the terminal when `force_tui`.
    Run { force_tui: bool },
}

/// The request of the options `args[i..]`, with the terminal front end
/// chosen so far in `force_tui`: `--tui` and `--gui` choose (the last one
/// counts), help, version and an unknown option end the reading.
pub open spec fn launch_from(args: Seq<Seq<char>>, i: int, force_tui: bool) -> LaunchRequestView
    decreases args.len() - i,
{
    if i < 0 || i >= args.len() {
        LaunchRequestView::Run(force_tui)
    } else {
        let a = args[i];
        if a == "--tui"@ {
            launch_from(args, i + 1, true)
        } else if a == "--gui"@ {
            launch_from(args, i + 1, false)
        } else if a == "-h"@ || a == "--help"@ {
            LaunchRequestView::Help
        } else if a == "-V"@ || a == "--version"@ {
            LaunchRequestView::Version
        } else {
            LaunchRequestView::UnknownOption(a)
        }
    }
}

/// A request with its option as characters.
pub enum LaunchRequestView {
    Help,
    Version,
    UnknownOption(Seq<char>),
    Run(bool),
}

impl View for LaunchRequest {
    type V = LaunchRequestView;

    open spec fn view(&self) -> LaunchRequestView {
        match self {
            LaunchRequest::Help => LaunchRequestView::Help,
            LaunchRequest::Version => LaunchRequestView::Version,
            LaunchRequest::UnknownOption(a) => LaunchRequestView::UnknownOption(a@),
            LaunchRequest::Run { force_tui } => LaunchRequestView::Run(*force_tui),
        }
    }
}

/// Reads the options (the program name left out); the graphical front end
/// is the default.
pub fn parse_launch_args(args: &[String]) -> (r: LaunchRequest)
    ensures
        r@ == launch_from(crate::collate::texts(args@), 0, false),
{
    let ghost ts = crate::collate::texts(args@);
    let mut force_tui = false;
    let mut i: usize = 0;
    proof {
        reveal_strlit("--tui");
        reveal_strlit("--gui");
        reveal_strlit("-h");
        reveal_strlit("--help");
        reveal_strlit("-V");
        reveal_strlit("--version");
    }
    while i < args.len()
        invariant
            i <= args@.len(),
            ts == crate::collate::texts(args@),
            launch_from(ts, i as int, force_tui) == launch_from(ts, 0, false),
        decreases args@.len() - i,
    {
        let a = args[i].as_str();
        assert(ts[i as int] == a@);
        if str_equal(a, "--tui") {
            force_tui = true;
        } else if str_equal(a, "--gui") {
            force_tui = false;
        } else if str_equal(a, "-h") || str_equal(a, "--help") {
            return LaunchRequest::Help;
        } else if str_equal(a, "-V") || str_equal(a, "--version") {
            return LaunchRequest::Version;
        } else {
            return LaunchRequest::UnknownOption(owned(a));
        }
        i += 1;
    }
    LaunchRequest::Run { force_tui }
}

} // verus!
