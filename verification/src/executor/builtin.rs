//! The built-in commands as file operations.

use crate::error::{ErrorView, VshError};
use crate::parser::{texts, Command, CommandView, Intent};
use crate::system::home_dir;
use crate::text::{opt_text, opt_view, starts_with, starts_with_char, str_eq, trim, trimmed};
use vstd::prelude::*;
use vstd::string::*;

verus! {

/// One operation on the file system, with everything it needs.
#[derive(Debug, Clone)]
pub enum FileAction {
    /// Copy the file `source` to `destination`.
    Copy { source: String, destination: String },
    /// Move `source` to `destination`.
    Move { source: String, destination: String },
    /// Remove `target`; ask first unless `force` is set.
    Remove { target: String, force: bool },
    /// List the directory `path`.
    List { path: String },
    /// Make `path` the working directory.
    ChangeDirectory { path: String },
}

/// A file operation as a mathematical value.
pub enum ActionView {
    Copy { source: Seq<char>, destination: Seq<char> },
    Move { source: Seq<char>, destination: Seq<char> },
    Remove { target: Seq<char>, force: bool },
    List { path: Seq<char> },
    ChangeDirectory { path: Seq<char> },
}

impl View for FileAction {
    type V = ActionView;

    open spec fn view(&self) -> ActionView {
        match self {
            FileAction::Copy { source, destination } => ActionView::Copy {
                source: source@,
                destination: destination@,
            },
            FileAction::Move { source, destination } => ActionView::Move {
                source: source@,
                destination: destination@,
            },
            FileAction::Remove { target, force } => ActionView::Remove {
                target: target@,
                force: *force,
            },
            FileAction::List { path } => ActionView::List { path: path@ },
            FileAction::ChangeDirectory { path } => ActionView::ChangeDirectory { path: path@ },
        }
    }
}

/// The outcome of planning as a mathematical value.
pub open spec fn action_outcome(r: Result<FileAction, VshError>) -> Result<ActionView, ErrorView> {
    match r {
        Ok(action) => Ok(action@),
        Err(e) => Err(e@),
    }
}

/// The operation that a command asks for. Copy and move need a source and
/// a destination, remove needs a source and is forced by the flag `-f`,
/// list works on `.` and change directory on `~` where no path is given.
pub open spec fn plan(cmd: CommandView) -> Result<ActionView, ErrorView> {
    let args = cmd.args;
    match cmd.intent {
        Intent::Copy => {
            if args.source is None {
                Err(ErrorView::InvalidSyntax("Missing source"@))
            } else if args.destination is None {
                Err(ErrorView::InvalidSyntax("Missing destination"@))
            } else {
                Ok(ActionView::Copy { source: args.source->0, destination: args.destination->0 })
            }
        },
        Intent::Move => {
            if args.source is None {
                Err(ErrorView::InvalidSyntax("Missing source"@))
            } else if args.destination is None {
                Err(ErrorView::InvalidSyntax("Missing destination"@))
            } else {
                Ok(ActionView::Move { source: args.source->0, destination: args.destination->0 })
            }
        },
        Intent::Remove => {
            if args.source is None {
                Err(ErrorView::InvalidSyntax("Missing file to remove"@))
            } else {
                Ok(ActionView::Remove { target: args.source->0, force: args.flags.contains("-f"@) })
            }
        },
        Intent::List => Ok(
            ActionView::List {
                path: match args.path {
                    Some(path) => path,
                    None => "."@,
                },
            },
        ),
        Intent::ChangeDirectory => Ok(
            ActionView::ChangeDirectory {
                path: match args.path {
                    Some(path) => path,
                    None => "~"@,
                },
            },
        ),
    }
}

/// A path with a leading `~` replaced by the home directory, where one is
/// known; any other path as it is.
pub open spec fn expand_home_spec(path: Seq<char>, home: Option<Seq<char>>) -> Seq<char> {
    match home {
        Some(home) if starts_with(path, '~') => home + path.skip(1),
        _ => path,
    }
}

/// Whether `flag` is among `flags`.
pub fn has_flag(flags: &Vec<String>, flag: &str) -> (r: bool)
    ensures
        r == texts(flags@).contains(flag@),
{
    let n: usize = flags.len();
    let mut i: usize = 0;
    while i < n
        invariant
            n == flags@.len(),
            i <= n,
            forall|j: int| 0 <= j < i ==> texts(flags@)[j] != flag@,
        decreases n - i,
    {
        if str_eq(flags[i].as_str(), flag) {
            assert(texts(flags@)[i as int] == flag@);
            return true;
        }
        i += 1;
    }
    false
}

/// Decides which file operation a command asks for.
pub fn execute_builtin(cmd: Command) -> (r: Result<FileAction, VshError>)
    ensures
        action_outcome(r) == plan(cmd@),
{
    let Command { intent, args, syntax_used: _ } = cmd;
    match intent {
        Intent::Copy => {
            let source = match args.source {
                Some(source) => source,
                None => {
                    return Err(VshError::invalid_syntax("Missing source"));
                },
            };
            let destination = match args.destination {
                Some(destination) => destination,
                None => {
                    return Err(VshError::invalid_syntax("Missing destination"));
                },
            };
            Ok(FileAction::Copy { source, destination })
        },
        Intent::Move => {
            let source = match args.source {
                Some(source) => source,
                None => {
                    return Err(VshError::invalid_syntax("Missing source"));
                },
            };
            let destination = match args.destination {
                Some(destination) => destination,
                None => {
                    return Err(VshError::invalid_syntax("Missing destination"));
                },
            };
            Ok(FileAction::Move { source, destination })
        },
        Intent::Remove => {
            let target = match args.source {
                Some(source) => source,
                None => {
                    return Err(VshError::invalid_syntax("Missing file to remove"));
                },
            };
            let force = has_flag(&args.flags, "-f");
            Ok(FileAction::Remove { target, force })
        },
        Intent::List => {
            let path = match args.path {
                Some(path) => path,
                None => ".".to_string(),
            };
            Ok(FileAction::List { path })
        },
        Intent::ChangeDirectory => {
            let path = match args.path {
                Some(path) => path,
                None => "~".to_string(),
            };
            Ok(FileAction::ChangeDirectory { path })
        },
    }
}

/// Replaces a leading `~` of `path` by the home directory, if one is known.
pub fn expand_home(path: &str, home: Option<&str>) -> (r: String)
    ensures
        r@ == expand_home_spec(path@, opt_view(home)),
{
    match home {
        Some(home) => {
            if starts_with_char(path, '~') {
                let n: usize = path.unicode_len();
                let rest = path.substring_char(1, n);
                assert(rest@ =~= path@.skip(1));
                String::from_str(home).concat(rest)
            } else {
                path.to_string()
            }
        },
        None => path.to_string(),
    }
}

/// Replaces a leading `~` of `path` by the user's home directory, where the
/// machine knows one. A path without a leading `~` comes back as it is.
pub fn expand_tilde(path: &str) -> (r: String)
    ensures
        exists|home: Option<Seq<char>>| r@ == expand_home_spec(path@, home),
        !starts_with(path@, '~') ==> r@ == path@,
{
    let home = home_dir();
    let r = match &home {
        Some(home) => expand_home(path, Some(home.as_str())),
        None => expand_home(path, None),
    };
    assert(r@ == expand_home_spec(path@, opt_text(home)));
    r
}

/// What is found at a path.
#[derive(Debug, Clone, Copy, PartialEq, Eq, Structural)]
pub enum PathKind {
    /// Nothing is there.
    Missing,
    /// A regular file.
    File,
    /// A directory.
    Directory,
    /// Something else.
    Other,
}

/// The text that says that `path` is no directory.
pub open spec fn not_a_directory(path: Seq<char>) -> Seq<char> {
    "'"@ + path + "' is not a directory"@
}

/// What stands in the way of an operation, if anything does, where `kind`
/// is what is found at its source, target or path. Nothing can be done
/// with what is missing; a directory is not copied; only a directory is
/// listed or entered.
pub open spec fn obstacle(action: ActionView, kind: PathKind) -> Option<ErrorView> {
    match action {
        ActionView::Copy { source, destination } => {
            if kind == PathKind::Missing {
                Some(ErrorView::FileNotFound(source))
            } else if kind == PathKind::Directory {
                Some(
                    ErrorView::ExecutionError(
                        "Directory copy not yet implemented. Use -r flag (coming soon)"@,
                    ),
                )
            } else {
                None
            }
        },
        ActionView::Move { source, destination } => {
            if kind == PathKind::Missing {
                Some(ErrorView::FileNotFound(source))
            } else {
                None
            }
        },
        ActionView::Remove { target, force } => {
            if kind == PathKind::Missing {
                Some(ErrorView::FileNotFound(target))
            } else {
                None
            }
        },
        ActionView::List { path } | ActionView::ChangeDirectory { path } => {
            if kind == PathKind::Missing {
                Some(ErrorView::FileNotFound(path))
            } else if kind != PathKind::Directory {
                Some(ErrorView::ExecutionError(not_a_directory(path)))
            } else {
                None
            }
        },
    }
}

fn missing(path: &String) -> (e: VshError)
    ensures
        e@ == ErrorView::FileNotFound(path@),
{
    VshError::FileNotFound(path.clone())
}

fn no_directory(path: &String) -> (e: VshError)
    ensures
        e@ == ErrorView::ExecutionError(not_a_directory(path@)),
{
    VshError::ExecutionError(
        String::from_str("'").concat(path.as_str()).concat("' is not a directory"),
    )
}

/// Checks an operation against what is found at its source, target or
/// path, before anything is changed.
pub fn check_action(action: &FileAction, kind: PathKind) -> (r: Result<(), VshError>)
    ensures
        match r {
            Ok(_) => obstacle(action@, kind) is None,
            Err(e) => obstacle(action@, kind) == Some(e@),
        },
{
    match action {
        FileAction::Copy { source, destination: _ } => {
            if kind == PathKind::Missing {
                Err(missing(source))
            } else if kind == PathKind::Directory {
                Err(
                    VshError::ExecutionError(
                        "Directory copy not yet implemented. Use -r flag (coming soon)".to_string(),
                    ),
                )
            } else {
                Ok(())
            }
        },
        FileAction::Move { source, destination: _ } => {
            if kind == PathKind::Missing {
                Err(missing(source))
            } else {
                Ok(())
            }
        },
        FileAction::Remove { target, force: _ } => {
            if kind == PathKind::Missing {
                Err(missing(target))
            } else {
                Ok(())
            }
        },
        FileAction::List { path } => {
            if kind == PathKind::Missing {
                Err(missing(path))
            } else if kind != PathKind::Directory {
                Err(no_directory(path))
            } else {
                Ok(())
            }
        },
        FileAction::ChangeDirectory { path } => {
            if kind == PathKind::Missing {
                Err(missing(path))
            } else if kind != PathKind::Directory {
                Err(no_directory(path))
            } else {
                Ok(())
            }
        },
    }
}

/// Whether an answer to the question before a removal says yes: `y` or
/// `Y`, with white space around it or without.
pub open spec fn is_yes(response: Seq<char>) -> bool {
    trimmed(response) == "y"@ || trimmed(response) == "Y"@
}

/// Whether `response` confirms a removal.
pub fn confirms(response: &str) -> (r: bool)
    ensures
        r == is_yes(response@),
{
    let answer = trim(response);
    str_eq(answer, "y") || str_eq(answer, "Y")
}

} // verus!
