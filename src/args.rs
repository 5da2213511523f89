use vstd::prelude::*;
use crate::remover::{Mode, Remover};

verus! {

pub const DRY_RUN_FLAG: &'static str = "--dry-run";

pub const SILENT_RUN_FLAG: &'static str = "--silent-run";

pub const NO_CONFIRM_FLAG: &'static str = "--no-confirm";

/// Why a run cannot start.
#[derive(Clone, Copy, PartialEq, Eq, Structural, Debug)]
pub enum ArgError {
    MissingPath,
    NotFound,
    NotADirectory,
}

/// What the command line asks for: the policy and the root to scan.
#[derive(Debug)]
pub struct Config {
    pub remover: Remover,
    pub root: String,
}

pub open spec fn default_remover() -> Remover {
    Remover { mode: Mode::Remove, log: true, confirm: true }
}

/// The policy and the root path after the first `n` arguments, each taken in
/// turn: a flag changes the policy, anything else is the root, the last such
/// argument winning.
pub open spec fn settings_after(args: Seq<String>, n: nat) -> (Remover, Option<Seq<char>>)
    decreases n,
{
    if n == 0 || n > args.len() {
        (default_remover(), None)
    } else {
        let (r, root) = settings_after(args, (n - 1) as nat);
        let a = args[n - 1]@;
        if a == DRY_RUN_FLAG@ {
            (Remover { mode: Mode::Dry, log: true, ..r }, root)
        } else if a == SILENT_RUN_FLAG@ {
            (Remover { log: false, ..r }, root)
        } else if a == NO_CONFIRM_FLAG@ {
            (Remover { confirm: false, ..r }, root)
        } else {
            (r, Some(a))
        }
    }
}

pub open spec fn settings(args: Seq<String>) -> (Remover, Option<Seq<char>>) {
    settings_after(args, args.len())
}

/// Reads the command-line arguments, the program's name left out. Fails
/// with `MissingPath` exactly when every argument is a flag.
pub fn parse_args(args: &Vec<String>) -> (res: Result<Config, ArgError>)
    ensures
        match res {
            Ok(c) => settings(args@) == (c.remover, Some(c.root@)),
            Err(e) => e == ArgError::MissingPath && settings(args@).1 == None::<Seq<char>>,
        },
{
    let dry = DRY_RUN_FLAG.to_owned();
    let silent = SILENT_RUN_FLAG.to_owned();
    let no_confirm = NO_CONFIRM_FLAG.to_owned();
    let mut remover = Remover::default();
    let mut root: Option<String> = None;
    let mut i: usize = 0;
    while i < args.len()
        invariant
            i <= args@.len(),
            dry@ == DRY_RUN_FLAG@,
            silent@ == SILENT_RUN_FLAG@,
            no_confirm@ == NO_CONFIRM_FLAG@,
            settings_after(args@, i as nat) == (remover, match root {
                Some(s) => Some(s@),
                None => None,
            }),
        decreases args@.len() - i,
    {
        let a = &args[i];
        if *a == dry {
            remover.mode = Mode::Dry;
            remover.log = true;
        } else if *a == silent {
            remover.log = false;
        } else if *a == no_confirm {
            remover.confirm = false;
        } else {
            root = Some(a.clone());
        }
        i = i + 1;
    }
    match root {
        Some(root) => Ok(Config { remover, root }),
        None => Err(ArgError::MissingPath),
    }
}

/// Whether the root path, as the filesystem reports on it, can be scanned.
pub fn check_root(exists: bool, is_dir: bool) -> (res: Result<(), ArgError>)
    ensures
        !exists ==> res == Err::<(), ArgError>(ArgError::NotFound),
        exists && !is_dir ==> res == Err::<(), ArgError>(ArgError::NotADirectory),
        exists && is_dir ==> res == Ok::<(), ArgError>(()),
{
    if !exists {
        Err(ArgError::NotFound)
    } else if !is_dir {
        Err(ArgError::NotADirectory)
    } else {
        Ok(())
    }
}

} // verus!
