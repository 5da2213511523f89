use vstd::prelude::*;

verus! {

/// Name of the file that marks a directory as a project root.
pub const MARKER_NAME: &'static str = "Cargo.toml";

/// Name of the build-output directory that sits beside the marker.
pub const BUILD_DIR_NAME: &'static str = "target";

/// One child of a directory, as one listing of that directory reported it.
pub struct Entry {
    pub name: String,
    pub is_dir: bool,
}

/// What an entry's name makes of it.
#[derive(Clone, Copy, PartialEq, Eq, Structural, Debug)]
pub enum Kind {
    Marker,
    BuildDir,
    Other,
}

/// What the scan of one directory asks for, by the entry's position in the
/// listing.
#[derive(Clone, Copy, PartialEq, Eq, Structural, Debug)]
pub enum Step {
    /// Hand the entry to the remover; it is never scanned.
    Remove(usize),
    /// Scan the entry, a directory, in turn.
    Recurse(usize),
}

/// How far the pairing of marker and build-output directory has come in the
/// listing of one directory. At most one of "marker seen" and "build-output
/// directory pending" holds at a time; once both names have been met the
/// pairing is resolved and later occurrences of either name are ignored.
#[derive(Clone, Copy, PartialEq, Eq, Structural, Debug)]
pub enum ScanState {
    Open,
    MarkerSeen,
    Pending(usize),
    Resolved,
}

pub open spec fn kind_of(name: Seq<char>) -> Kind {
    if name == MARKER_NAME@ {
        Kind::Marker
    } else if name == BUILD_DIR_NAME@ {
        Kind::BuildDir
    } else {
        Kind::Other
    }
}

/// The state after the entry at position `i`, and the step it asks for.
pub open spec fn next(st: ScanState, kind: Kind, is_dir: bool, i: usize) -> (ScanState, Option<Step>) {
    match kind {
        Kind::Marker => match st {
            ScanState::Open => (ScanState::MarkerSeen, None),
            ScanState::Pending(p) => (ScanState::Resolved, Some(Step::Remove(p))),
            _ => (st, None),
        },
        Kind::BuildDir => match st {
            ScanState::Open => (ScanState::Pending(i), None),
            ScanState::MarkerSeen => (ScanState::Resolved, Some(Step::Remove(i))),
            _ => (st, None),
        },
        Kind::Other => if is_dir {
            (st, Some(Step::Recurse(i)))
        } else {
            (st, None)
        },
    }
}

/// The state and the steps after the first `n` entries of a listing.
pub open spec fn scan_prefix(es: Seq<Entry>, n: nat) -> (ScanState, Seq<Step>)
    decreases n,
{
    if n == 0 || n > es.len() {
        (ScanState::Open, Seq::empty())
    } else {
        let (st, steps) = scan_prefix(es, (n - 1) as nat);
        let e = es[n - 1];
        let (st2, s) = next(st, kind_of(e.name@), e.is_dir, (n - 1) as usize);
        match s {
            Some(x) => (st2, steps.push(x)),
            None => (st2, steps),
        }
    }
}

/// The steps that the scan of a directory with this listing takes, in order.
pub open spec fn plan_of(es: Seq<Entry>) -> Seq<Step> {
    scan_prefix(es, es.len()).1
}

/// Tells the two fixed names apart from all others, exactly and
/// case-sensitively.
pub fn classify(name: &String) -> (k: Kind)
    ensures
        k == kind_of(name@),
{
    let marker = MARKER_NAME.to_owned();
    let build = BUILD_DIR_NAME.to_owned();
    if *name == marker {
        Kind::Marker
    } else if *name == build {
        Kind::BuildDir
    } else {
        Kind::Other
    }
}

impl ScanState {
    pub fn new() -> (st: ScanState)
        ensures
            st == ScanState::Open,
    {
        ScanState::Open
    }

    /// Takes in the entry at position `i` of the listing and returns the step
    /// it asks for, if any.
    pub fn observe(&mut self, kind: Kind, is_dir: bool, i: usize) -> (s: Option<Step>)
        ensures
            (*final(self), s) == next(*old(self), kind, is_dir, i),
    {
        match kind {
            Kind::Marker => match *self {
                ScanState::Open => {
                    *self = ScanState::MarkerSeen;
                    None
                },
                ScanState::Pending(p) => {
                    *self = ScanState::Resolved;
                    Some(Step::Remove(p))
                },
                _ => None,
            },
            Kind::BuildDir => match *self {
                ScanState::Open => {
                    *self = ScanState::Pending(i);
                    None
                },
                ScanState::MarkerSeen => {
                    *self = ScanState::Resolved;
                    Some(Step::Remove(i))
                },
                _ => None,
            },
            Kind::Other => if is_dir {
                Some(Step::Recurse(i))
            } else {
                None
            },
        }
    }
}

/// Decides, from one listing of a directory, which entries go to the remover
/// and which are scanned in turn, in listing order. A build-output directory
/// is removed once the marker has also been met in the same listing, in
/// whichever order the two came; every other directory is recursed into.
pub fn scan(entries: &Vec<Entry>) -> (steps: Vec<Step>)
    ensures
        steps@ == plan_of(entries@),
{
    let mut st = ScanState::new();
    let mut steps: Vec<Step> = Vec::new();
    let mut i: usize = 0;
    while i < entries.len()
        invariant
            i <= entries@.len(),
            (st, steps@) == scan_prefix(entries@, i as nat),
        decreases entries@.len() - i,
    {
        let e = &entries[i];
        let kind = classify(&e.name);
        let s = st.observe(kind, e.is_dir, i);
        match s {
            Some(x) => steps.push(x),
            None => {},
        }
        i = i + 1;
    }
    steps
}

} // verus!
