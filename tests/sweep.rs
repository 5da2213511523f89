use target_sweep::args::{check_root, parse_args, ArgError};
use target_sweep::remover::{Action, Event, Mode, Outcome, Remover};
use target_sweep::reply::parse_reply;
use target_sweep::scan::{classify, scan, Entry, Kind, ScanState, Step};

fn file(name: &str) -> Entry {
    Entry { name: name.to_string(), is_dir: false }
}

fn dir(name: &str) -> Entry {
    Entry { name: name.to_string(), is_dir: true }
}

fn args(list: &[&str]) -> Vec<String> {
    list.iter().map(|s| s.to_string()).collect()
}

/// A directory tree held in memory, walked the way the program walks disk.
enum Node {
    File,
    Dir(Vec<(String, Node)>),
}

fn walk(path: &str, children: &[(String, Node)], removed: &mut Vec<String>, visited: &mut Vec<String>) {
    visited.push(path.to_string());
    let entries: Vec<Entry> = children
        .iter()
        .map(|(n, node)| Entry { name: n.clone(), is_dir: matches!(node, Node::Dir(_)) })
        .collect();
    for step in scan(&entries) {
        match step {
            Step::Remove(i) => removed.push(format!("{}/{}", path, children[i].0)),
            Step::Recurse(i) => {
                if let Node::Dir(sub) = &children[i].1 {
                    walk(&format!("{}/{}", path, children[i].0), sub, removed, visited);
                }
            }
        }
    }
}

fn project(order_marker_first: bool) -> Node {
    let target = ("target".to_string(), Node::Dir(vec![("debug".to_string(), Node::Dir(vec![]))]));
    let marker = ("Cargo.toml".to_string(), Node::File);
    let proj = if order_marker_first { vec![marker, target] } else { vec![target, marker] };
    Node::Dir(vec![("proj".to_string(), Node::Dir(proj))])
}

#[test]
fn marker_then_build_dir_removes_it() {
    let steps = scan(&vec![file("Cargo.toml"), dir("target")]);
    assert_eq!(steps, vec![Step::Remove(1)]);
}

#[test]
fn build_dir_then_marker_removes_it() {
    let steps = scan(&vec![dir("target"), file("Cargo.toml")]);
    assert_eq!(steps, vec![Step::Remove(0)]);
}

#[test]
fn pairing_with_other_entries_between() {
    let steps = scan(&vec![dir("target"), dir("src"), file("README.md"), file("Cargo.toml"), dir("benches")]);
    assert_eq!(steps, vec![Step::Recurse(1), Step::Remove(0), Step::Recurse(4)]);
}

#[test]
fn marker_alone_removes_nothing_and_recurses() {
    let steps = scan(&vec![file("Cargo.toml"), dir("src"), file("lib.rs"), dir("tests")]);
    assert_eq!(steps, vec![Step::Recurse(1), Step::Recurse(3)]);
}

#[test]
fn build_dir_alone_is_neither_removed_nor_scanned() {
    let steps = scan(&vec![dir("target"), dir("docs")]);
    assert_eq!(steps, vec![Step::Recurse(1)]);
}

#[test]
fn empty_listing_gives_no_steps() {
    assert_eq!(scan(&vec![]), Vec::<Step>::new());
}

#[test]
fn names_match_case_sensitively() {
    let steps = scan(&vec![file("cargo.toml"), dir("Target")]);
    assert_eq!(steps, vec![Step::Recurse(1)]);
    assert_eq!(classify(&"Cargo.toml".to_string()), Kind::Marker);
    assert_eq!(classify(&"target".to_string()), Kind::BuildDir);
    assert_eq!(classify(&"TARGET".to_string()), Kind::Other);
    assert_eq!(classify(&"".to_string()), Kind::Other);
}

#[test]
fn first_occurrence_of_each_name_wins() {
    let steps = scan(&vec![dir("target"), dir("target"), file("Cargo.toml"), file("Cargo.toml")]);
    assert_eq!(steps, vec![Step::Remove(0)]);
    let steps = scan(&vec![file("Cargo.toml"), file("Cargo.toml"), dir("target"), dir("target")]);
    assert_eq!(steps, vec![Step::Remove(2)]);
}

#[test]
fn scan_state_moves_through_pairing() {
    let mut st = ScanState::new();
    assert_eq!(st, ScanState::Open);
    assert_eq!(st.observe(Kind::BuildDir, true, 3), None);
    assert_eq!(st, ScanState::Pending(3));
    assert_eq!(st.observe(Kind::Other, true, 4), Some(Step::Recurse(4)));
    assert_eq!(st.observe(Kind::Marker, false, 5), Some(Step::Remove(3)));
    assert_eq!(st, ScanState::Resolved);
    assert_eq!(st.observe(Kind::BuildDir, true, 6), None);
}

#[test]
fn tree_walk_in_either_order_removes_proj_target() {
    for marker_first in [true, false] {
        let root = project(marker_first);
        let mut removed = Vec::new();
        let mut visited = Vec::new();
        if let Node::Dir(children) = &root {
            walk("root", children, &mut removed, &mut visited);
        }
        assert_eq!(removed, vec!["root/proj/target".to_string()]);
        assert_eq!(visited, vec!["root".to_string(), "root/proj".to_string()]);
    }
}

#[test]
fn no_confirm_default_mode_deletes() {
    let c = parse_args(&args(&["--no-confirm", "root"])).unwrap();
    assert_eq!(c.root, "root");
    assert_eq!(c.remover, Remover { mode: Mode::Remove, log: true, confirm: false });
    assert_eq!(c.remover.remove(Event::Start), Action::Delete);
    assert_eq!(c.remover.remove(Event::Deleted), Action::Report(Outcome::Removed));
}

#[test]
fn dry_silent_run_does_nothing_and_prints_nothing() {
    let c = parse_args(&args(&["--dry-run", "--silent-run", "root"])).unwrap();
    assert_eq!(c.remover, Remover { mode: Mode::Dry, log: false, confirm: true });
    assert_eq!(c.remover.remove(Event::Start), Action::Done);
    assert_eq!(c.remover.remove(Event::Reply(Some(true))), Action::Done);
}

#[test]
fn dry_run_forces_logging_on() {
    let c = parse_args(&args(&["--silent-run", "--dry-run", "root"])).unwrap();
    assert_eq!(c.remover, Remover { mode: Mode::Dry, log: true, confirm: true });
    assert_eq!(c.remover.remove(Event::Start), Action::Report(Outcome::WouldRemove));
}

#[test]
fn dry_run_never_deletes_whatever_the_confirmation() {
    for confirm in [true, false] {
        let r = Remover { mode: Mode::Dry, log: true, confirm };
        for ev in [Event::Start, Event::Reply(Some(true)), Event::Reply(None), Event::Deleted] {
            assert_eq!(r.remove(ev), Action::Report(Outcome::WouldRemove));
        }
    }
}

#[test]
fn default_policy_asks_first() {
    let r = Remover::default();
    assert_eq!(r, Remover { mode: Mode::Remove, log: true, confirm: true });
    assert_eq!(r.remove(Event::Start), Action::Prompt);
}

#[test]
fn replies_gate_the_deletion() {
    let r = Remover::default();
    assert_eq!(r.remove(Event::Reply(parse_reply("no"))), Action::Report(Outcome::Skipped));
    assert_eq!(r.remove(Event::Reply(parse_reply("n"))), Action::Report(Outcome::Skipped));
    assert_eq!(r.remove(Event::Reply(parse_reply("yes"))), Action::Delete);
    assert_eq!(r.remove(Event::Reply(parse_reply("y"))), Action::Delete);
    assert_eq!(r.remove(Event::Reply(parse_reply("maybe"))), Action::Prompt);
}

#[test]
fn reply_parsing_is_exact() {
    assert_eq!(parse_reply("y"), Some(true));
    assert_eq!(parse_reply("yes"), Some(true));
    assert_eq!(parse_reply("n"), Some(false));
    assert_eq!(parse_reply("no"), Some(false));
    assert_eq!(parse_reply("Y"), None);
    assert_eq!(parse_reply("YES"), None);
    assert_eq!(parse_reply("yes "), None);
    assert_eq!(parse_reply(""), None);
}

#[test]
fn silent_mode_keeps_decisions() {
    let loud = Remover { mode: Mode::Remove, log: true, confirm: true };
    let quiet = Remover { mode: Mode::Remove, log: false, confirm: true };
    assert_eq!(quiet.remove(Event::Start), Action::Prompt);
    assert_eq!(quiet.remove(Event::Reply(Some(true))), Action::Delete);
    assert_eq!(loud.remove(Event::Reply(Some(false))), Action::Report(Outcome::Skipped));
    assert_eq!(quiet.remove(Event::Reply(Some(false))), Action::Done);
    assert_eq!(quiet.remove(Event::Deleted), Action::Done);
}

#[test]
fn missing_path_is_an_error() {
    assert_eq!(parse_args(&args(&[])).unwrap_err(), ArgError::MissingPath);
    assert_eq!(parse_args(&args(&["--dry-run", "--no-confirm"])).unwrap_err(), ArgError::MissingPath);
}

#[test]
fn last_path_argument_is_the_root() {
    let c = parse_args(&args(&["a", "--no-confirm", "b"])).unwrap();
    assert_eq!(c.root, "b");
}

#[test]
fn root_must_be_an_existing_directory() {
    assert_eq!(check_root(false, false), Err(ArgError::NotFound));
    assert_eq!(check_root(true, false), Err(ArgError::NotADirectory));
    assert_eq!(check_root(true, true), Ok(()));
}
