use unfold::{
    choose_bound, choose_replacement, copy_ops, dir_ops, relink_ops, resolve_link_value,
    revert_ops, settle, validate, Bound, Failure, LinkRead, NodeKind, Op, OptionError,
    Replacement, Resolver, Session, UnfoldError, MAX_LAYERS,
};

const ROOT: &str = "/work";
const MARTIAN_BOOK: &str = "/work/media/books 📖/fiction/The Martian";
const GEORGE_ORWELL_BOOK: &str = "/work/media/books 📖/non-fiction/1984";
const MOVIES: &str = "/work/media/movies 📽";

fn s(text: &str) -> String {
    text.to_string()
}

/// Drives a resolver from `start` over a table of links and their stored values.
fn find_target(start: &str, bound: Bound, links: &[(String, String)]) -> Result<String, UnfoldError> {
    let mut resolver = Resolver::new(s(start), bound);
    while !resolver.finished {
        assert!(!resolver.to_source);
        let read = match links.iter().find(|(p, _)| *p == resolver.current) {
            Some((_, v)) => LinkRead::Value(v.clone()),
            None => LinkRead::NotALink,
        };
        resolver.follow(read)?;
    }
    Ok(resolver.target().clone())
}

/// `symlink_file1` to the book, and each further `symlink_fileN` to the one before.
fn file_chain(book: &str, n: usize) -> Vec<(String, String)> {
    let mut links = Vec::new();
    let mut target = s(book);
    for i in 0..n {
        let link = format!("{}/symlink_file{}", ROOT, i + 1);
        links.push((link.clone(), target));
        target = link;
    }
    links
}

fn chain_ops(n_layers: u8) -> Vec<Op> {
    let links = file_chain(GEORGE_ORWELL_BOOK, 5);
    let start = format!("{}/symlink_file5", ROOT);
    let target = find_target(&start, Bound::Layers(n_layers), &links).unwrap();
    let is_link = links.iter().any(|(p, _)| *p == target);
    let kind = if is_link { NodeKind::Symlink } else { NodeKind::File };
    match choose_replacement(&start, kind).unwrap() {
        Replacement::Relink => {
            let next = find_target(&target, Bound::Layers(1), &links).unwrap();
            relink_ops(&start, &next)
        }
        Replacement::Copy => copy_ops(&start, &target),
        Replacement::DirOfLinks => unreachable!(),
    }
}

#[test]
fn bound_defaults_to_one_layer() {
    assert_eq!(choose_bound(false, None), Ok(Bound::Layers(1)));
}

#[test]
fn bound_follow_to_source() {
    assert_eq!(choose_bound(true, None), Ok(Bound::ToSource));
}

#[test]
fn bound_accepts_edges_of_range() {
    assert_eq!(choose_bound(false, Some(0)), Ok(Bound::Layers(0)));
    assert_eq!(choose_bound(false, Some(MAX_LAYERS)), Ok(Bound::Layers(255)));
}

#[test]
fn invalid_num_layers() {
    assert_eq!(choose_bound(false, Some(256)), Err(OptionError::OutOfRange));
    assert_eq!(choose_bound(false, Some(u64::MAX)), Err(OptionError::OutOfRange));
}

#[test]
fn follow_to_source_and_num_layers_conflict() {
    assert_eq!(choose_bound(true, Some(5)), Err(OptionError::Conflict));
    assert_eq!(choose_bound(true, Some(256)), Err(OptionError::Conflict));
}

#[test]
fn noop_only_for_zero_layers() {
    assert!(Bound::Layers(0).is_noop());
    assert!(!Bound::Layers(1).is_noop());
    assert!(!Bound::ToSource.is_noop());
}

#[test]
fn link_value_read_against_its_directory() {
    assert_eq!(resolve_link_value(&s("/work/a/link"), &s("target")), Some(s("/work/a/target")));
    assert_eq!(resolve_link_value(&s("/work/a/link"), &s("/elsewhere/t")), Some(s("/elsewhere/t")));
}

#[test]
fn link_value_of_root_has_no_directory() {
    assert_eq!(resolve_link_value(&s("/"), &s("target")), None);
}

#[test]
fn resolver_stops_at_non_link() {
    let links = file_chain(MARTIAN_BOOK, 2);
    let start = format!("{}/symlink_file2", ROOT);
    assert_eq!(find_target(&start, Bound::Layers(9), &links), Ok(s(MARTIAN_BOOK)));
}

#[test]
fn resolver_unreadable_link() {
    let mut resolver = Resolver::new(s("/work/l"), Bound::Layers(3));
    assert_eq!(resolver.follow(LinkRead::Unreadable), Err(UnfoldError::LinkReadError(s("/work/l"))));
}

#[test]
fn resolver_zero_layers_is_finished() {
    let resolver = Resolver::new(s("/work/l"), Bound::Layers(0));
    assert!(resolver.finished);
    assert_eq!(resolver.target(), "/work/l");
}

#[test]
fn canonical_result_is_copied() {
    let mut resolver = Resolver::new(s("/work/symlink_file5"), Bound::ToSource);
    assert!(resolver.to_source && !resolver.finished);
    assert_eq!(resolver.canonical(Some(s(MARTIAN_BOOK))), Ok(()));
    assert_eq!(resolver.target(), MARTIAN_BOOK);
    let ops = copy_ops(&s("/work/symlink_file5"), resolver.target());
    assert_eq!(ops, vec![
        Op::RemoveLink(s("/work/symlink_file5")),
        Op::CopyFile(s(MARTIAN_BOOK), s("/work/symlink_file5")),
    ]);
}

#[test]
fn follow_to_source_unreachable() {
    let mut resolver = Resolver::new(s("/work/loop"), Bound::ToSource);
    assert_eq!(resolver.canonical(None), Err(UnfoldError::UnreachablePath(s("/work/loop"))));
}

#[test]
fn session_zero_layers_processes_nothing() {
    let session = Session::new(1, Bound::Layers(0));
    assert_eq!(session.next_argument(), None);
    assert!(session.succeeded());
    assert!(!session.failed());
}

#[test]
fn chain_one_layer_relinks_two_down() {
    let ops = chain_ops(1);
    assert_eq!(ops[1], Op::CreateLink(s("/work/symlink_file3"), s("/work/symlink_file5")));
}

#[test]
fn chain_two_layers_relinks_three_down() {
    let ops = chain_ops(2);
    assert_eq!(ops[1], Op::CreateLink(s("/work/symlink_file2"), s("/work/symlink_file5")));
}

#[test]
fn chain_three_layers_ops() {
    let ops = chain_ops(3);
    assert_eq!(ops, vec![
        Op::RemoveLink(s("/work/symlink_file5")),
        Op::CreateLink(s("/work/symlink_file1"), s("/work/symlink_file5")),
    ]);
}

#[test]
fn chain_past_end_copies_source() {
    let ops = chain_ops(99);
    assert_eq!(ops, vec![
        Op::RemoveLink(s("/work/symlink_file5")),
        Op::CopyFile(s(GEORGE_ORWELL_BOOK), s("/work/symlink_file5")),
    ]);
}

#[test]
fn file_target_ops() {
    let link = s("/work/symlink_file");
    assert_eq!(validate(&link, true, Some(true)), Ok(()));
    assert_eq!(choose_replacement(&link, NodeKind::File), Ok(Replacement::Copy));
    let target = s("/work/media/books 📖/fiction/Percy Jackson and the Olympians - The Lightning Thief");
    assert_eq!(copy_ops(&link, &target), vec![
        Op::RemoveLink(link.clone()),
        Op::CopyFile(target.clone(), link.clone()),
    ]);
}

#[test]
fn dir_target_ops() {
    let link = s("/work/symlink_dir");
    assert_eq!(choose_replacement(&link, NodeKind::Dir), Ok(Replacement::DirOfLinks));
    let names = vec![s("The Matrix"), s("WALL·E")];
    assert_eq!(dir_ops(&link, &s(MOVIES), &names), vec![
        Op::RemoveLink(link.clone()),
        Op::CreateDir(link.clone()),
        Op::CreateLink(s("/work/media/movies 📽/The Matrix"), s("/work/symlink_dir/The Matrix")),
        Op::CreateLink(s("/work/media/movies 📽/WALL·E"), s("/work/symlink_dir/WALL·E")),
    ]);
}

#[test]
fn empty_dir_unfolds_to_empty_dir() {
    let link = s("/work/symlink_dir");
    assert_eq!(dir_ops(&link, &s("/work/empty"), &Vec::new()), vec![
        Op::RemoveLink(link.clone()),
        Op::CreateDir(link.clone()),
    ]);
}

#[test]
fn relink_advances_one_step() {
    assert_eq!(choose_replacement(&s("/work/l"), NodeKind::Symlink), Ok(Replacement::Relink));
}

#[test]
fn unfoldable_target() {
    assert_eq!(
        choose_replacement(&s("/work/l"), NodeKind::Other),
        Err(UnfoldError::UnfoldableTarget(s("/work/l")))
    );
}

#[test]
fn validate_missing_path() {
    assert_eq!(
        validate(&s("/work/does_not_exist"), false, Some(false)),
        Err(UnfoldError::NotASymlink(s("/work/does_not_exist")))
    );
}

#[test]
fn validate_regular_file() {
    let path = s("/work/media/movies 📽/The Matrix");
    assert_eq!(validate(&path, false, Some(true)), Err(UnfoldError::NotASymlink(path.clone())));
}

#[test]
fn validate_directory() {
    let path = s("/work/media/books 📖");
    assert_eq!(validate(&path, false, Some(true)), Err(UnfoldError::NotASymlink(path.clone())));
}

#[test]
fn validate_dangling_link() {
    let path = s("/work/symlink_file");
    assert_eq!(validate(&path, true, Some(false)), Err(UnfoldError::BrokenSymlink(path.clone())));
    assert_eq!(validate(&path, true, None), Err(UnfoldError::BrokenSymlink(path.clone())));
}

#[test]
fn revert_removes_file_then_relinks() {
    let link = s("/work/l");
    let target = s("/work/t");
    assert_eq!(revert_ops(&link, &target, true, true, false), vec![
        Op::RemoveFile(link.clone()),
        Op::CreateLink(target.clone(), link.clone()),
    ]);
}

#[test]
fn revert_removes_tree_then_relinks() {
    let link = s("/work/l");
    let target = s("/work/t");
    assert_eq!(revert_ops(&link, &target, true, false, true), vec![
        Op::RemoveTree(link.clone()),
        Op::CreateLink(target.clone(), link.clone()),
    ]);
}

#[test]
fn revert_of_missing_path_only_relinks() {
    let link = s("/work/l");
    let target = s("/work/t");
    assert_eq!(revert_ops(&link, &target, false, false, false), vec![Op::CreateLink(target.clone(), link.clone())]);
}

#[test]
fn settle_keeps_error_when_revert_succeeds() {
    let err = UnfoldError::FilesystemOperationFailed(s("/work/l"), s("denied"));
    assert_eq!(settle(&s("/work/l"), err.clone(), Ok(())), Failure::Unfold(err));
}

#[test]
fn settle_composes_revert_failure() {
    let err = UnfoldError::UnfoldableTarget(s("/work/l"));
    assert_eq!(
        settle(&s("/work/l"), err.clone(), Err(s("gone"))),
        Failure::RevertFailed(err, s("/work/l"), s("gone"))
    );
}

#[test]
fn session_all_succeed() {
    let mut session = Session::new(2, Bound::Layers(1));
    assert_eq!(session.next_argument(), Some(0));
    session.record(true);
    assert_eq!(session.next_argument(), Some(1));
    session.record(true);
    assert_eq!(session.next_argument(), None);
    assert!(session.succeeded());
}

#[test]
fn session_to_source_in_order() {
    let mut session = Session::new(2, Bound::ToSource);
    assert_eq!(session.next_argument(), Some(0));
    session.record(true);
    assert_eq!(session.next_argument(), Some(1));
    session.record(true);
    assert!(session.succeeded());
}

#[test]
fn bound_applies_to_each_chain() {
    let links = file_chain(MARTIAN_BOOK, 5);
    let file_target = find_target("/work/symlink_file5", Bound::Layers(3), &links).unwrap();
    assert_eq!(file_target, "/work/symlink_file2");
    let dir_links = vec![
        (s("/work/symlink_dir1"), s(MOVIES)),
        (s("/work/symlink_dir2"), s("/work/symlink_dir1")),
    ];
    let dir_target = find_target("/work/symlink_dir2", Bound::Layers(3), &dir_links).unwrap();
    assert_eq!(dir_target, MOVIES);
}

#[test]
fn session_stops_at_failure() {
    let mut session = Session::new(3, Bound::ToSource);
    assert_eq!(session.next_argument(), Some(0));
    session.record(true);
    assert_eq!(session.next_argument(), Some(1));
    session.record(false);
    assert_eq!(session.next_argument(), None);
    assert!(session.failed());
    assert!(!session.succeeded());
}

#[test]
fn distinct_entries_accepted() {
    let names = vec![s("The Matrix"), s("WALL·E")];
    assert!(unfold::entry_paths_distinct(&s("/work/symlink_dir"), &names));
    assert!(unfold::entry_paths_distinct(&s("/work/symlink_dir"), &Vec::new()));
}

#[test]
fn repeated_entry_rejected() {
    let names = vec![s("The Matrix"), s("WALL·E"), s("The Matrix")];
    assert!(!unfold::entry_paths_distinct(&s("/work/symlink_dir"), &names));
}

#[test]
fn entry_naming_the_directory_itself_rejected() {
    let names = vec![s("/work/symlink_dir")];
    assert!(!unfold::entry_paths_distinct(&s("/work/symlink_dir"), &names));
}
