use site_server::resolve::{resolve, ResolvedTarget, Resolver};
use site_server::tree::{EntryKind, FileTree};

fn file(path: &str) -> ResolvedTarget {
    ResolvedTarget::File(path.to_string())
}

fn site() -> FileTree {
    let mut tree = FileTree::new();
    tree.add_directory("public");
    tree.add_file("public/index.html", b"HOME".to_vec());
    tree.add_file("public/about.html", b"ABOUT".to_vec());
    tree.add_file("public/404.html", b"MISSING".to_vec());
    tree.add_directory("public/docs");
    tree.add_file("public/docs/index.html", b"DOCS".to_vec());
    tree.add_file("public/docs/guide.html", b"GUIDE".to_vec());
    tree.add_directory("public/empty");
    tree.add_directory("public/odd");
    tree.add_directory("public/odd/index.html");
    tree.add_file("etc/passwd", b"root".to_vec());
    tree
}

#[test]
fn an_existing_file_is_the_target() {
    let tree = site();
    assert_eq!(resolve("/about.html", "public", &tree), file("public/about.html"));
    assert_eq!(resolve("/docs/guide.html", "public", &tree), file("public/docs/guide.html"));
    assert_eq!(resolve("/404.html", "public", &tree), file("public/404.html"));
}

#[test]
fn the_root_is_always_the_index_document() {
    let tree = site();
    assert_eq!(resolve("/", "public", &tree), file("public/index.html"));
    let nothing = FileTree::new();
    assert_eq!(resolve("/", "public", &nothing), file("public/index.html"));
    let mut root_is_a_file = FileTree::new();
    root_is_a_file.add_file("public", b"x".to_vec());
    assert_eq!(resolve("/", "public", &root_is_a_file), file("public/index.html"));
}

#[test]
fn a_directory_is_answered_by_its_index() {
    let tree = site();
    assert_eq!(resolve("/docs", "public", &tree), file("public/docs/index.html"));
    assert_eq!(resolve("/docs/", "public", &tree), file("public/docs/index.html"));
    assert_eq!(resolve("//", "public", &tree), file("public/index.html"));
}

#[test]
fn a_directory_without_index_is_not_found() {
    let tree = site();
    assert_eq!(resolve("/empty", "public", &tree), ResolvedTarget::NotFound);
    assert_eq!(resolve("/empty/", "public", &tree), ResolvedTarget::NotFound);
}

#[test]
fn an_index_that_is_a_directory_does_not_count() {
    let tree = site();
    assert_eq!(resolve("/odd", "public", &tree), ResolvedTarget::NotFound);
}

#[test]
fn what_matches_nothing_is_not_found() {
    let tree = site();
    assert_eq!(resolve("/nope", "public", &tree), ResolvedTarget::NotFound);
    assert_eq!(resolve("/about.html/extra", "public", &tree), ResolvedTarget::NotFound);
    assert_eq!(resolve("", "nowhere", &tree), ResolvedTarget::NotFound);
}

#[test]
fn climbing_is_not_found_even_where_the_file_exists() {
    let mut tree = site();
    tree.add_file("public/../etc/passwd", b"root".to_vec());
    tree.add_file("public/docs/../about.html", b"ABOUT".to_vec());
    assert_eq!(resolve("/../etc/passwd", "public", &tree), ResolvedTarget::NotFound);
    assert_eq!(resolve("/docs/../about.html", "public", &tree), ResolvedTarget::NotFound);
    assert_eq!(resolve("/..", "public", &tree), ResolvedTarget::NotFound);
}

#[test]
fn resolving_twice_gives_the_same_target() {
    let tree = site();
    for path in ["/", "/about.html", "/docs", "/nope", "/../etc/passwd", "/empty"] {
        assert_eq!(resolve(path, "public", &tree), resolve(path, "public", &tree), "{:?}", path);
    }
}

#[test]
fn a_later_entry_overrides_an_earlier_one() {
    let mut tree = FileTree::new();
    tree.add_file("public/a", b"one".to_vec());
    assert_eq!(tree.kind("public/a"), EntryKind::File);
    assert_eq!(tree.read("public/a"), Some(b"one".to_vec()));
    tree.add_directory("public/a");
    assert_eq!(tree.kind("public/a"), EntryKind::Directory);
    assert_eq!(tree.read("public/a"), None);
    tree.add_file("public/a", b"two".to_vec());
    assert_eq!(tree.read("public/a"), Some(b"two".to_vec()));
    assert_eq!(tree.kind("public/b"), EntryKind::Absent);
    assert_eq!(tree.read("public/b"), None);
}

#[test]
fn an_empty_tree_holds_nothing() {
    let tree = FileTree::new();
    assert_eq!(tree.kind(""), EntryKind::Absent);
    assert_eq!(tree.kind("public"), EntryKind::Absent);
    assert_eq!(tree.read("public/index.html"), None);
}

#[test]
fn the_root_document_needs_no_lookup() {
    let state = Resolver::start("/", "public");
    assert_eq!(state.pending(), None);
    assert_eq!(state.target(), Some(file("public/index.html")));
}

#[test]
fn a_climbing_path_needs_no_lookup() {
    let state = Resolver::start("/../x", "public");
    assert_eq!(state.pending(), None);
    assert_eq!(state.target(), Some(ResolvedTarget::NotFound));
}

#[test]
fn a_file_takes_one_lookup() {
    let state = Resolver::start("/about.html", "public");
    assert_eq!(state.pending(), Some("public/about.html"));
    assert_eq!(state.clone().target(), None);
    let state = state.answer(EntryKind::File);
    assert_eq!(state.pending(), None);
    assert_eq!(state.target(), Some(file("public/about.html")));
}

#[test]
fn a_missing_path_takes_one_lookup() {
    let state = Resolver::start("/nope", "public").answer(EntryKind::Absent);
    assert_eq!(state, Resolver::Finished(ResolvedTarget::NotFound));
}

#[test]
fn a_directory_takes_two_lookups() {
    let state = Resolver::start("/docs/", "public");
    assert_eq!(state.pending(), Some("public/docs"));
    let state = state.answer(EntryKind::Directory);
    assert_eq!(state.pending(), Some("public/docs/index.html"));
    assert_eq!(
        state.clone().answer(EntryKind::File).target(),
        Some(file("public/docs/index.html"))
    );
    assert_eq!(state.clone().answer(EntryKind::Absent).target(), Some(ResolvedTarget::NotFound));
    assert_eq!(state.answer(EntryKind::Directory).target(), Some(ResolvedTarget::NotFound));
}

#[test]
fn a_finished_resolution_ignores_answers() {
    let done = Resolver::Finished(file("public/x"));
    assert_eq!(done.clone().answer(EntryKind::Absent), done);
    assert_eq!(done.clone().answer(EntryKind::Directory), done);
}

#[test]
fn advancing_looks_the_pending_path_up() {
    let tree = site();
    let state = Resolver::start("/docs", "public").advance(&tree);
    assert_eq!(state, Resolver::Index("public/docs/index.html".to_string()));
    let state = state.advance(&tree);
    assert_eq!(state, Resolver::Finished(file("public/docs/index.html")));
    assert_eq!(state.clone().advance(&tree), state);
}
