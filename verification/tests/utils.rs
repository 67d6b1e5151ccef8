use config_picker::error::{CreateNewDirectoryError, EnsureDirectoryError};
use config_picker::filesystem::{Action, Event, PathStatus};
use config_picker::utils::{
    ancestors_of, create_new_directory, ensure_directory, CreateCursor, DirectoryEntry,
    EnsureCursor, SubDirectoryIterator,
};
use std::io::{Error, ErrorKind};

fn probe(path: &str) -> Option<String> {
    Some(format!("probe {}", path))
}

fn create(path: &str) -> Option<String> {
    Some(format!("create {}", path))
}

fn show(action: Option<Action>) -> Option<String> {
    match action {
        Some(Action::Probe { path }) => probe(&path),
        Some(Action::CreateDirectory { path }) => create(&path),
        Some(other) => Some(format!("{:?}", other)),
        None => None,
    }
}

fn entry(name: &str, is_directory: bool) -> Result<DirectoryEntry, Error> {
    Ok(DirectoryEntry { name: name.to_string(), is_directory })
}

#[test]
fn ancestors_of_an_absolute_path() {
    assert_eq!(ancestors_of("/a/b"), vec!["/", "/a", "/a/b"]);
}

#[test]
fn ancestors_of_a_relative_path() {
    assert_eq!(ancestors_of("a/b/c"), vec!["a", "a/b", "a/b/c"]);
}

#[test]
fn empty_path_has_no_ancestors() {
    assert_eq!(ancestors_of(""), Vec::<String>::new());
}

#[test]
fn ensure_passes_directories_one_by_one() {
    let mut work = ensure_directory("/a/b", false);
    assert_eq!(show(work.pending()), probe("/"));
    work = work.advance(Event::Status(PathStatus::Directory));
    assert_eq!(show(work.pending()), probe("/a"));
    work = work.advance(Event::Status(PathStatus::Directory));
    assert_eq!(show(work.pending()), probe("/a/b"));
    work = work.advance(Event::Status(PathStatus::Directory));
    assert_eq!(show(work.pending()), None);
    assert!(matches!(work.result(), Some(Ok(()))));
}

#[test]
fn ensure_is_not_done_before_the_last_ancestor() {
    let work = ensure_directory("/a", true).advance(Event::Status(PathStatus::Directory));
    assert!(matches!(work.cursor, EnsureCursor::Probing(1)));
    assert!(work.result().is_none());
}

#[test]
fn ensure_of_the_empty_path_is_done_at_once() {
    let work = ensure_directory("", true);
    assert_eq!(show(work.pending()), None);
    assert!(matches!(work.result(), Some(Ok(()))));
}

#[test]
fn ensure_creates_every_missing_ancestor() {
    let mut work = ensure_directory("a/b", true);
    assert_eq!(show(work.pending()), probe("a"));
    work = work.advance(Event::Status(PathStatus::Missing));
    assert_eq!(show(work.pending()), create("a"));
    work = work.advance(Event::Completed);
    assert_eq!(show(work.pending()), probe("a/b"));
    work = work.advance(Event::Status(PathStatus::Missing));
    assert_eq!(show(work.pending()), create("a/b"));
    work = work.advance(Event::Completed);
    assert!(matches!(work.result(), Some(Ok(()))));
}

#[test]
fn ensure_does_not_create_unless_told() {
    let work = ensure_directory("a/b", false)
        .advance(Event::Status(PathStatus::Directory))
        .advance(Event::Status(PathStatus::Missing));
    assert_eq!(show(work.pending()), None);
    match work.result() {
        Some(Err(EnsureDirectoryError::PathDoesNotExist(path))) => assert_eq!(path, "a/b"),
        other => panic!("{:?}", other),
    }
}

#[test]
fn ensure_stops_at_what_is_no_directory() {
    let work = ensure_directory("a/b", true).advance(Event::Status(PathStatus::NotADirectory));
    assert_eq!(show(work.pending()), None);
    match work.result() {
        Some(Err(EnsureDirectoryError::PathIsNotADirectory(path))) => assert_eq!(path, "a"),
        other => panic!("{:?}", other),
    }
}

#[test]
fn ensure_reports_the_ancestor_that_could_not_be_created() {
    let work = ensure_directory("a/b", true)
        .advance(Event::Status(PathStatus::Directory))
        .advance(Event::Status(PathStatus::Missing))
        .advance(Event::Failed(Error::new(ErrorKind::PermissionDenied, "no")));
    match work.result() {
        Some(Err(EnsureDirectoryError::CouldNotCreateDirectory { path, error })) => {
            assert_eq!(path, "a/b");
            assert_eq!(error.kind(), ErrorKind::PermissionDenied);
        },
        other => panic!("{:?}", other),
    }
}

#[test]
fn ensure_ignores_events_that_answer_nothing() {
    let mut work = ensure_directory("a", true);
    work = work.advance(Event::Completed);
    assert_eq!(show(work.pending()), probe("a"));
    work = work.advance(Event::Failed(Error::new(ErrorKind::Other, "x")));
    assert_eq!(show(work.pending()), probe("a"));
    work = work.advance(Event::Status(PathStatus::Missing));
    work = work.advance(Event::Status(PathStatus::Directory));
    assert_eq!(show(work.pending()), create("a"));
    work = work.advance(Event::Completed);
    work = work.advance(Event::Status(PathStatus::NotADirectory));
    assert!(matches!(work.result(), Some(Ok(()))));
}

#[test]
fn create_new_directory_creates_where_nothing_is() {
    let mut work = create_new_directory("/t/x");
    assert_eq!(show(work.pending()), probe("/t/x"));
    work = work.advance(Event::Status(PathStatus::Missing));
    assert_eq!(show(work.pending()), create("/t/x"));
    work = work.advance(Event::Completed);
    assert_eq!(show(work.pending()), None);
    assert!(matches!(work.result(), Some(Ok(()))));
}

#[test]
fn create_new_directory_refuses_what_exists() {
    for status in [PathStatus::Directory, PathStatus::NotADirectory] {
        let work = create_new_directory("/t/x").advance(Event::Status(status));
        assert_eq!(show(work.pending()), None);
        match work.result() {
            Some(Err(CreateNewDirectoryError::PathAlreadyExists(path))) => {
                assert_eq!(path, "/t/x")
            },
            other => panic!("{:?}", other),
        }
    }
}

#[test]
fn create_new_directory_reports_the_failure() {
    let work = create_new_directory("/t/x")
        .advance(Event::Status(PathStatus::Missing))
        .advance(Event::Failed(Error::new(ErrorKind::NotFound, "parent")));
    match work.result() {
        Some(Err(CreateNewDirectoryError::CouldNotCreateDirectory { path, error })) => {
            assert_eq!(path, "/t/x");
            assert_eq!(error.kind(), ErrorKind::NotFound);
        },
        other => panic!("{:?}", other),
    }
}

#[test]
fn create_new_directory_is_unfinished_until_answered() {
    let work = create_new_directory("/t/x");
    assert!(matches!(work.cursor, CreateCursor::Probing));
    assert!(work.result().is_none());
    let work = create_new_directory("/t/x").advance(Event::Completed);
    assert!(matches!(work.cursor, CreateCursor::Probing));
}

#[test]
fn listing_of_nothing_is_empty_and_has_no_error() {
    let listing = SubDirectoryIterator::new(Vec::new());
    assert!(listing.names.is_empty());
    assert!(listing.error.is_none());
}

#[test]
fn listing_keeps_directories_in_order() {
    let listing = SubDirectoryIterator::new(vec![
        entry("b", true),
        entry("descriptor.json", false),
        entry("a", true),
        entry("c", true),
    ]);
    assert_eq!(listing.names, vec!["b", "a", "c"]);
    assert!(listing.error.is_none());
}

#[test]
fn listing_ends_at_the_first_error() {
    let listing = SubDirectoryIterator::new(vec![
        entry("a", true),
        Err(Error::new(ErrorKind::PermissionDenied, "first")),
        entry("b", true),
        Err(Error::new(ErrorKind::NotFound, "second")),
    ]);
    assert_eq!(listing.names, vec!["a"]);
    assert_eq!(listing.error.unwrap().kind(), ErrorKind::PermissionDenied);
}

#[test]
fn listing_is_handed_out_once() {
    let mut listing = SubDirectoryIterator::new(vec![
        entry("a", true),
        entry("f", false),
        entry("b", true),
        Err(Error::new(ErrorKind::PermissionDenied, "first")),
        entry("c", true),
    ]);
    assert_eq!(listing.next().unwrap().unwrap(), "a");
    assert_eq!(listing.next().unwrap().unwrap(), "b");
    assert_eq!(listing.next().unwrap().unwrap_err().kind(), ErrorKind::PermissionDenied);
    assert!(listing.next().is_none());
    assert!(listing.next().is_none());
}

#[test]
fn empty_listing_hands_out_nothing() {
    let mut listing = SubDirectoryIterator::new(Vec::new());
    assert!(listing.next().is_none());
}
