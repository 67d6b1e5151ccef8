use crate::error::{CreateNewDirectoryError, EnsureDirectoryError};
use crate::filesystem::{asked, Action, ActionView, Event, PathStatus};
use crate::paths::{components_of, path_components, push_path, pushed_path, texts};
use vstd::prelude::*;

verus! {

/// The paths that lead to the last of the components, one by one: the first component,
/// then each further component pushed onto the path before it.
pub open spec fn ancestor_paths(components: Seq<Seq<char>>) -> Seq<Seq<char>>
    decreases components.len(),
{
    if components.len() == 0 {
        Seq::empty()
    } else {
        let before = ancestor_paths(components.drop_last());
        let base = if before.len() == 0 {
            Seq::<char>::empty()
        } else {
            before.last()
        };
        before.push(pushed_path(base, components.last()))
    }
}

/// The ancestors of `path`, from the outermost to `path` itself.
pub open spec fn ancestors_of_path(path: Seq<char>) -> Seq<Seq<char>> {
    ancestor_paths(path_components(path))
}

/// The ancestors of `path`, from the outermost to `path` itself.
pub fn ancestors_of(path: &str) -> (ancestors: Vec<String>)
    ensures
        texts(ancestors@) == ancestors_of_path(path@),
{
    let components = components_of(path);
    let mut ancestors: Vec<String> = Vec::new();
    let mut current = String::new();
    let mut i: usize = 0;
    while i < components.len()
        invariant
            i <= components.len(),
            texts(components@) == path_components(path@),
            texts(ancestors@) == ancestor_paths(texts(components@).take(i as int)),
            current@ == if ancestors@.len() == 0 {
                Seq::<char>::empty()
            } else {
                texts(ancestors@).last()
            },
        decreases components.len() - i,
    {
        let next = push_path(current.as_str(), components[i].as_str());
        current = next.clone();
        ancestors.push(next);
        assert(texts(components@).take(i + 1).drop_last() =~= texts(components@).take(i as int));
        i = i + 1;
    }
    assert(texts(components@).take(components@.len() as int) =~= texts(components@));
    ancestors
}

/// Where the work of ensuring a directory stands.
#[derive(Debug)]
pub enum EnsureCursor {
    /// The ancestor at this index is being probed.
    Probing(usize),
    /// The ancestor at this index was missing and is being created.
    Creating(usize),
    /// Every ancestor is a directory.
    Ensured,
    /// The work ended with this error.
    Failed(EnsureDirectoryError),
}

/// The cursor that turns to the ancestor `index` of `count`: it is probed, and where
/// there is no such ancestor the work is done.
pub open spec fn ensure_cursor_at(count: nat, index: int) -> EnsureCursor {
    if 0 <= index < count && index <= usize::MAX {
        EnsureCursor::Probing(index as usize)
    } else {
        EnsureCursor::Ensured
    }
}

/// The step that ensuring a directory waits for.
pub open spec fn ensure_pending(ancestors: Seq<String>, cursor: EnsureCursor) -> Option<
    ActionView,
> {
    match cursor {
        EnsureCursor::Probing(i) => if i < ancestors.len() {
            Some(ActionView::Probe { path: ancestors[i as int]@ })
        } else {
            None
        },
        EnsureCursor::Creating(i) => if i < ancestors.len() {
            Some(ActionView::CreateDirectory { path: ancestors[i as int]@ })
        } else {
            None
        },
        _ => None,
    }
}

/// Where ensuring a directory stands after `event`.
///
/// A probed ancestor that is a directory is passed. One that is something else ends the
/// work. One that is missing is created, or ends the work where nothing is to be
/// created. A created ancestor is passed, and a failure to create it ends the work. An
/// event that does not answer the pending step changes nothing.
pub open spec fn ensure_advanced(
    ancestors: Seq<String>,
    create_if_not_exists: bool,
    cursor: EnsureCursor,
    event: Event,
) -> EnsureCursor {
    match cursor {
        EnsureCursor::Probing(i) => if i < ancestors.len() {
            match event {
                Event::Status(PathStatus::Directory) => ensure_cursor_at(ancestors.len(), i + 1),
                Event::Status(PathStatus::NotADirectory) => EnsureCursor::Failed(
                    EnsureDirectoryError::PathIsNotADirectory(ancestors[i as int]),
                ),
                Event::Status(PathStatus::Missing) => if create_if_not_exists {
                    EnsureCursor::Creating(i)
                } else {
                    EnsureCursor::Failed(
                        EnsureDirectoryError::PathDoesNotExist(ancestors[i as int]),
                    )
                },
                _ => cursor,
            }
        } else {
            cursor
        },
        EnsureCursor::Creating(i) => if i < ancestors.len() {
            match event {
                Event::Completed => ensure_cursor_at(ancestors.len(), i + 1),
                Event::Failed(error) => EnsureCursor::Failed(
                    EnsureDirectoryError::CouldNotCreateDirectory {
                        path: ancestors[i as int],
                        error,
                    },
                ),
                _ => cursor,
            }
        } else {
            cursor
        },
        _ => cursor,
    }
}

/// Turns to the ancestor `index` of `count`.
pub fn cursor_at(count: usize, index: usize) -> (cursor: EnsureCursor)
    ensures
        cursor == ensure_cursor_at(count as nat, index as int),
{
    if index < count {
        EnsureCursor::Probing(index)
    } else {
        EnsureCursor::Ensured
    }
}

/// The step that ensuring a directory waits for.
pub fn pending_ensure(ancestors: &Vec<String>, cursor: &EnsureCursor) -> (action: Option<Action>)
    ensures
        asked(action) == ensure_pending(ancestors@, *cursor),
{
    match cursor {
        EnsureCursor::Probing(i) => if *i < ancestors.len() {
            Some(Action::Probe { path: ancestors[*i].clone() })
        } else {
            None
        },
        EnsureCursor::Creating(i) => if *i < ancestors.len() {
            Some(Action::CreateDirectory { path: ancestors[*i].clone() })
        } else {
            None
        },
        _ => None,
    }
}

/// Takes ensuring a directory one event further.
pub fn advance_ensure(
    ancestors: &Vec<String>,
    create_if_not_exists: bool,
    cursor: EnsureCursor,
    event: Event,
) -> (next: EnsureCursor)
    ensures
        next == ensure_advanced(ancestors@, create_if_not_exists, cursor, event),
{
    match cursor {
        EnsureCursor::Probing(i) => if i < ancestors.len() {
            match event {
                Event::Status(PathStatus::Directory) => cursor_at(ancestors.len(), i + 1),
                Event::Status(PathStatus::NotADirectory) => EnsureCursor::Failed(
                    EnsureDirectoryError::PathIsNotADirectory(ancestors[i].clone()),
                ),
                Event::Status(PathStatus::Missing) => if create_if_not_exists {
                    EnsureCursor::Creating(i)
                } else {
                    EnsureCursor::Failed(
                        EnsureDirectoryError::PathDoesNotExist(ancestors[i].clone()),
                    )
                },
                _ => EnsureCursor::Probing(i),
            }
        } else {
            EnsureCursor::Probing(i)
        },
        EnsureCursor::Creating(i) => if i < ancestors.len() {
            match event {
                Event::Completed => cursor_at(ancestors.len(), i + 1),
                Event::Failed(error) => EnsureCursor::Failed(
                    EnsureDirectoryError::CouldNotCreateDirectory {
                        path: ancestors[i].clone(),
                        error,
                    },
                ),
                _ => EnsureCursor::Creating(i),
            }
        } else {
            EnsureCursor::Creating(i)
        },
        EnsureCursor::Ensured => EnsureCursor::Ensured,
        EnsureCursor::Failed(error) => EnsureCursor::Failed(error),
    }
}

/// Whether the cursor points at an ancestor where it points at one at all.
pub open spec fn ensure_cursor_fits(count: nat, cursor: EnsureCursor) -> bool {
    match cursor {
        EnsureCursor::Probing(i) => i < count,
        EnsureCursor::Creating(i) => i < count,
        _ => true,
    }
}

/// The work of ensuring that a path is a directory, with every ancestor of it.
///
/// The ancestors are taken from the outermost to the path itself. Each is probed; a
/// missing one is created where `create_if_not_exists` is set.
#[derive(Debug)]
pub struct EnsureDirectory {
    /// The ancestors of the path, from the outermost to the path itself.
    pub ancestors: Vec<String>,
    /// Whether a missing ancestor is created.
    pub create_if_not_exists: bool,
    /// Where the work stands.
    pub cursor: EnsureCursor,
}

impl EnsureDirectory {
    /// Whether the cursor points at an ancestor where it points at one at all. This holds
    /// from the start and is kept by every event.
    pub open spec fn well_formed(&self) -> bool {
        ensure_cursor_fits(self.ancestors@.len(), self.cursor)
    }

    /// The step that the work waits for; none once it has ended.
    pub open spec fn pending_action(&self) -> Option<ActionView> {
        ensure_pending(self.ancestors@, self.cursor)
    }

    /// The work after `event`.
    pub open spec fn advanced(self, event: Event) -> Self {
        EnsureDirectory {
            ancestors: self.ancestors,
            create_if_not_exists: self.create_if_not_exists,
            cursor: ensure_advanced(
                self.ancestors@,
                self.create_if_not_exists,
                self.cursor,
                event,
            ),
        }
    }

    /// How the work ended, once it has.
    pub open spec fn outcome(self) -> Option<Result<(), EnsureDirectoryError>> {
        match self.cursor {
            EnsureCursor::Ensured => Some(Ok(())),
            EnsureCursor::Failed(error) => Some(Err(error)),
            _ => None,
        }
    }

    /// The step that the work waits for; none once it has ended.
    pub fn pending(&self) -> (action: Option<Action>)
        ensures
            asked(action) == self.pending_action(),
    {
        pending_ensure(&self.ancestors, &self.cursor)
    }

    /// Takes the work one event further.
    pub fn advance(self, event: Event) -> (next: Self)
        ensures
            next == self.advanced(event),
            self.well_formed() ==> next.well_formed(),
    {
        let cursor = advance_ensure(
            &self.ancestors,
            self.create_if_not_exists,
            self.cursor,
            event,
        );
        EnsureDirectory {
            ancestors: self.ancestors,
            create_if_not_exists: self.create_if_not_exists,
            cursor,
        }
    }

    /// How the work ended, once it has.
    pub fn result(self) -> (result: Option<Result<(), EnsureDirectoryError>>)
        ensures
            result == self.outcome(),
    {
        match self.cursor {
            EnsureCursor::Ensured => Some(Ok(())),
            EnsureCursor::Failed(error) => Some(Err(error)),
            _ => None,
        }
    }

    /// Work that is well formed waits for a step exactly as long as it has not ended.
    pub proof fn lemma_pending_until_ended(self)
        requires
            self.well_formed(),
        ensures
            self.pending_action() is None <==> self.outcome() is Some,
    {
    }
}

/// Starts the work of ensuring that `path` is a directory, with every ancestor of it.
pub fn ensure_directory(path: &str, create_if_not_exists: bool) -> (work: EnsureDirectory)
    ensures
        texts(work.ancestors@) == ancestors_of_path(path@),
        work.create_if_not_exists == create_if_not_exists,
        work.cursor == ensure_cursor_at(work.ancestors@.len(), 0),
        work.well_formed(),
{
    let ancestors = ancestors_of(path);
    let cursor = cursor_at(ancestors.len(), 0);
    EnsureDirectory { ancestors, create_if_not_exists, cursor }
}

/// Where the work of creating a new directory stands.
#[derive(Debug)]
pub enum CreateCursor {
    /// The path is being probed.
    Probing,
    /// The path was free and the directory is being created.
    Creating,
    /// The directory was created.
    Created,
    /// The work ended with this error.
    Failed(CreateNewDirectoryError),
}

/// The step that creating the new directory `path` waits for.
pub open spec fn create_pending(path: String, cursor: CreateCursor) -> Option<ActionView> {
    match cursor {
        CreateCursor::Probing => Some(ActionView::Probe { path: path@ }),
        CreateCursor::Creating => Some(ActionView::CreateDirectory { path: path@ }),
        _ => None,
    }
}

/// Where creating the new directory `path` stands after `event`.
///
/// The directory is created only where the path was found free: anything that exists
/// there ends the work. An event that does not answer the pending step changes nothing.
pub open spec fn create_advanced(path: String, cursor: CreateCursor, event: Event) -> CreateCursor {
    match cursor {
        CreateCursor::Probing => match event {
            Event::Status(PathStatus::Missing) => CreateCursor::Creating,
            Event::Status(_) => CreateCursor::Failed(
                CreateNewDirectoryError::PathAlreadyExists(path),
            ),
            _ => cursor,
        },
        CreateCursor::Creating => match event {
            Event::Completed => CreateCursor::Created,
            Event::Failed(error) => CreateCursor::Failed(
                CreateNewDirectoryError::CouldNotCreateDirectory { path, error },
            ),
            _ => cursor,
        },
        _ => cursor,
    }
}

/// The step that creating the new directory `path` waits for.
pub fn pending_create(path: &String, cursor: &CreateCursor) -> (action: Option<Action>)
    ensures
        asked(action) == create_pending(*path, *cursor),
{
    match cursor {
        CreateCursor::Probing => Some(Action::Probe { path: path.clone() }),
        CreateCursor::Creating => Some(Action::CreateDirectory { path: path.clone() }),
        _ => None,
    }
}

/// Takes creating the new directory `path` one event further.
pub fn advance_create(path: &String, cursor: CreateCursor, event: Event) -> (next: CreateCursor)
    ensures
        next == create_advanced(*path, cursor, event),
{
    match cursor {
        CreateCursor::Probing => match event {
            Event::Status(PathStatus::Missing) => CreateCursor::Creating,
            Event::Status(_) => CreateCursor::Failed(
                CreateNewDirectoryError::PathAlreadyExists(path.clone()),
            ),
            _ => CreateCursor::Probing,
        },
        CreateCursor::Creating => match event {
            Event::Completed => CreateCursor::Created,
            Event::Failed(error) => CreateCursor::Failed(
                CreateNewDirectoryError::CouldNotCreateDirectory { path: path.clone(), error },
            ),
            _ => CreateCursor::Creating,
        },
        CreateCursor::Created => CreateCursor::Created,
        CreateCursor::Failed(error) => CreateCursor::Failed(error),
    }
}

/// The work of creating a directory that must not exist yet.
#[derive(Debug)]
pub struct CreateNewDirectory {
    /// The directory to create.
    pub path: String,
    /// Where the work stands.
    pub cursor: CreateCursor,
}

impl CreateNewDirectory {
    /// The step that the work waits for; none once it has ended.
    pub open spec fn pending_action(&self) -> Option<ActionView> {
        create_pending(self.path, self.cursor)
    }

    /// The work after `event`.
    pub open spec fn advanced(self, event: Event) -> Self {
        CreateNewDirectory {
            path: self.path,
            cursor: create_advanced(self.path, self.cursor, event),
        }
    }

    /// How the work ended, once it has.
    pub open spec fn outcome(self) -> Option<Result<(), CreateNewDirectoryError>> {
        match self.cursor {
            CreateCursor::Created => Some(Ok(())),
            CreateCursor::Failed(error) => Some(Err(error)),
            _ => None,
        }
    }

    /// The step that the work waits for; none once it has ended.
    pub fn pending(&self) -> (action: Option<Action>)
        ensures
            asked(action) == self.pending_action(),
            action is None <==> self.outcome() is Some,
    {
        pending_create(&self.path, &self.cursor)
    }

    /// Takes the work one event further.
    pub fn advance(self, event: Event) -> (next: Self)
        ensures
            next == self.advanced(event),
    {
        let cursor = advance_create(&self.path, self.cursor, event);
        CreateNewDirectory { path: self.path, cursor }
    }

    /// How the work ended, once it has.
    pub fn result(self) -> (result: Option<Result<(), CreateNewDirectoryError>>)
        ensures
            result == self.outcome(),
    {
        match self.cursor {
            CreateCursor::Created => Some(Ok(())),
            CreateCursor::Failed(error) => Some(Err(error)),
            _ => None,
        }
    }
}

/// Starts the work of creating the directory `path`, which must not exist yet.
pub fn create_new_directory(path: &str) -> (work: CreateNewDirectory)
    ensures
        work.path@ == path@,
        work.cursor == CreateCursor::Probing,
{
    CreateNewDirectory { path: path.to_owned(), cursor: CreateCursor::Probing }
}

/// What was found of one entry of a directory.
#[derive(Debug)]
pub struct DirectoryEntry {
    /// The entry's file name.
    pub name: String,
    /// Whether the entry is a directory.
    pub is_directory: bool,
}

/// The subdirectories of a directory as far as they could be listed: a sequence that is
/// handed out once, item by item. It yields the names in their order, then the error
/// that ended the listing, where one did, and then nothing more.
#[derive(Debug)]
pub struct SubDirectoryIterator {
    /// The names of the subdirectories, in the order in which they were listed.
    pub names: Vec<String>,
    /// The error that ended the listing, where one did and it has not been handed out.
    pub error: Option<std::io::Error>,
    /// The number of names that have been handed out.
    pub position: usize,
}

/// The names of the directories among the entries that come before the first entry that
/// could not be read.
pub open spec fn subdirectory_names(entries: Seq<Result<DirectoryEntry, std::io::Error>>) -> Seq<
    String,
>
    decreases entries.len(),
{
    if entries.len() == 0 {
        Seq::empty()
    } else {
        match entries[0] {
            Err(_) => Seq::empty(),
            Ok(entry) => {
                let rest = subdirectory_names(entries.drop_first());
                if entry.is_directory {
                    seq![entry.name] + rest
                } else {
                    rest
                }
            },
        }
    }
}

/// The error of the first entry that could not be read, if there is one.
pub open spec fn listing_error(entries: Seq<Result<DirectoryEntry, std::io::Error>>) -> Option<
    std::io::Error,
>
    decreases entries.len(),
{
    if entries.len() == 0 {
        None
    } else {
        match entries[0] {
            Err(error) => Some(error),
            Ok(_) => listing_error(entries.drop_first()),
        }
    }
}

impl SubDirectoryIterator {
    /// Whether this is the listing of the subdirectories among `entries`.
    pub open spec fn lists(&self, entries: Seq<Result<DirectoryEntry, std::io::Error>>) -> bool {
        &&& self.names@ == subdirectory_names(entries)
        &&& self.error == listing_error(entries)
        &&& self.position == 0
    }

    /// The item that the sequence hands out next: the next name, or the error behind
    /// the last name, or nothing.
    pub open spec fn upcoming(&self) -> Option<Result<String, std::io::Error>> {
        if self.position < self.names@.len() {
            Some(Ok(self.names@[self.position as int]))
        } else {
            match self.error {
                Some(error) => Some(Err(error)),
                None => None,
            }
        }
    }

    /// The sequence once its next item is handed out: it stands behind that name, or
    /// has its error no more.
    pub open spec fn advanced(self) -> Self {
        if self.position < self.names@.len() {
            SubDirectoryIterator { position: (self.position + 1) as usize, ..self }
        } else {
            SubDirectoryIterator { error: None, ..self }
        }
    }

    /// Hands out the next item of the sequence.
    pub fn next(&mut self) -> (item: Option<Result<String, std::io::Error>>)
        ensures
            item == old(self).upcoming(),
            *final(self) == old(self).advanced(),
    {
        if self.position < self.names.len() {
            let name = self.names[self.position].clone();
            self.position = self.position + 1;
            Some(Ok(name))
        } else {
            match self.error.take() {
                Some(error) => Some(Err(error)),
                None => None,
            }
        }
    }

    /// Lists the subdirectories among the entries of a directory.
    ///
    /// Entries that are no directories are left out. The first entry that could not be
    /// read ends the listing with its error.
    pub fn new(entries: Vec<Result<DirectoryEntry, std::io::Error>>) -> (listing: Self)
        ensures
            listing.lists(entries@),
    {
        let ghost all = entries@;
        let mut names: Vec<String> = Vec::new();
        let mut error: Option<std::io::Error> = None;
        let mut stopped = false;
        assert(all.skip(0) =~= all);
        for entry in it: entries
            invariant
                it.seq() == all,
                !stopped ==> error is None,
                !stopped ==> subdirectory_names(all) == names@ + subdirectory_names(
                    all.skip(it.index() as int),
                ),
                !stopped ==> listing_error(all) == listing_error(all.skip(it.index() as int)),
                stopped ==> subdirectory_names(all) == names@,
                stopped ==> listing_error(all) == error,
        {
            assert(all.skip(it.index() as int).drop_first() =~= all.skip(it.index() + 1));
            if !stopped {
                match entry {
                    Err(e) => {
                        error = Some(e);
                        stopped = true;
                    },
                    Ok(found) => {
                        if found.is_directory {
                            names.push(found.name);
                        }
                    },
                }
            }
        }
        SubDirectoryIterator { names, error, position: 0 }
    }
}

/// The listing of a directory without entries hands out nothing: no name, and no
/// error.
pub proof fn lemma_empty_listing(listing: SubDirectoryIterator)
    requires
        listing.lists(Seq::empty()),
    ensures
        listing.names@.len() == 0,
        listing.error is None,
        listing.upcoming() is None,
{
}

} // verus!
