use crate::config_type_descriptor::ConfigTypeDescriptor;
use crate::config_type_storage::{ConfigTypeStorage, OpenConfigType, OpenStatus};
use crate::directories::{
    config_type_descriptor_of, config_type_dir_of, db_dir_of, temp_dir_of, Directories,
};
use crate::error::{
    ConfigStorageConstructionError, ConfigTypeDirValidationError, CreateConfigTypeError,
    IterConfigTypesError, WriteConfigTypeDescriptorError,
};
use crate::filesystem::{asked, Action, ActionView, Event};
use crate::paths::texts;
use crate::utils::{
    ancestors_of_path, create_new_directory, ensure_cursor_at, ensure_directory, CreateCursor,
    CreateNewDirectory, DirectoryEntry, EnsureCursor, EnsureDirectory, SubDirectoryIterator,
};
use crate::variable_resolver::VariableResolver;
use vstd::prelude::*;

verus! {

/// The names of the config types of a storage: a sequence that is handed out once.
#[derive(Debug)]
pub struct ListTypesIterator {
    pub sub_directory_iterator: SubDirectoryIterator,
}

impl ListTypesIterator {
    /// Hands out the next name, or the error that ended the listing, or nothing.
    pub fn next(&mut self) -> (item: Option<Result<String, std::io::Error>>)
        ensures
            item == old(self).sub_directory_iterator.upcoming(),
            final(self).sub_directory_iterator == old(self).sub_directory_iterator.advanced(),
    {
        self.sub_directory_iterator.next()
    }
}

/// The storage of all config types under one root, with the variables against which the
/// templates of their descriptors are decoded.
#[derive(Debug)]
pub struct ConfigStorage {
    pub variable_resolver: VariableResolver,
    pub directories: Directories,
}

/// The work of setting up a storage: its root, the directory of its config types and the
/// directory of its staging directories are ensured, in this order, and created where
/// they are missing.
#[derive(Debug)]
pub struct ConfigStorageSetup {
    /// The storage that is handed out when its directories are there.
    pub storage: ConfigStorage,
    /// The root of the storage.
    pub root_path: String,
    /// The directory of the config types.
    pub db_path: String,
    /// The directory of the staging directories.
    pub temp_path: String,
    /// The work of ensuring the root.
    pub root: EnsureDirectory,
    /// The work of ensuring the directory of the config types.
    pub db: EnsureDirectory,
    /// The work of ensuring the directory of the staging directories.
    pub temp: EnsureDirectory,
}

/// Whether `work` is the work of ensuring `path` with what is missing of it, before its
/// first step.
pub open spec fn ensures_created(work: EnsureDirectory, path: Seq<char>) -> bool {
    &&& texts(work.ancestors@) == ancestors_of_path(path)
    &&& work.create_if_not_exists
    &&& work.cursor == ensure_cursor_at(work.ancestors@.len(), 0)
}

impl ConfigStorageSetup {
    /// Whether this is the work of setting up the storage under `root_dir`, before its
    /// first step.
    pub open spec fn sets_up(
        &self,
        variable_resolver: VariableResolver,
        root_dir: Seq<char>,
    ) -> bool {
        &&& self.storage.variable_resolver == variable_resolver
        &&& self.storage.directories@ == root_dir
        &&& self.laid_out(root_dir)
        &&& ensures_created(self.root, root_dir)
        &&& ensures_created(self.db, db_dir_of(root_dir))
        &&& ensures_created(self.temp, temp_dir_of(root_dir))
    }

    /// Whether the three paths that the work may report are those of the storage under
    /// `root_dir`. This holds from the start and is kept by every event.
    pub open spec fn laid_out(&self, root_dir: Seq<char>) -> bool {
        &&& self.root_path@ == root_dir
        &&& self.db_path@ == db_dir_of(root_dir)
        &&& self.temp_path@ == temp_dir_of(root_dir)
    }

    /// Whether each of the three works is well formed. This holds from the start and is
    /// kept by every event.
    pub open spec fn well_formed(&self) -> bool {
        &&& self.root.well_formed()
        &&& self.db.well_formed()
        &&& self.temp.well_formed()
    }

    /// The step that the work waits for; none once it has ended. Each directory has its
    /// turn when the one before it is ensured.
    pub open spec fn pending_action(&self) -> Option<ActionView> {
        match self.root.cursor {
            EnsureCursor::Ensured => match self.db.cursor {
                EnsureCursor::Ensured => self.temp.pending_action(),
                EnsureCursor::Failed(_) => None,
                _ => self.db.pending_action(),
            },
            EnsureCursor::Failed(_) => None,
            _ => self.root.pending_action(),
        }
    }

    /// The work after `event`: the event goes to the directory whose turn it is.
    pub open spec fn advanced(self, event: Event) -> Self {
        match self.root.cursor {
            EnsureCursor::Ensured => match self.db.cursor {
                EnsureCursor::Ensured => ConfigStorageSetup {
                    temp: self.temp.advanced(event),
                    ..self
                },
                EnsureCursor::Failed(_) => self,
                _ => ConfigStorageSetup { db: self.db.advanced(event), ..self },
            },
            EnsureCursor::Failed(_) => self,
            _ => ConfigStorageSetup { root: self.root.advanced(event), ..self },
        }
    }

    /// How the work ended, once it has: with the storage, or with the path that is
    /// invalid. That is the one of the three directories that could not be ensured: the
    /// root, the directory of the config types, or the directory of the staging
    /// directories.
    pub open spec fn outcome(self) -> Option<
        Result<ConfigStorage, ConfigStorageConstructionError>,
    > {
        match self.root.cursor {
            EnsureCursor::Ensured => match self.db.cursor {
                EnsureCursor::Ensured => match self.temp.cursor {
                    EnsureCursor::Ensured => Some(Ok(self.storage)),
                    EnsureCursor::Failed(_) => Some(
                        Err(ConfigStorageConstructionError::InvalidStoragePath(self.temp_path)),
                    ),
                    _ => None,
                },
                EnsureCursor::Failed(_) => Some(
                    Err(ConfigStorageConstructionError::InvalidStoragePath(self.db_path)),
                ),
                _ => None,
            },
            EnsureCursor::Failed(_) => Some(
                Err(ConfigStorageConstructionError::InvalidStoragePath(self.root_path)),
            ),
            _ => None,
        }
    }

    /// The step that the work waits for; none once it has ended.
    pub fn pending(&self) -> (action: Option<Action>)
        ensures
            asked(action) == self.pending_action(),
    {
        match &self.root.cursor {
            EnsureCursor::Ensured => match &self.db.cursor {
                EnsureCursor::Ensured => self.temp.pending(),
                EnsureCursor::Failed(_) => None,
                _ => self.db.pending(),
            },
            EnsureCursor::Failed(_) => None,
            _ => self.root.pending(),
        }
    }

    /// Takes the work one event further.
    pub fn advance(self, event: Event) -> (next: Self)
        ensures
            next == self.advanced(event),
            self.well_formed() ==> next.well_formed(),
    {
        let ConfigStorageSetup { storage, root_path, db_path, temp_path, root, db, temp } = self;
        match &root.cursor {
            EnsureCursor::Ensured => match &db.cursor {
                EnsureCursor::Ensured => ConfigStorageSetup {
                    storage,
                    root_path,
                    db_path,
                    temp_path,
                    root,
                    db,
                    temp: temp.advance(event),
                },
                EnsureCursor::Failed(_) => ConfigStorageSetup {
                    storage,
                    root_path,
                    db_path,
                    temp_path,
                    root,
                    db,
                    temp,
                },
                _ => ConfigStorageSetup {
                    storage,
                    root_path,
                    db_path,
                    temp_path,
                    root,
                    db: db.advance(event),
                    temp,
                },
            },
            EnsureCursor::Failed(_) => ConfigStorageSetup {
                storage,
                root_path,
                db_path,
                temp_path,
                root,
                db,
                temp,
            },
            _ => ConfigStorageSetup {
                storage,
                root_path,
                db_path,
                temp_path,
                root: root.advance(event),
                db,
                temp,
            },
        }
    }

    /// How the work ended, once it has.
    pub fn result(self) -> (result: Option<Result<ConfigStorage, ConfigStorageConstructionError>>)
        ensures
            result == self.outcome(),
    {
        match self.root.cursor {
            EnsureCursor::Ensured => match self.db.cursor {
                EnsureCursor::Ensured => match self.temp.cursor {
                    EnsureCursor::Ensured => Some(Ok(self.storage)),
                    EnsureCursor::Failed(_) => Some(
                        Err(ConfigStorageConstructionError::InvalidStoragePath(self.temp_path)),
                    ),
                    _ => None,
                },
                EnsureCursor::Failed(_) => Some(
                    Err(ConfigStorageConstructionError::InvalidStoragePath(self.db_path)),
                ),
                _ => None,
            },
            EnsureCursor::Failed(_) => Some(
                Err(ConfigStorageConstructionError::InvalidStoragePath(self.root_path)),
            ),
            _ => None,
        }
    }

    /// Work that is well formed waits for a step exactly as long as it has not ended.
    pub proof fn lemma_pending_until_ended(self)
        requires
            self.well_formed(),
        ensures
            self.pending_action() is None <==> self.outcome() is Some,
    {
    }

    /// The path that is reported as invalid is the directory that could not be ensured:
    /// the first of the root, the directory of the config types and the directory of
    /// the staging directories whose work has failed. No event changes the three paths.
    pub proof fn lemma_reports_the_directory_that_failed(
        self,
        root_dir: Seq<char>,
        event: Event,
    )
        requires
            self.laid_out(root_dir),
        ensures
            self.advanced(event).laid_out(root_dir),
            self.outcome() matches Some(
                Err(ConfigStorageConstructionError::InvalidStoragePath(path)),
            ) ==> path@ == (if self.root.cursor is Failed {
                root_dir
            } else if self.db.cursor is Failed {
                db_dir_of(root_dir)
            } else {
                temp_dir_of(root_dir)
            }),
            (self.outcome() matches Some(Err(_))) <==> (self.root.cursor is Failed || (
            self.root.cursor is Ensured && (self.db.cursor is Failed || (
            self.db.cursor is Ensured && self.temp.cursor is Failed)))),
    {
    }
}

impl ConfigStorage {
    /// Starts the work of setting up the storage under `root_dir`.
    pub fn new(variable_resolver: VariableResolver, root_dir: String) -> (work: ConfigStorageSetup)
        ensures
            work.sets_up(variable_resolver, root_dir@),
            work.well_formed(),
    {
        let directories = Directories::new(root_dir);
        let root_path = directories.root_dir_path().to_owned();
        let db_path = directories.db_dir_path().to_owned();
        let temp_path = directories.temp_dir_path().to_owned();
        let root = ensure_directory(directories.root_dir_path(), true);
        let db = ensure_directory(directories.db_dir_path(), true);
        let temp = ensure_directory(directories.temp_dir_path(), true);
        ConfigStorageSetup {
            storage: ConfigStorage { variable_resolver, directories },
            root_path,
            db_path,
            temp_path,
            root,
            db,
            temp,
        }
    }

    /// The config types of the storage, given what reading the directory of the config
    /// types has brought: the names of the subdirectories, in the order in which they
    /// were read.
    pub fn iter_config_types(
        &self,
        read: Result<Vec<Result<DirectoryEntry, std::io::Error>>, std::io::Error>,
    ) -> (result: Result<ListTypesIterator, IterConfigTypesError>)
        ensures
            (match read {
                Ok(entries) => result is Ok && result->Ok_0.sub_directory_iterator.lists(
                    entries@,
                ),
                Err(error) => result == Err::<ListTypesIterator, IterConfigTypesError>(
                    IterConfigTypesError::IoError(error),
                ),
            }),
    {
        match read {
            Ok(entries) => Ok(
                ListTypesIterator { sub_directory_iterator: SubDirectoryIterator::new(entries) },
            ),
            Err(error) => Err(IterConfigTypesError::IoError(error)),
        }
    }

    /// Starts the work of opening the config type `config_type`.
    pub fn get_config_type_storage(&self, config_type: &str) -> (work: OpenConfigType<'_>)
        ensures
            work.opens(&self.variable_resolver, &self.directories, config_type@),
            work.well_formed(),
    {
        ConfigTypeStorage::new(&self.variable_resolver, config_type, &self.directories)
    }

    /// Starts the work of creating the config type `config_type`, which must not exist
    /// yet.
    pub fn create_config_type(&self, config_type: &str) -> (work: CreateConfigType<'_>)
        ensures
            work.creates(&self.variable_resolver, &self.directories, config_type@),
            work.well_formed(),
    {
        create_config_type_dir(&self.variable_resolver, &self.directories, config_type)
    }
}

/// Starts the work of creating the config type `config_type`, which must not exist yet.
pub fn create_config_type_dir<'a>(
    variable_resolver: &'a VariableResolver,
    directories: &'a Directories,
    config_type: &str,
) -> (work: CreateConfigType<'a>)
    ensures
        work.creates(variable_resolver, directories, config_type@),
        work.well_formed(),
{
    let config_type_dir = directories.config_type_dir_path(config_type);
    CreateConfigType {
        lookup: ConfigTypeStorage::new(variable_resolver, config_type, directories),
        create: create_new_directory(config_type_dir.as_str()),
        descriptor_path: directories.config_type_descriptor_path(config_type),
        writing: DescriptorWriting::Waiting,
        reopen: ConfigTypeStorage::new(variable_resolver, config_type, directories),
    }
}

/// Where writing the first descriptor of a config type stands.
#[derive(Debug)]
pub enum DescriptorWriting {
    /// The descriptor has not been written yet.
    Waiting,
    /// The descriptor could not be written.
    Failed(WriteConfigTypeDescriptorError),
    /// The descriptor was written.
    Written,
}

/// The work of creating a config type.
///
/// The config type is looked up first. Only where its directory is not found, the
/// directory is created, a descriptor without a template is written into it, and the
/// config type is opened. Where the config type exists, or something else is at its
/// place, the work ends after the lookup, which only reads.
#[derive(Debug)]
pub struct CreateConfigType<'a> {
    /// The lookup of the config type.
    pub lookup: OpenConfigType<'a>,
    /// The work of creating the directory of the config type.
    pub create: CreateNewDirectory,
    /// The file of the descriptor.
    pub descriptor_path: String,
    /// Where writing the descriptor stands.
    pub writing: DescriptorWriting,
    /// The work of opening the config type once it is created.
    pub reopen: OpenConfigType<'a>,
}

impl<'a> CreateConfigType<'a> {
    /// Whether this is the work of creating `config_type`, before its first step.
    pub open spec fn creates(
        &self,
        variable_resolver: &'a VariableResolver,
        directories: &'a Directories,
        config_type: Seq<char>,
    ) -> bool {
        &&& self.lookup.opens(variable_resolver, directories, config_type)
        &&& self.create.path@ == config_type_dir_of(directories@, config_type)
        &&& self.create.cursor == CreateCursor::Probing
        &&& self.descriptor_path@ == config_type_descriptor_of(directories@, config_type)
        &&& self.writing is Waiting
        &&& self.reopen.opens(variable_resolver, directories, config_type)
    }

    /// Whether the lookup and the opening are well formed. This holds from the start
    /// and is kept by every event.
    pub open spec fn well_formed(&self) -> bool {
        &&& self.lookup.well_formed()
        &&& self.reopen.well_formed()
    }

    /// Whether the lookup has ended and has found the directory of the config type
    /// missing. Nothing is created or written unless this holds.
    pub open spec fn may_create(&self) -> bool {
        self.lookup.progress() == OpenStatus::NotFound
    }

    /// The step that the work waits for; none once it has ended.
    pub open spec fn pending_action(&self) -> Option<ActionView> {
        match self.lookup.progress() {
            OpenStatus::Pending => self.lookup.pending_action(),
            OpenStatus::NotFound => match self.create.cursor {
                CreateCursor::Created => match self.writing {
                    DescriptorWriting::Waiting => Some(
                        ActionView::WriteDescriptor {
                            path: self.descriptor_path@,
                            descriptor: Seq::empty(),
                        },
                    ),
                    DescriptorWriting::Written => self.reopen.pending_action(),
                    DescriptorWriting::Failed(_) => None,
                },
                CreateCursor::Failed(_) => None,
                _ => self.create.pending_action(),
            },
            _ => None,
        }
    }

    /// Where writing the descriptor stands after `event`.
    pub open spec fn writing_after(writing: DescriptorWriting, event: Event) -> DescriptorWriting {
        match writing {
            DescriptorWriting::Waiting => match event {
                Event::Completed => DescriptorWriting::Written,
                Event::DescriptorNotWritten(error) => DescriptorWriting::Failed(error),
                _ => writing,
            },
            _ => writing,
        }
    }

    /// The work after `event`: the event goes to the part that has the turn. An event
    /// that does not answer the pending step changes nothing.
    pub open spec fn advanced(self, event: Event) -> Self {
        match self.lookup.progress() {
            OpenStatus::Pending => CreateConfigType {
                lookup: self.lookup.advanced(event),
                ..self
            },
            OpenStatus::NotFound => match self.create.cursor {
                CreateCursor::Created => match self.writing {
                    DescriptorWriting::Waiting => CreateConfigType {
                        writing: Self::writing_after(self.writing, event),
                        ..self
                    },
                    DescriptorWriting::Written => CreateConfigType {
                        reopen: self.reopen.advanced(event),
                        ..self
                    },
                    DescriptorWriting::Failed(_) => self,
                },
                CreateCursor::Failed(_) => self,
                _ => CreateConfigType { create: self.create.advanced(event), ..self },
            },
            _ => self,
        }
    }

    /// How the work ended, once it has.
    ///
    /// A config type that the lookup opens exists already. A lookup that fails for
    /// another reason than a missing directory has found something incorrect, and so
    /// has an opening that fails after the creation.
    pub open spec fn outcome(self) -> Option<Result<ConfigTypeStorage<'a>, CreateConfigTypeError>> {
        match self.lookup.validation() {
            None => None,
            Some(Ok(found)) => Some(
                Err(
                    CreateConfigTypeError::ConfigTypeAlreadyExists {
                        config_type: found.config_type,
                    },
                ),
            ),
            Some(Err(lookup_error)) => if lookup_error is DirectoryNotFound {
                match self.create.cursor {
                    CreateCursor::Created => match self.writing {
                        DescriptorWriting::Waiting => None,
                        DescriptorWriting::Failed(error) => Some(
                            Err(CreateConfigTypeError::CouldNotWriteDescriptorToFile(error)),
                        ),
                        DescriptorWriting::Written => match self.reopen.validation() {
                            None => None,
                            Some(Ok(storage)) => Some(Ok(storage)),
                            Some(Err(validation_error)) => Some(
                                Err(
                                    CreateConfigTypeError::IncorrectConfigTypeFound {
                                        config_type: self.reopen.config_type,
                                        validation_error,
                                    },
                                ),
                            ),
                        },
                    },
                    CreateCursor::Failed(new_directory_error) => Some(
                        Err(
                            CreateConfigTypeError::CouldNotCreateDirectory {
                                path: self.create.path,
                                new_directory_error,
                            },
                        ),
                    ),
                    _ => None,
                }
            } else {
                Some(
                    Err(
                        CreateConfigTypeError::IncorrectConfigTypeFound {
                            config_type: self.lookup.config_type,
                            validation_error: lookup_error,
                        },
                    ),
                )
            },
        }
    }

    /// The step that the work waits for; none once it has ended.
    pub fn pending(&self) -> (action: Option<Action>)
        ensures
            asked(action) == self.pending_action(),
    {
        match self.lookup.status() {
            OpenStatus::Pending => self.lookup.pending(),
            OpenStatus::NotFound => match &self.create.cursor {
                CreateCursor::Created => match &self.writing {
                    DescriptorWriting::Waiting => Some(
                        Action::WriteDescriptor {
                            path: self.descriptor_path.clone(),
                            descriptor: ConfigTypeDescriptor::new(),
                        },
                    ),
                    DescriptorWriting::Written => self.reopen.pending(),
                    DescriptorWriting::Failed(_) => None,
                },
                CreateCursor::Failed(_) => None,
                _ => self.create.pending(),
            },
            _ => None,
        }
    }

    /// Takes the work one event further.
    pub fn advance(self, event: Event) -> (next: Self)
        ensures
            next == self.advanced(event),
            self.well_formed() ==> next.well_formed(),
    {
        let status = self.lookup.status();
        let CreateConfigType { lookup, create, descriptor_path, writing, reopen } = self;
        match status {
            OpenStatus::Pending => CreateConfigType {
                lookup: lookup.advance(event),
                create,
                descriptor_path,
                writing,
                reopen,
            },
            OpenStatus::NotFound => match &create.cursor {
                CreateCursor::Created => match writing {
                    DescriptorWriting::Waiting => {
                        let writing = match event {
                            Event::Completed => DescriptorWriting::Written,
                            Event::DescriptorNotWritten(error) => DescriptorWriting::Failed(error),
                            _ => DescriptorWriting::Waiting,
                        };
                        CreateConfigType { lookup, create, descriptor_path, writing, reopen }
                    },
                    DescriptorWriting::Written => CreateConfigType {
                        lookup,
                        create,
                        descriptor_path,
                        writing: DescriptorWriting::Written,
                        reopen: reopen.advance(event),
                    },
                    DescriptorWriting::Failed(error) => CreateConfigType {
                        lookup,
                        create,
                        descriptor_path,
                        writing: DescriptorWriting::Failed(error),
                        reopen,
                    },
                },
                CreateCursor::Failed(_) => CreateConfigType {
                    lookup,
                    create,
                    descriptor_path,
                    writing,
                    reopen,
                },
                _ => CreateConfigType {
                    lookup,
                    create: create.advance(event),
                    descriptor_path,
                    writing,
                    reopen,
                },
            },
            _ => CreateConfigType { lookup, create, descriptor_path, writing, reopen },
        }
    }

    /// How the work ended, once it has.
    pub fn result(self) -> (result: Option<Result<ConfigTypeStorage<'a>, CreateConfigTypeError>>)
        ensures
            result == self.outcome(),
    {
        let CreateConfigType { lookup, create, descriptor_path, writing, reopen } = self;
        let lookup_type = lookup.config_type.clone();
        match lookup.validate() {
            None => None,
            Some(Ok(found)) => Some(
                Err(
                    CreateConfigTypeError::ConfigTypeAlreadyExists {
                        config_type: found.config_type,
                    },
                ),
            ),
            Some(Err(lookup_error)) => match lookup_error {
                ConfigTypeDirValidationError::DirectoryNotFound { path } => {
                    match create.cursor {
                        CreateCursor::Created => match writing {
                            DescriptorWriting::Waiting => None,
                            DescriptorWriting::Failed(error) => Some(
                                Err(CreateConfigTypeError::CouldNotWriteDescriptorToFile(error)),
                            ),
                            DescriptorWriting::Written => {
                                let config_type = reopen.config_type.clone();
                                match reopen.validate() {
                                    None => None,
                                    Some(Ok(storage)) => Some(Ok(storage)),
                                    Some(Err(validation_error)) => Some(
                                        Err(
                                            CreateConfigTypeError::IncorrectConfigTypeFound {
                                                config_type,
                                                validation_error,
                                            },
                                        ),
                                    ),
                                }
                            },
                        },
                        CreateCursor::Failed(new_directory_error) => Some(
                            Err(
                                CreateConfigTypeError::CouldNotCreateDirectory {
                                    path: create.path,
                                    new_directory_error,
                                },
                            ),
                        ),
                        _ => None,
                    }
                },
                validation_error => Some(
                    Err(
                        CreateConfigTypeError::IncorrectConfigTypeFound {
                            config_type: lookup_type,
                            validation_error,
                        },
                    ),
                ),
            },
        }
    }

    /// Work that is well formed waits for a step exactly as long as it has not ended.
    pub proof fn lemma_pending_until_ended(self)
        requires
            self.well_formed(),
        ensures
            self.pending_action() is None <==> self.outcome() is Some,
    {
        self.lookup.lemma_pending_reads_until_ended();
        self.reopen.lemma_pending_reads_until_ended();
    }

    /// A config type that exists is left alone. As long as the lookup has not found
    /// the directory of the config type missing, every step that the work waits for
    /// leaves the filesystem as it is; and when the lookup opens the config type, the
    /// work has ended, with the error that the config type exists already.
    pub proof fn lemma_existing_type_is_left_alone(self)
        requires
            self.well_formed(),
            !self.may_create(),
        ensures
            self.pending_action() matches Some(action) ==> action.reads_only(),
            self.lookup.validation() matches Some(Ok(found)) ==> self.pending_action() is None
                && self.outcome() == Some(
                Err::<ConfigTypeStorage<'a>, CreateConfigTypeError>(
                    CreateConfigTypeError::ConfigTypeAlreadyExists {
                        config_type: found.config_type,
                    },
                ),
            ),
    {
        self.lookup.lemma_pending_reads_until_ended();
    }

    /// Whether the lookup has found the directory of the config type missing is settled
    /// once the lookup has ended: no later event changes it.
    pub proof fn lemma_lookup_is_settled(self, event: Event)
        requires
            self.lookup.progress() != OpenStatus::Pending,
        ensures
            self.advanced(event).lookup == self.lookup,
    {
    }
}

} // verus!
