use crate::config_type_descriptor::ConfigTypeDescriptor;
use crate::directories::{
    config_type_descriptor_of, config_type_dir_of, is_hyphenated_uuid,
    labeled_config_type_dir_of, staging_dir_of, Directories,
};
use crate::error::{
    ConfigTypeDirValidationError, EnsureDirectoryError, GetConfigTypeError,
    IterConfigTypeLabelsError, ReadConfigTypeDescriptorError, StoreLabeledConfigTypeError,
};
use crate::filesystem::{asked, Action, ActionView, Event, PathStatus};
use crate::labeled_storage::{
    planned_transfers, Direction, LabeledConfigTypeStorage, LoadOperation, Transaction,
    TransactionPhase,
};
use crate::paths::texts;
use crate::utils::{
    ancestors_of_path, create_new_directory, ensure_cursor_at, ensure_directory, CreateCursor,
    CreateNewDirectory, DirectoryEntry, EnsureCursor, EnsureDirectory, SubDirectoryIterator,
};
use crate::variable_resolver::VariableResolver;
use vstd::prelude::*;

verus! {

/// The work of storing a label.
///
/// The snapshot is built in a staging directory of its own and takes the label's place
/// only when it is whole: the staging directory is created, the live files are captured
/// into it, what the label held before is removed, and the staging directory is renamed
/// to the label's directory. The removal and the renaming are two steps: when the work
/// is cut off between them, the label holds neither the old snapshot nor the new one.
#[derive(Debug)]
pub enum StoreOperation {
    /// The staging directory is being created.
    CreatingStaging { create: CreateNewDirectory, capture: Transaction, target_dir: String },
    /// The live files are being captured into the staging directory.
    Capturing { capture: Transaction, staging_dir: String, target_dir: String },
    /// The label's directory is being probed.
    ProbingTarget { staging_dir: String, target_dir: String },
    /// What the label held before is being removed.
    RemovingOld { staging_dir: String, target_dir: String },
    /// The staging directory is being renamed to the label's directory.
    Renaming { staging_dir: String, target_dir: String },
    /// A step failed, and the work ended there.
    Failed(StoreLabeledConfigTypeError),
    /// The label holds the new snapshot.
    Stored,
}

/// The work once the capture stands as given: it goes on to the label's directory when
/// the capture has succeeded, and ends when the capture has failed.
pub open spec fn store_after_capture(
    capture: Transaction,
    staging_dir: String,
    target_dir: String,
) -> StoreOperation {
    match capture.outcome() {
        Some(Ok(())) => StoreOperation::ProbingTarget { staging_dir, target_dir },
        Some(Err(error)) => StoreOperation::Failed(
            StoreLabeledConfigTypeError::of_transfer(error),
        ),
        None => StoreOperation::Capturing { capture, staging_dir, target_dir },
    }
}

/// The work once creating the staging directory stands as given: the capture begins when
/// the directory is there, and nothing is captured when it could not be created.
pub open spec fn store_after_create(
    create: CreateNewDirectory,
    capture: Transaction,
    target_dir: String,
) -> StoreOperation {
    match create.cursor {
        CreateCursor::Created => store_after_capture(capture, create.path, target_dir),
        CreateCursor::Failed(io_error) => StoreOperation::Failed(
            StoreLabeledConfigTypeError::CouldNotCreateTempDirectory {
                io_error,
                path: create.path,
            },
        ),
        _ => StoreOperation::CreatingStaging { create, capture, target_dir },
    }
}

impl StoreOperation {
    /// Whether the work inside the current phase is well formed and has not ended. This
    /// holds from the start and is kept by every event.
    pub open spec fn well_formed(&self) -> bool {
        match *self {
            StoreOperation::CreatingStaging { create, capture, target_dir } => {
                &&& create.outcome() is None
                &&& capture.well_formed()
            },
            StoreOperation::Capturing { capture, staging_dir, target_dir } => {
                &&& capture.well_formed()
                &&& capture.outcome() is None
            },
            _ => true,
        }
    }

    /// The step that the work waits for; none once it has ended.
    pub open spec fn pending_action(&self) -> Option<ActionView> {
        match *self {
            StoreOperation::CreatingStaging { create, capture, target_dir } => {
                create.pending_action()
            },
            StoreOperation::Capturing { capture, staging_dir, target_dir } => {
                capture.pending_action()
            },
            StoreOperation::ProbingTarget { staging_dir, target_dir } => Some(
                ActionView::Probe { path: target_dir@ },
            ),
            StoreOperation::RemovingOld { staging_dir, target_dir } => Some(
                ActionView::RemoveDirectoryTree { path: target_dir@ },
            ),
            StoreOperation::Renaming { staging_dir, target_dir } => Some(
                ActionView::Rename { source: staging_dir@, dest: target_dir@ },
            ),
            _ => None,
        }
    }

    /// The work after `event`.
    ///
    /// Whatever is found at the label's directory is removed before the staging
    /// directory is renamed; where nothing is found, it is renamed at once. A step that
    /// fails ends the work. An event that does not answer the pending step changes
    /// nothing.
    pub open spec fn advanced(self, event: Event) -> Self {
        match self {
            StoreOperation::CreatingStaging { create, capture, target_dir } => {
                store_after_create(create.advanced(event), capture, target_dir)
            },
            StoreOperation::Capturing { capture, staging_dir, target_dir } => {
                store_after_capture(capture.advanced(event), staging_dir, target_dir)
            },
            StoreOperation::ProbingTarget { staging_dir, target_dir } => match event {
                Event::Status(PathStatus::Missing) => StoreOperation::Renaming {
                    staging_dir,
                    target_dir,
                },
                Event::Status(_) => StoreOperation::RemovingOld { staging_dir, target_dir },
                _ => self,
            },
            StoreOperation::RemovingOld { staging_dir, target_dir } => match event {
                Event::Completed => StoreOperation::Renaming { staging_dir, target_dir },
                Event::Failed(io_error) => StoreOperation::Failed(
                    StoreLabeledConfigTypeError::CouldNotRemoveOldDirectory {
                        io_error,
                        path: target_dir,
                    },
                ),
                _ => self,
            },
            StoreOperation::Renaming { staging_dir, target_dir } => match event {
                Event::Completed => StoreOperation::Stored,
                Event::Failed(io_error) => StoreOperation::Failed(
                    StoreLabeledConfigTypeError::CouldNotRenameTempDirectory {
                        io_error,
                        source_path: staging_dir,
                        dest_path: target_dir,
                    },
                ),
                _ => self,
            },
            _ => self,
        }
    }

    /// How the work ended, once it has.
    pub open spec fn outcome(self) -> Option<Result<(), StoreLabeledConfigTypeError>> {
        match self {
            StoreOperation::Stored => Some(Ok(())),
            StoreOperation::Failed(error) => Some(Err(error)),
            _ => None,
        }
    }

    fn after_capture(capture: Transaction, staging_dir: String, target_dir: String) -> (next: Self)
        ensures
            next == store_after_capture(capture, staging_dir, target_dir),
            capture.well_formed() ==> next.well_formed(),
    {
        let Transaction { plan, phase } = capture;
        match phase {
            TransactionPhase::Failed(error) => StoreOperation::Failed(
                StoreLabeledConfigTypeError::from_transfer(error),
            ),
            TransactionPhase::Completed => match plan.failure {
                Some(error) => StoreOperation::Failed(
                    StoreLabeledConfigTypeError::from_transfer(error),
                ),
                None => StoreOperation::ProbingTarget { staging_dir, target_dir },
            },
            phase => StoreOperation::Capturing {
                capture: Transaction { plan, phase },
                staging_dir,
                target_dir,
            },
        }
    }

    fn after_create(create: CreateNewDirectory, capture: Transaction, target_dir: String) -> (next:
        Self)
        ensures
            next == store_after_create(create, capture, target_dir),
            capture.well_formed() ==> next.well_formed(),
    {
        let CreateNewDirectory { path, cursor } = create;
        match cursor {
            CreateCursor::Created => Self::after_capture(capture, path, target_dir),
            CreateCursor::Failed(io_error) => StoreOperation::Failed(
                StoreLabeledConfigTypeError::CouldNotCreateTempDirectory { io_error, path },
            ),
            cursor => StoreOperation::CreatingStaging {
                create: CreateNewDirectory { path, cursor },
                capture,
                target_dir,
            },
        }
    }

    /// The step that the work waits for; none once it has ended.
    pub fn pending(&self) -> (action: Option<Action>)
        ensures
            asked(action) == self.pending_action(),
    {
        match self {
            StoreOperation::CreatingStaging { create, capture, target_dir } => create.pending(),
            StoreOperation::Capturing { capture, staging_dir, target_dir } => capture.pending(),
            StoreOperation::ProbingTarget { staging_dir, target_dir } => Some(
                Action::Probe { path: target_dir.clone() },
            ),
            StoreOperation::RemovingOld { staging_dir, target_dir } => Some(
                Action::RemoveDirectoryTree { path: target_dir.clone() },
            ),
            StoreOperation::Renaming { staging_dir, target_dir } => Some(
                Action::Rename { source: staging_dir.clone(), dest: target_dir.clone() },
            ),
            _ => None,
        }
    }

    /// Takes the work one event further.
    pub fn advance(self, event: Event) -> (next: Self)
        ensures
            next == self.advanced(event),
            self.well_formed() ==> next.well_formed(),
    {
        match self {
            StoreOperation::CreatingStaging { create, capture, target_dir } => {
                Self::after_create(create.advance(event), capture, target_dir)
            },
            StoreOperation::Capturing { capture, staging_dir, target_dir } => {
                Self::after_capture(capture.advance(event), staging_dir, target_dir)
            },
            StoreOperation::ProbingTarget { staging_dir, target_dir } => match event {
                Event::Status(PathStatus::Missing) => StoreOperation::Renaming {
                    staging_dir,
                    target_dir,
                },
                Event::Status(_) => StoreOperation::RemovingOld { staging_dir, target_dir },
                _ => StoreOperation::ProbingTarget { staging_dir, target_dir },
            },
            StoreOperation::RemovingOld { staging_dir, target_dir } => match event {
                Event::Completed => StoreOperation::Renaming { staging_dir, target_dir },
                Event::Failed(io_error) => StoreOperation::Failed(
                    StoreLabeledConfigTypeError::CouldNotRemoveOldDirectory {
                        io_error,
                        path: target_dir,
                    },
                ),
                _ => StoreOperation::RemovingOld { staging_dir, target_dir },
            },
            StoreOperation::Renaming { staging_dir, target_dir } => match event {
                Event::Completed => StoreOperation::Stored,
                Event::Failed(io_error) => StoreOperation::Failed(
                    StoreLabeledConfigTypeError::CouldNotRenameTempDirectory {
                        io_error,
                        source_path: staging_dir,
                        dest_path: target_dir,
                    },
                ),
                _ => StoreOperation::Renaming { staging_dir, target_dir },
            },
            StoreOperation::Failed(error) => StoreOperation::Failed(error),
            StoreOperation::Stored => StoreOperation::Stored,
        }
    }

    /// How the work ended, once it has.
    pub fn result(self) -> (result: Option<Result<(), StoreLabeledConfigTypeError>>)
        ensures
            result == self.outcome(),
    {
        match self {
            StoreOperation::Stored => Some(Ok(())),
            StoreOperation::Failed(error) => Some(Err(error)),
            _ => None,
        }
    }

    /// Work that is well formed waits for a step exactly as long as it has not ended.
    pub proof fn lemma_pending_until_ended(self)
        requires
            self.well_formed(),
        ensures
            self.pending_action() is None <==> self.outcome() is Some,
    {
    }

    /// The label is left alone until the snapshot is whole. As long as the staging
    /// directory is being created or filled, nothing is removed and nothing is renamed:
    /// a capture that fails leaves the label as it was.
    pub proof fn lemma_label_untouched_while_capturing(self)
        requires
            self is CreatingStaging || self is Capturing,
        ensures
            self.pending_action() matches Some(action) ==> action is Probe
                || action is CreateDirectory || action is CopyFile,
    {
        match self {
            StoreOperation::Capturing { capture, staging_dir, target_dir } => {
                capture.lemma_only_probes_creates_and_copies();
            },
            _ => {},
        }
    }

    /// The staging directory is renamed only after the label's directory was found
    /// missing, or after what it held was removed: the new snapshot never lands on top
    /// of an old one.
    pub proof fn lemma_renames_onto_nothing(self, event: Event)
        requires
            self.advanced(event) is Renaming,
        ensures
            self is Renaming || (self is ProbingTarget && event == Event::Status(
                PathStatus::Missing,
            )) || (self is RemovingOld && event is Completed),
    {
    }
}

} // verus!

verus! {

/// The names of the labels of a config type: a sequence that is handed out once.
#[derive(Debug)]
pub struct LabelIterator {
    pub sub_directory_iterator: SubDirectoryIterator,
}

impl LabelIterator {
    /// Hands out the next name, or the error that ended the listing, or nothing.
    pub fn next(&mut self) -> (item: Option<Result<String, std::io::Error>>)
        ensures
            item == old(self).sub_directory_iterator.upcoming(),
            final(self).sub_directory_iterator == old(self).sub_directory_iterator.advanced(),
    {
        self.sub_directory_iterator.next()
    }
}

/// One config type of the storage: its descriptor, and what is needed to store and to
/// load its labels.
#[derive(Debug)]
pub struct ConfigTypeStorage<'a> {
    pub variable_resolver: &'a VariableResolver,
    pub config_type: String,
    pub directories: &'a Directories,
    /// The descriptor as it was read when the config type was opened.
    pub descriptor: ConfigTypeDescriptor,
}

impl<'a> ConfigTypeStorage<'a> {
    /// Starts the work of opening the config type `config_type`.
    pub fn new(
        variable_resolver: &'a VariableResolver,
        config_type: &str,
        directories: &'a Directories,
    ) -> (work: OpenConfigType<'a>)
        ensures
            work.opens(variable_resolver, directories, config_type@),
            work.well_formed(),
    {
        let config_type_dir = directories.config_type_dir_path(config_type);
        OpenConfigType {
            variable_resolver,
            directories,
            config_type: config_type.to_owned(),
            descriptor_path: directories.config_type_descriptor_path(config_type),
            ensure: ensure_directory(config_type_dir.as_str(), false),
            reading: DescriptorReading::Waiting,
        }
    }

    /// The directory of the config type, in which its descriptor lies.
    pub fn descriptor_path(&self) -> (path: String)
        ensures
            path@ == config_type_dir_of(self.directories@, self.config_type@),
    {
        self.directories.config_type_dir_path(self.config_type.as_str())
    }

    /// The labels of the config type, given what reading its directory has brought: the
    /// names of the subdirectories, in the order in which they were read.
    pub fn iter_labels(
        &self,
        read: Result<Vec<Result<DirectoryEntry, std::io::Error>>, std::io::Error>,
    ) -> (result: Result<LabelIterator, IterConfigTypeLabelsError>)
        ensures
            (match read {
                Ok(entries) => result is Ok && result->Ok_0.sub_directory_iterator.lists(
                    entries@,
                ),
                Err(error) => result == Err::<LabelIterator, IterConfigTypeLabelsError>(
                    IterConfigTypeLabelsError::IoError(error),
                ),
            }),
    {
        match read {
            Ok(entries) => Ok(
                LabelIterator { sub_directory_iterator: SubDirectoryIterator::new(entries) },
            ),
            Err(error) => Err(IterConfigTypeLabelsError::IoError(error)),
        }
    }

    /// Whether `work` is the work of storing `label` through the staging directory
    /// `staging_dir`, before its first step.
    pub open spec fn stores(
        &self,
        work: StoreOperation,
        label: Seq<char>,
        staging_dir: Seq<char>,
    ) -> bool {
        match work {
            StoreOperation::CreatingStaging { create, capture, target_dir } => {
                &&& create.path@ == staging_dir
                &&& create.cursor == CreateCursor::Probing
                &&& target_dir@ == labeled_config_type_dir_of(
                    self.directories@,
                    self.config_type@,
                    label,
                )
                &&& capture.carries_out(
                    planned_transfers(
                        self.descriptor@,
                        staging_dir,
                        self.variable_resolver@,
                        Direction::Capture,
                    ),
                )
            },
            _ => false,
        }
    }

    /// Starts the work of storing `label` through the staging directory `staging_dir`.
    pub fn store_in(&self, label: &str, staging_dir: String) -> (work: StoreOperation)
        ensures
            self.stores(work, label@, staging_dir@),
            work.well_formed(),
    {
        let target_dir = self.directories.labeled_config_type_dir_path(
            self.config_type.as_str(),
            label,
        );
        let create = create_new_directory(staging_dir.as_str());
        let capture = LabeledConfigTypeStorage::new(
            self.variable_resolver,
            &self.descriptor,
            staging_dir,
        ).store().transaction;
        StoreOperation::CreatingStaging { create, capture, target_dir }
    }

    /// Starts the work of storing `label`: the live files of the descriptor are
    /// captured into a staging directory of a fresh random name, which then takes the
    /// place of the label's directory.
    pub fn store(&self, label: &str) -> (work: StoreOperation)
        ensures
            exists|id: Seq<char>|
                is_hyphenated_uuid(id) && self.stores(
                    work,
                    label@,
                    #[trigger] staging_dir_of(self.directories@, id),
                ),
            work.well_formed(),
    {
        let staging_dir = self.directories.create_temp_dir_path();
        self.store_in(label, staging_dir)
    }

    /// Starts the work of loading `label`: the files of the descriptor are restored from
    /// the label's directory straight onto the live filesystem. Nothing is staged, so a
    /// step that fails leaves the files before it restored and the others as they were.
    pub fn load(&self, label: &str) -> (work: LoadOperation)
        ensures
            work.transaction.carries_out(
                planned_transfers(
                    self.descriptor@,
                    labeled_config_type_dir_of(self.directories@, self.config_type@, label@),
                    self.variable_resolver@,
                    Direction::Restore,
                ),
            ),
            work.well_formed(),
    {
        let label_dir = self.directories.labeled_config_type_dir_path(
            self.config_type.as_str(),
            label,
        );
        LabeledConfigTypeStorage::new(self.variable_resolver, &self.descriptor, label_dir).load()
    }
}

/// Where reading the descriptor of a config type stands.
#[derive(Debug)]
pub enum DescriptorReading {
    /// The descriptor has not been read yet.
    Waiting,
    /// The descriptor could not be read.
    Failed(ReadConfigTypeDescriptorError),
    /// The descriptor was read.
    Read(ConfigTypeDescriptor),
}

/// How far the work of opening a config type has come.
#[derive(Clone, Copy, Debug, PartialEq, Eq, Structural)]
pub enum OpenStatus {
    /// The work has not ended.
    Pending,
    /// The config type is open.
    Opened,
    /// The directory of the config type was not found.
    NotFound,
    /// Something is at the config type's place, and it is no usable config type.
    Incorrect,
}

/// The work of opening a config type: its directory must be there, with every ancestor,
/// and its descriptor must be readable. Nothing is created.
#[derive(Debug)]
pub struct OpenConfigType<'a> {
    pub variable_resolver: &'a VariableResolver,
    pub directories: &'a Directories,
    pub config_type: String,
    /// The file of the descriptor.
    pub descriptor_path: String,
    /// The work of ensuring the directory of the config type.
    pub ensure: EnsureDirectory,
    /// Where reading the descriptor stands.
    pub reading: DescriptorReading,
}

impl<'a> OpenConfigType<'a> {
    /// Whether this is the work of opening `config_type`, before its first step.
    pub open spec fn opens(
        &self,
        variable_resolver: &'a VariableResolver,
        directories: &'a Directories,
        config_type: Seq<char>,
    ) -> bool {
        &&& self.variable_resolver == variable_resolver
        &&& self.directories == directories
        &&& self.config_type@ == config_type
        &&& self.descriptor_path@ == config_type_descriptor_of(directories@, config_type)
        &&& texts(self.ensure.ancestors@) == ancestors_of_path(
            config_type_dir_of(directories@, config_type),
        )
        &&& self.ensure.cursor == ensure_cursor_at(self.ensure.ancestors@.len(), 0)
        &&& !self.ensure.create_if_not_exists
        &&& self.reading is Waiting
    }

    /// Whether the work is well formed: it creates nothing. This holds from the start
    /// and is kept by every event.
    pub open spec fn well_formed(&self) -> bool {
        &&& self.ensure.well_formed()
        &&& !self.ensure.create_if_not_exists
        &&& !(self.ensure.cursor is Creating)
    }

    /// The step that the work waits for; none once it has ended. The descriptor is read
    /// only when the directory is ensured.
    pub open spec fn pending_action(&self) -> Option<ActionView> {
        match self.ensure.cursor {
            EnsureCursor::Ensured => match self.reading {
                DescriptorReading::Waiting => Some(
                    ActionView::ReadDescriptor { path: self.descriptor_path@ },
                ),
                _ => None,
            },
            EnsureCursor::Failed(_) => None,
            _ => self.ensure.pending_action(),
        }
    }

    /// Where reading the descriptor stands after `event`.
    pub open spec fn reading_after(reading: DescriptorReading, event: Event) -> DescriptorReading {
        match reading {
            DescriptorReading::Waiting => match event {
                Event::DescriptorRead(descriptor) => DescriptorReading::Read(descriptor),
                Event::DescriptorNotRead(error) => DescriptorReading::Failed(error),
                _ => reading,
            },
            _ => reading,
        }
    }

    /// The work after `event`. An event that does not answer the pending step changes
    /// nothing.
    pub open spec fn advanced(self, event: Event) -> Self {
        match self.ensure.cursor {
            EnsureCursor::Ensured => OpenConfigType {
                reading: Self::reading_after(self.reading, event),
                ..self
            },
            EnsureCursor::Failed(_) => self,
            _ => OpenConfigType { ensure: self.ensure.advanced(event), ..self },
        }
    }

    /// How the work ended, once it has, as the validation of the directory sees it.
    pub open spec fn validation(self) -> Option<
        Result<ConfigTypeStorage<'a>, ConfigTypeDirValidationError>,
    > {
        match self.ensure.cursor {
            EnsureCursor::Ensured => match self.reading {
                DescriptorReading::Read(descriptor) => Some(
                    Ok(
                        ConfigTypeStorage {
                            variable_resolver: self.variable_resolver,
                            config_type: self.config_type,
                            directories: self.directories,
                            descriptor,
                        },
                    ),
                ),
                DescriptorReading::Failed(error) => Some(
                    Err(ConfigTypeDirValidationError::CouldNotReadDescriptor(error)),
                ),
                DescriptorReading::Waiting => None,
            },
            EnsureCursor::Failed(error) => Some(
                Err(ConfigTypeDirValidationError::of_ensure(error)),
            ),
            _ => None,
        }
    }

    /// How the work ended, once it has: with the open config type, or with the reason
    /// why there is none. The config type is not found exactly where its directory, or
    /// an ancestor of it, is missing.
    pub open spec fn outcome(self) -> Option<Result<ConfigTypeStorage<'a>, GetConfigTypeError>> {
        match self.validation() {
            Some(Ok(storage)) => Some(Ok(storage)),
            Some(Err(error)) => Some(
                Err(GetConfigTypeError::of_validation(self.config_type, error)),
            ),
            None => None,
        }
    }

    /// How far the work has come.
    pub open spec fn progress(&self) -> OpenStatus {
        match self.validation() {
            None => OpenStatus::Pending,
            Some(Ok(_)) => OpenStatus::Opened,
            Some(Err(error)) => if error is DirectoryNotFound {
                OpenStatus::NotFound
            } else {
                OpenStatus::Incorrect
            },
        }
    }

    /// The step that the work waits for; none once it has ended.
    pub fn pending(&self) -> (action: Option<Action>)
        ensures
            asked(action) == self.pending_action(),
    {
        match &self.ensure.cursor {
            EnsureCursor::Ensured => match &self.reading {
                DescriptorReading::Waiting => Some(
                    Action::ReadDescriptor { path: self.descriptor_path.clone() },
                ),
                _ => None,
            },
            EnsureCursor::Failed(_) => None,
            _ => self.ensure.pending(),
        }
    }

    /// Takes the work one event further.
    pub fn advance(self, event: Event) -> (next: Self)
        ensures
            next == self.advanced(event),
            self.well_formed() ==> next.well_formed(),
    {
        let OpenConfigType {
            variable_resolver,
            directories,
            config_type,
            descriptor_path,
            ensure,
            reading,
        } = self;
        match &ensure.cursor {
            EnsureCursor::Ensured => {
                let reading = match reading {
                    DescriptorReading::Waiting => match event {
                        Event::DescriptorRead(descriptor) => DescriptorReading::Read(descriptor),
                        Event::DescriptorNotRead(error) => DescriptorReading::Failed(error),
                        _ => DescriptorReading::Waiting,
                    },
                    reading => reading,
                };
                OpenConfigType {
                    variable_resolver,
                    directories,
                    config_type,
                    descriptor_path,
                    ensure,
                    reading,
                }
            },
            EnsureCursor::Failed(_) => OpenConfigType {
                variable_resolver,
                directories,
                config_type,
                descriptor_path,
                ensure,
                reading,
            },
            _ => OpenConfigType {
                variable_resolver,
                directories,
                config_type,
                descriptor_path,
                ensure: ensure.advance(event),
                reading,
            },
        }
    }

    /// How far the work has come.
    pub fn status(&self) -> (status: OpenStatus)
        ensures
            status == self.progress(),
    {
        match &self.ensure.cursor {
            EnsureCursor::Ensured => match &self.reading {
                DescriptorReading::Read(_) => OpenStatus::Opened,
                DescriptorReading::Failed(_) => OpenStatus::Incorrect,
                DescriptorReading::Waiting => OpenStatus::Pending,
            },
            EnsureCursor::Failed(error) => match error {
                EnsureDirectoryError::PathDoesNotExist(_) => OpenStatus::NotFound,
                _ => OpenStatus::Incorrect,
            },
            _ => OpenStatus::Pending,
        }
    }

    /// How the work ended, once it has, as the validation of the directory sees it.
    pub fn validate(self) -> (result: Option<
        Result<ConfigTypeStorage<'a>, ConfigTypeDirValidationError>,
    >)
        ensures
            result == self.validation(),
    {
        match self.ensure.cursor {
            EnsureCursor::Ensured => match self.reading {
                DescriptorReading::Read(descriptor) => Some(
                    Ok(
                        ConfigTypeStorage {
                            variable_resolver: self.variable_resolver,
                            config_type: self.config_type,
                            directories: self.directories,
                            descriptor,
                        },
                    ),
                ),
                DescriptorReading::Failed(error) => Some(
                    Err(ConfigTypeDirValidationError::CouldNotReadDescriptor(error)),
                ),
                DescriptorReading::Waiting => None,
            },
            EnsureCursor::Failed(error) => Some(
                Err(ConfigTypeDirValidationError::from_ensure(error)),
            ),
            _ => None,
        }
    }

    /// How the work ended, once it has.
    pub fn result(self) -> (result: Option<Result<ConfigTypeStorage<'a>, GetConfigTypeError>>)
        ensures
            result == self.outcome(),
    {
        let config_type = self.config_type.clone();
        match self.validate() {
            Some(Ok(storage)) => Some(Ok(storage)),
            Some(Err(error)) => Some(Err(GetConfigTypeError::from_validation(config_type, error))),
            None => None,
        }
    }

    /// Work that is well formed waits for a step exactly as long as it has not ended,
    /// and every step that it waits for leaves the filesystem as it is.
    pub proof fn lemma_pending_reads_until_ended(self)
        requires
            self.well_formed(),
        ensures
            self.pending_action() is None <==> self.outcome() is Some,
            self.pending_action() matches Some(action) ==> action.reads_only(),
    {
    }
}

} // verus!
