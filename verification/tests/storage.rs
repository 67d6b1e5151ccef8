use config_picker::config_storage::{ConfigStorage, ConfigStorageSetup, CreateConfigType};
use config_picker::config_type_descriptor::ConfigTypeDescriptor;
use config_picker::config_type_storage::{
    ConfigTypeStorage, OpenConfigType, OpenStatus, StoreOperation,
};
use config_picker::error::{
    ConfigStorageConstructionError, ConfigTypeDirValidationError, CreateConfigTypeError,
    CreateNewDirectoryError, DecodeStringError, EnsureDirectoryError, GetConfigTypeError,
    IterConfigTypeLabelsError, IterConfigTypesError, LoadLabeledConfigTypeError,
    ReadConfigTypeDescriptorError, StoreLabeledConfigTypeError, TransferError,
    WriteConfigTypeDescriptorError,
};
use config_picker::filesystem::{Action, Event, PathStatus};
use config_picker::labeled_storage::{
    CaptureOperation, Direction, LabeledConfigTypeStorage, LoadOperation, Transaction,
};
use config_picker::utils::DirectoryEntry;
use config_picker::variable_resolver::VariableResolver;
use std::collections::{BTreeMap, BTreeSet};
use std::io::{Error, ErrorKind};

/// A filesystem in memory: directories, files with their contents, and descriptor files.
struct Disk {
    directories: BTreeSet<String>,
    files: BTreeMap<String, String>,
    descriptors: BTreeMap<String, Vec<String>>,
    /// The steps that changed something, in the order in which they were made.
    writes: Vec<String>,
    /// Steps that are made to fail, by what they would write to the log.
    broken: BTreeSet<String>,
}

fn parent_of(path: &str) -> String {
    match path.rfind('/') {
        Some(0) => "/".to_string(),
        Some(i) => path[..i].to_string(),
        None => String::new(),
    }
}

fn moved(path: &str, source: &str, dest: &str) -> Option<String> {
    if path == source {
        Some(dest.to_string())
    } else if path.starts_with(&format!("{}/", source)) {
        Some(format!("{}{}", dest, &path[source.len()..]))
    } else {
        None
    }
}

impl Disk {
    fn new() -> Disk {
        let mut directories = BTreeSet::new();
        directories.insert("/".to_string());
        Disk {
            directories,
            files: BTreeMap::new(),
            descriptors: BTreeMap::new(),
            writes: Vec::new(),
            broken: BTreeSet::new(),
        }
    }

    fn with_directory(mut self, path: &str) -> Disk {
        let mut current = path.to_string();
        while !current.is_empty() && self.directories.insert(current.clone()) {
            current = parent_of(&current);
        }
        self
    }

    fn with_file(mut self, path: &str, content: &str) -> Disk {
        self = self.with_directory(&parent_of(path));
        self.files.insert(path.to_string(), content.to_string());
        self
    }

    fn with_descriptor(mut self, path: &str, templates: &[&str]) -> Disk {
        self = self.with_directory(&parent_of(path));
        let templates = templates.iter().map(|t| t.to_string()).collect();
        self.descriptors.insert(path.to_string(), templates);
        self
    }

    fn breaking(mut self, step: &str) -> Disk {
        self.broken.insert(step.to_string());
        self
    }

    fn status(&self, path: &str) -> PathStatus {
        if self.directories.contains(path) {
            PathStatus::Directory
        } else if self.files.contains_key(path) || self.descriptors.contains_key(path) {
            PathStatus::NotADirectory
        } else {
            PathStatus::Missing
        }
    }

    fn attempt(&mut self, step: String) -> Result<(), Event> {
        if self.broken.contains(&step) {
            return Err(Event::Failed(Error::new(ErrorKind::PermissionDenied, step)));
        }
        self.writes.push(step);
        Ok(())
    }

    fn rename_all(&mut self, source: &str, dest: &str) {
        let directories = std::mem::take(&mut self.directories);
        self.directories =
            directories.into_iter().map(|p| moved(&p, source, dest).unwrap_or(p)).collect();
        let files = std::mem::take(&mut self.files);
        self.files =
            files.into_iter().map(|(p, c)| (moved(&p, source, dest).unwrap_or(p), c)).collect();
        let descriptors = std::mem::take(&mut self.descriptors);
        self.descriptors = descriptors
            .into_iter()
            .map(|(p, c)| (moved(&p, source, dest).unwrap_or(p), c))
            .collect();
    }

    fn perform(&mut self, action: Action) -> Event {
        match action {
            Action::Probe { path } => Event::Status(self.status(&path)),
            Action::CreateDirectory { path } => {
                if self.status(&path) != PathStatus::Missing {
                    return Event::Failed(Error::new(ErrorKind::AlreadyExists, path));
                }
                if self.status(&parent_of(&path)) != PathStatus::Directory {
                    return Event::Failed(Error::new(ErrorKind::NotFound, path));
                }
                match self.attempt(format!("create {}", path)) {
                    Ok(()) => {
                        self.directories.insert(path);
                        Event::Completed
                    },
                    Err(event) => event,
                }
            },
            Action::RemoveDirectoryTree { path } => {
                if self.status(&path) != PathStatus::Directory {
                    return Event::Failed(Error::new(ErrorKind::NotADirectory, path));
                }
                match self.attempt(format!("remove {}", path)) {
                    Ok(()) => {
                        self.directories.retain(|p| moved(p, &path, "").is_none());
                        self.files.retain(|p, _| moved(p, &path, "").is_none());
                        self.descriptors.retain(|p, _| moved(p, &path, "").is_none());
                        Event::Completed
                    },
                    Err(event) => event,
                }
            },
            Action::Rename { source, dest } => {
                if self.status(&source) == PathStatus::Missing
                    || self.status(&dest) != PathStatus::Missing
                {
                    return Event::Failed(Error::new(ErrorKind::NotFound, source));
                }
                match self.attempt(format!("rename {} {}", source, dest)) {
                    Ok(()) => {
                        self.rename_all(&source, &dest);
                        Event::Completed
                    },
                    Err(event) => event,
                }
            },
            Action::CopyFile { source, dest } => {
                let content = match self.files.get(&source) {
                    Some(content) => content.clone(),
                    None => return Event::Failed(Error::new(ErrorKind::NotFound, source)),
                };
                if self.status(&parent_of(&dest)) != PathStatus::Directory {
                    return Event::Failed(Error::new(ErrorKind::NotFound, dest));
                }
                match self.attempt(format!("copy {} {}", source, dest)) {
                    Ok(()) => {
                        self.files.insert(dest, content);
                        Event::Completed
                    },
                    Err(event) => event,
                }
            },
            Action::ReadDescriptor { path } => match self.descriptors.get(&path) {
                Some(templates) => {
                    Event::DescriptorRead(ConfigTypeDescriptor::from_paths(templates.clone()))
                },
                None => Event::DescriptorNotRead(ReadConfigTypeDescriptorError::CouldNotOpenFile(
                    Error::new(ErrorKind::NotFound, path),
                )),
            },
            Action::WriteDescriptor { path, descriptor } => {
                if self.status(&parent_of(&path)) != PathStatus::Directory {
                    return Event::DescriptorNotWritten(
                        WriteConfigTypeDescriptorError::CouldNotOpenFile(Error::new(
                            ErrorKind::NotFound,
                            path,
                        )),
                    );
                }
                match self.attempt(format!("write {}", path)) {
                    Ok(()) => {
                        self.descriptors.insert(path, descriptor.paths().clone());
                        Event::Completed
                    },
                    Err(_) => Event::DescriptorNotWritten(
                        WriteConfigTypeDescriptorError::CouldNotWriteDataToFile(Error::new(
                            ErrorKind::PermissionDenied,
                            path,
                        )),
                    ),
                }
            },
        }
    }

    fn set_up(
        &mut self,
        mut work: ConfigStorageSetup,
    ) -> Result<ConfigStorage, ConfigStorageConstructionError> {
        while let Some(action) = work.pending() {
            work = work.advance(self.perform(action));
        }
        work.result().unwrap()
    }

    fn open<'a>(
        &mut self,
        mut work: OpenConfigType<'a>,
    ) -> Result<ConfigTypeStorage<'a>, GetConfigTypeError> {
        while let Some(action) = work.pending() {
            work = work.advance(self.perform(action));
        }
        work.result().unwrap()
    }

    fn create<'a>(
        &mut self,
        mut work: CreateConfigType<'a>,
    ) -> Result<ConfigTypeStorage<'a>, CreateConfigTypeError> {
        while let Some(action) = work.pending() {
            work = work.advance(self.perform(action));
        }
        work.result().unwrap()
    }

    fn store(&mut self, mut work: StoreOperation) -> Result<(), StoreLabeledConfigTypeError> {
        while let Some(action) = work.pending() {
            work = work.advance(self.perform(action));
        }
        work.result().unwrap()
    }

    fn transfer(&mut self, mut work: Transaction) -> Result<(), TransferError> {
        while let Some(action) = work.pending() {
            work = work.advance(self.perform(action));
        }
        work.result().unwrap()
    }

    fn capture(&mut self, mut work: CaptureOperation) -> Result<(), StoreLabeledConfigTypeError> {
        while let Some(action) = work.pending() {
            work = work.advance(self.perform(action));
        }
        work.result().unwrap()
    }

    fn load(&mut self, mut work: LoadOperation) -> Result<(), LoadLabeledConfigTypeError> {
        while let Some(action) = work.pending() {
            work = work.advance(self.perform(action));
        }
        work.result().unwrap()
    }
}

fn resolver() -> VariableResolver {
    VariableResolver::new("/home/user".to_string())
}

fn storage(disk: &mut Disk) -> ConfigStorage {
    disk.set_up(ConfigStorage::new(resolver(), "/store".to_string())).unwrap()
}

/// A disk with the config type `vim` of two files, and the live files.
fn vim_disk() -> Disk {
    Disk::new()
        .with_descriptor("/store/db/vim/descriptor.json", &[
            "{{HOME}}/.vimrc",
            "{{HOME}}/.vim/colors/mine.vim",
        ])
        .with_file("/home/user/.vimrc", "set nocompatible")
        .with_file("/home/user/.vim/colors/mine.vim", "hi Normal")
}

#[test]
fn setup_creates_the_three_directories() {
    let mut disk = Disk::new();
    let storage = storage(&mut disk);
    assert_eq!(storage.directories.root_dir_path(), "/store");
    assert_eq!(disk.writes, vec!["create /store", "create /store/db", "create /store/temp"]);
}

#[test]
fn setup_of_an_existing_storage_changes_nothing() {
    let mut disk = Disk::new().with_directory("/store/db").with_directory("/store/temp");
    storage(&mut disk);
    assert!(disk.writes.is_empty());
}

#[test]
fn setup_creates_the_ancestors_of_the_root() {
    let mut disk = Disk::new();
    disk.set_up(ConfigStorage::new(resolver(), "/a/b/store".to_string())).unwrap();
    assert_eq!(disk.writes, vec![
        "create /a",
        "create /a/b",
        "create /a/b/store",
        "create /a/b/store/db",
        "create /a/b/store/temp",
    ]);
}

#[test]
fn setup_reports_the_root_when_the_root_is_a_file() {
    let mut disk = Disk::new().with_file("/store", "x");
    match disk.set_up(ConfigStorage::new(resolver(), "/store".to_string())) {
        Err(ConfigStorageConstructionError::InvalidStoragePath(path)) => {
            assert_eq!(path, "/store")
        },
        other => panic!("{:?}", other),
    }
    assert!(disk.writes.is_empty());
}

#[test]
fn setup_reports_the_db_directory_when_it_is_a_file() {
    let mut disk = Disk::new().with_file("/store/db", "x");
    match disk.set_up(ConfigStorage::new(resolver(), "/store".to_string())) {
        Err(ConfigStorageConstructionError::InvalidStoragePath(path)) => {
            assert_eq!(path, "/store/db")
        },
        other => panic!("{:?}", other),
    }
    assert!(disk.writes.is_empty());
    assert_eq!(disk.files["/store/db"], "x");
}

#[test]
fn setup_reports_the_db_directory_when_it_cannot_be_created() {
    let mut disk = Disk::new().breaking("create /store/db");
    match disk.set_up(ConfigStorage::new(resolver(), "/store".to_string())) {
        Err(ConfigStorageConstructionError::InvalidStoragePath(path)) => {
            assert_eq!(path, "/store/db")
        },
        other => panic!("{:?}", other),
    }
    assert_eq!(disk.writes, vec!["create /store"]);
}

#[test]
fn setup_reports_the_root_when_an_ancestor_of_it_is_a_file() {
    let mut disk = Disk::new().with_file("/a", "x");
    match disk.set_up(ConfigStorage::new(resolver(), "/a/store".to_string())) {
        Err(ConfigStorageConstructionError::InvalidStoragePath(path)) => {
            assert_eq!(path, "/a/store")
        },
        other => panic!("{:?}", other),
    }
    assert!(disk.writes.is_empty());
}

#[test]
fn setup_reports_the_temp_directory_when_it_cannot_be_created() {
    let mut disk = Disk::new().breaking("create /store/temp");
    match disk.set_up(ConfigStorage::new(resolver(), "/store".to_string())) {
        Err(ConfigStorageConstructionError::InvalidStoragePath(path)) => {
            assert_eq!(path, "/store/temp")
        },
        other => panic!("{:?}", other),
    }
    assert_eq!(disk.writes, vec!["create /store", "create /store/db"]);
}

#[test]
fn missing_config_type_is_not_found() {
    let mut disk = Disk::new();
    let storage = storage(&mut disk);
    match disk.open(storage.get_config_type_storage("vim")) {
        Err(GetConfigTypeError::ConfigTypeNotFound {
            config_type,
            validation_error: ConfigTypeDirValidationError::DirectoryNotFound { path },
        }) => {
            assert_eq!(config_type, "vim");
            assert_eq!(path, "/store/db/vim");
        },
        other => panic!("{:?}", other),
    }
}

#[test]
fn config_type_that_is_a_file_is_incorrect() {
    let mut disk = Disk::new().with_file("/store/db/vim", "x").with_directory("/store/temp");
    let storage = storage(&mut disk);
    match disk.open(storage.get_config_type_storage("vim")) {
        Err(GetConfigTypeError::IncorrectConfigTypeDir {
            config_type,
            validation_error: ConfigTypeDirValidationError::GivenPathIsNotADirectory { path },
        }) => {
            assert_eq!(config_type, "vim");
            assert_eq!(path, "/store/db/vim");
        },
        other => panic!("{:?}", other),
    }
}

#[test]
fn config_type_without_descriptor_is_incorrect() {
    let mut disk = Disk::new().with_directory("/store/db/vim");
    let storage = storage(&mut disk);
    match disk.open(storage.get_config_type_storage("vim")) {
        Err(GetConfigTypeError::IncorrectConfigTypeDir {
            config_type,
            validation_error:
                ConfigTypeDirValidationError::CouldNotReadDescriptor(
                    ReadConfigTypeDescriptorError::CouldNotOpenFile(error),
                ),
        }) => {
            assert_eq!(config_type, "vim");
            assert_eq!(error.kind(), ErrorKind::NotFound);
        },
        other => panic!("{:?}", other),
    }
}

#[test]
fn opening_reads_the_descriptor_once() {
    let mut disk = vim_disk();
    let storage = storage(&mut disk);
    let vim = disk.open(storage.get_config_type_storage("vim")).unwrap();
    assert_eq!(vim.config_type, "vim");
    assert_eq!(vim.descriptor.len(), 2);
    assert_eq!(vim.descriptor.get(0), Some("{{HOME}}/.vimrc"));
    assert_eq!(vim.descriptor_path(), "/store/db/vim");
    disk.descriptors.insert("/store/db/vim/descriptor.json".to_string(), Vec::new());
    assert_eq!(vim.descriptor.len(), 2);
}

#[test]
fn opening_only_reads() {
    let mut disk = vim_disk();
    let storage = storage(&mut disk);
    let before = disk.writes.len();
    let mut work = storage.get_config_type_storage("vim");
    assert_eq!(work.status(), OpenStatus::Pending);
    while let Some(action) = work.pending() {
        assert!(matches!(action, Action::Probe { .. } | Action::ReadDescriptor { .. }));
        work = work.advance(disk.perform(action));
    }
    assert_eq!(work.status(), OpenStatus::Opened);
    assert_eq!(disk.writes.len(), before);
}

#[test]
fn create_config_type_makes_directory_and_empty_descriptor() {
    let mut disk = Disk::new();
    let storage = storage(&mut disk);
    disk.writes.clear();
    let vim = disk.create(storage.create_config_type("vim")).unwrap();
    assert_eq!(vim.config_type, "vim");
    assert_eq!(vim.descriptor.len(), 0);
    assert_eq!(disk.writes, vec!["create /store/db/vim", "write /store/db/vim/descriptor.json"]);
    assert_eq!(disk.descriptors["/store/db/vim/descriptor.json"], Vec::<String>::new());
}

#[test]
fn create_config_type_refuses_an_existing_type_and_leaves_it_alone() {
    let mut disk = vim_disk();
    let storage = storage(&mut disk);
    disk.writes.clear();
    match disk.create(storage.create_config_type("vim")) {
        Err(CreateConfigTypeError::ConfigTypeAlreadyExists { config_type }) => {
            assert_eq!(config_type, "vim")
        },
        other => panic!("{:?}", other),
    }
    assert!(disk.writes.is_empty());
    assert_eq!(disk.descriptors["/store/db/vim/descriptor.json"].len(), 2);
}

#[test]
fn create_config_type_refuses_an_incorrect_type() {
    let mut disk = Disk::new().with_directory("/store/db/vim").with_directory("/store/temp");
    let storage = storage(&mut disk);
    match disk.create(storage.create_config_type("vim")) {
        Err(CreateConfigTypeError::IncorrectConfigTypeFound {
            config_type,
            validation_error: ConfigTypeDirValidationError::CouldNotReadDescriptor(_),
        }) => assert_eq!(config_type, "vim"),
        other => panic!("{:?}", other),
    }
    assert!(disk.writes.is_empty());
}

#[test]
fn create_config_type_reports_the_directory_that_could_not_be_created() {
    let mut disk = Disk::new().breaking("create /store/db/vim");
    let storage = storage(&mut disk);
    match disk.create(storage.create_config_type("vim")) {
        Err(CreateConfigTypeError::CouldNotCreateDirectory {
            path,
            new_directory_error: CreateNewDirectoryError::CouldNotCreateDirectory { .. },
        }) => assert_eq!(path, "/store/db/vim"),
        other => panic!("{:?}", other),
    }
}

#[test]
fn create_config_type_reports_the_descriptor_that_could_not_be_written() {
    let mut disk = Disk::new().breaking("write /store/db/vim/descriptor.json");
    let storage = storage(&mut disk);
    match disk.create(storage.create_config_type("vim")) {
        Err(CreateConfigTypeError::CouldNotWriteDescriptorToFile(
            WriteConfigTypeDescriptorError::CouldNotWriteDataToFile(_),
        )) => {},
        other => panic!("{:?}", other),
    }
    assert_eq!(disk.status("/store/db/vim"), PathStatus::Directory);
}

#[test]
fn store_then_load_restores_the_live_files() {
    let mut disk = vim_disk();
    let storage = storage(&mut disk);
    let vim = disk.open(storage.get_config_type_storage("vim")).unwrap();
    disk.store(vim.store("work")).unwrap();
    assert_eq!(disk.files["/store/db/vim/work/{{HOME}}/.vimrc"], "set nocompatible");
    assert_eq!(disk.files["/store/db/vim/work/{{HOME}}/.vim/colors/mine.vim"], "hi Normal");

    disk.files.insert("/home/user/.vimrc".to_string(), "changed".to_string());
    disk.files.remove("/home/user/.vim/colors/mine.vim");
    disk.load(vim.load("work")).unwrap();
    assert_eq!(disk.files["/home/user/.vimrc"], "set nocompatible");
    assert_eq!(disk.files["/home/user/.vim/colors/mine.vim"], "hi Normal");
}

#[test]
fn store_goes_through_a_staging_directory() {
    let mut disk = vim_disk();
    let storage = storage(&mut disk);
    let vim = disk.open(storage.get_config_type_storage("vim")).unwrap();
    disk.writes.clear();
    disk.store(vim.store_in("work", "/store/temp/s1".to_string())).unwrap();
    assert_eq!(disk.writes, vec![
        "create /store/temp/s1",
        "create /store/temp/s1/{{HOME}}",
        "copy /home/user/.vimrc /store/temp/s1/{{HOME}}/.vimrc",
        "create /store/temp/s1/{{HOME}}/.vim",
        "create /store/temp/s1/{{HOME}}/.vim/colors",
        "copy /home/user/.vim/colors/mine.vim /store/temp/s1/{{HOME}}/.vim/colors/mine.vim",
        "rename /store/temp/s1 /store/db/vim/work",
    ]);
    assert_eq!(disk.status("/store/temp/s1"), PathStatus::Missing);
}

#[test]
fn store_uses_a_fresh_staging_directory_each_time() {
    let mut disk = vim_disk();
    let storage = storage(&mut disk);
    let vim = disk.open(storage.get_config_type_storage("vim")).unwrap();
    let staging = |work: &StoreOperation| match work {
        StoreOperation::CreatingStaging { create, .. } => create.path.clone(),
        other => panic!("{:?}", other),
    };
    let first = staging(&vim.store("work"));
    let second = staging(&vim.store("work"));
    assert_ne!(first, second);
    assert!(first.starts_with("/store/temp/"));
    assert_eq!(first.len(), "/store/temp/".len() + 36);
}

#[test]
fn repeated_store_replaces_the_snapshot() {
    let mut disk = vim_disk();
    let storage = storage(&mut disk);
    let vim = disk.open(storage.get_config_type_storage("vim")).unwrap();
    disk.store(vim.store("work")).unwrap();

    disk.descriptors
        .insert("/store/db/vim/descriptor.json".to_string(), vec!["{{HOME}}/.gvimrc".to_string()]);
    disk.files.insert("/home/user/.gvimrc".to_string(), "set guifont".to_string());
    let vim = disk.open(storage.get_config_type_storage("vim")).unwrap();
    disk.writes.clear();
    disk.store(vim.store_in("work", "/store/temp/s2".to_string())).unwrap();
    assert_eq!(disk.writes, vec![
        "create /store/temp/s2",
        "create /store/temp/s2/{{HOME}}",
        "copy /home/user/.gvimrc /store/temp/s2/{{HOME}}/.gvimrc",
        "remove /store/db/vim/work",
        "rename /store/temp/s2 /store/db/vim/work",
    ]);
    let kept: Vec<&String> =
        disk.files.keys().filter(|p| p.starts_with("/store/db/vim/work/")).collect();
    assert_eq!(kept, vec!["/store/db/vim/work/{{HOME}}/.gvimrc"]);
}

#[test]
fn store_fails_when_the_staging_directory_exists() {
    let mut disk = vim_disk().with_directory("/store/temp/s1");
    let storage = storage(&mut disk);
    let vim = disk.open(storage.get_config_type_storage("vim")).unwrap();
    match disk.store(vim.store_in("work", "/store/temp/s1".to_string())) {
        Err(StoreLabeledConfigTypeError::CouldNotCreateTempDirectory {
            io_error: CreateNewDirectoryError::PathAlreadyExists(found),
            path,
        }) => {
            assert_eq!(found, "/store/temp/s1");
            assert_eq!(path, "/store/temp/s1");
        },
        other => panic!("{:?}", other),
    }
    assert!(disk.writes.is_empty());
}

#[test]
fn store_that_cannot_copy_leaves_the_label_as_it_was() {
    let mut disk = vim_disk();
    let storage = storage(&mut disk);
    let vim = disk.open(storage.get_config_type_storage("vim")).unwrap();
    disk.store(vim.store("work")).unwrap();
    disk.files.insert("/home/user/.vimrc".to_string(), "newer".to_string());
    disk.files.remove("/home/user/.vim/colors/mine.vim");
    match disk.store(vim.store_in("work", "/store/temp/s3".to_string())) {
        Err(StoreLabeledConfigTypeError::CouldNotCopyFile { io_error, source_path, dest_path }) => {
            assert_eq!(io_error.kind(), ErrorKind::NotFound);
            assert_eq!(source_path, "/home/user/.vim/colors/mine.vim");
            assert_eq!(dest_path, "/store/temp/s3/{{HOME}}/.vim/colors/mine.vim");
        },
        other => panic!("{:?}", other),
    }
    assert_eq!(disk.files["/store/db/vim/work/{{HOME}}/.vimrc"], "set nocompatible");
    assert_eq!(disk.files["/store/db/vim/work/{{HOME}}/.vim/colors/mine.vim"], "hi Normal");
}

#[test]
fn store_reports_the_old_directory_that_could_not_be_removed() {
    let mut disk = vim_disk().with_directory("/store/db/vim/work").breaking(
        "remove /store/db/vim/work",
    );
    let storage = storage(&mut disk);
    let vim = disk.open(storage.get_config_type_storage("vim")).unwrap();
    match disk.store(vim.store("work")) {
        Err(StoreLabeledConfigTypeError::CouldNotRemoveOldDirectory { io_error, path }) => {
            assert_eq!(io_error.kind(), ErrorKind::PermissionDenied);
            assert_eq!(path, "/store/db/vim/work");
        },
        other => panic!("{:?}", other),
    }
}

#[test]
fn store_between_removal_and_renaming_holds_neither_snapshot() {
    let mut disk = vim_disk().breaking("rename /store/temp/s4 /store/db/vim/work");
    let storage = storage(&mut disk);
    let vim = disk.open(storage.get_config_type_storage("vim")).unwrap();
    disk.store(vim.store("work")).unwrap();
    match disk.store(vim.store_in("work", "/store/temp/s4".to_string())) {
        Err(StoreLabeledConfigTypeError::CouldNotRenameTempDirectory {
            io_error,
            source_path,
            dest_path,
        }) => {
            assert_eq!(io_error.kind(), ErrorKind::PermissionDenied);
            assert_eq!(source_path, "/store/temp/s4");
            assert_eq!(dest_path, "/store/db/vim/work");
        },
        other => panic!("{:?}", other),
    }
    assert_eq!(disk.status("/store/db/vim/work"), PathStatus::Missing);
    assert_eq!(disk.status("/store/temp/s4"), PathStatus::Directory);
}

#[test]
fn store_removes_a_file_that_sits_at_the_label() {
    let mut disk = vim_disk().with_file("/store/db/vim/work", "x");
    let storage = storage(&mut disk);
    let vim = disk.open(storage.get_config_type_storage("vim")).unwrap();
    match disk.store(vim.store("work")) {
        Err(StoreLabeledConfigTypeError::CouldNotRemoveOldDirectory { path, .. }) => {
            assert_eq!(path, "/store/db/vim/work")
        },
        other => panic!("{:?}", other),
    }
}

#[test]
fn store_with_an_undecodable_template_fails_after_the_files_before_it() {
    let mut disk = Disk::new()
        .with_descriptor("/store/db/t/descriptor.json", &["{{HOME}}/a", "{{NOPE}}/b", "{{HOME}}/c"])
        .with_file("/home/user/a", "A")
        .with_file("/home/user/c", "C");
    let storage = storage(&mut disk);
    let t = disk.open(storage.get_config_type_storage("t")).unwrap();
    disk.writes.clear();
    match disk.store(t.store_in("l", "/store/temp/s".to_string())) {
        Err(StoreLabeledConfigTypeError::CouldNotDecodeFileLocationInConfigTypeDescriptor(
            DecodeStringError::CouldNotResolveVariable { variable_name },
        )) => assert_eq!(variable_name, "NOPE"),
        other => panic!("{:?}", other),
    }
    assert_eq!(disk.writes, vec![
        "create /store/temp/s",
        "create /store/temp/s/{{HOME}}",
        "copy /home/user/a /store/temp/s/{{HOME}}/a",
    ]);
    assert_eq!(disk.status("/store/db/t/l"), PathStatus::Missing);
}

#[test]
fn empty_descriptor_stores_an_empty_snapshot_and_loads_nothing() {
    let mut disk = Disk::new().with_descriptor("/store/db/t/descriptor.json", &[]);
    let storage = storage(&mut disk);
    let t = disk.open(storage.get_config_type_storage("t")).unwrap();
    disk.writes.clear();
    disk.store(t.store_in("l", "/store/temp/s".to_string())).unwrap();
    assert_eq!(disk.writes, vec!["create /store/temp/s", "rename /store/temp/s /store/db/t/l"]);
    disk.writes.clear();
    disk.load(t.load("l")).unwrap();
    disk.load(t.load("no such label")).unwrap();
    assert!(disk.writes.is_empty());
}

#[test]
fn load_of_a_missing_label_fails_and_writes_nothing() {
    let mut disk = vim_disk();
    let storage = storage(&mut disk);
    let vim = disk.open(storage.get_config_type_storage("vim")).unwrap();
    disk.writes.clear();
    match disk.load(vim.load("missing")) {
        Err(LoadLabeledConfigTypeError::CouldNotCopyFile { io_error, source_path, dest_path }) => {
            assert_eq!(io_error.kind(), ErrorKind::NotFound);
            assert_eq!(source_path, "/store/db/vim/missing/{{HOME}}/.vimrc");
            assert_eq!(dest_path, "/home/user/.vimrc");
        },
        other => panic!("{:?}", other),
    }
    assert!(disk.writes.is_empty());
    assert_eq!(disk.files["/home/user/.vimrc"], "set nocompatible");
}

#[test]
fn load_that_fails_half_way_leaves_the_first_files_restored() {
    let mut disk = vim_disk();
    let storage = storage(&mut disk);
    let vim = disk.open(storage.get_config_type_storage("vim")).unwrap();
    disk.store(vim.store("work")).unwrap();
    disk.files.insert("/home/user/.vimrc".to_string(), "changed".to_string());
    disk.files.insert("/home/user/.vim/colors/mine.vim".to_string(), "changed".to_string());
    disk.files.remove("/store/db/vim/work/{{HOME}}/.vim/colors/mine.vim");
    assert!(matches!(
        disk.load(vim.load("work")),
        Err(LoadLabeledConfigTypeError::CouldNotCopyFile { .. })
    ));
    assert_eq!(disk.files["/home/user/.vimrc"], "set nocompatible");
    assert_eq!(disk.files["/home/user/.vim/colors/mine.vim"], "changed");
}

#[test]
fn load_creates_the_parent_directories_of_the_live_files() {
    let mut disk = vim_disk();
    let storage = storage(&mut disk);
    let vim = disk.open(storage.get_config_type_storage("vim")).unwrap();
    disk.store(vim.store("work")).unwrap();
    disk.directories.retain(|p| !p.starts_with("/home"));
    disk.files.retain(|p, _| !p.starts_with("/home"));
    disk.writes.clear();
    disk.load(vim.load("work")).unwrap();
    assert_eq!(disk.files["/home/user/.vim/colors/mine.vim"], "hi Normal");
    assert_eq!(disk.writes[..3], [
        "create /home",
        "create /home/user",
        "copy /store/db/vim/work/{{HOME}}/.vimrc /home/user/.vimrc",
    ]);
}

#[test]
fn load_of_a_template_without_parent_is_invalid() {
    let descriptor = ConfigTypeDescriptor::from_paths(vec!["".to_string()]);
    let resolver = resolver();
    let labeled = LabeledConfigTypeStorage::new(&resolver, &descriptor, "/snap".to_string());
    let mut disk = Disk::new();
    match disk.load(labeled.load()) {
        Err(LoadLabeledConfigTypeError::InvalidParentOfFileLocationInConfigTypeDescriptor(
            path,
        )) => assert_eq!(path, ""),
        other => panic!("{:?}", other),
    }
}

#[test]
fn plan_names_source_dest_and_parents() {
    let descriptor = ConfigTypeDescriptor::from_paths(vec![
        "{{HOME}}/.vimrc".to_string(),
        "plain".to_string(),
    ]);
    let resolver = resolver();
    let labeled = LabeledConfigTypeStorage::new(&resolver, &descriptor, "/snap".to_string());
    let capture = labeled.plan(Direction::Capture);
    assert!(capture.failure.is_none());
    assert_eq!(capture.transfers.len(), 2);
    assert_eq!(capture.transfers[0].source, "/home/user/.vimrc");
    assert_eq!(capture.transfers[0].dest, "/snap/{{HOME}}/.vimrc");
    assert_eq!(capture.transfers[0].parent_ancestors, vec!["/", "/snap", "/snap/{{HOME}}"]);
    assert_eq!(capture.transfers[1].source, "plain");
    assert_eq!(capture.transfers[1].dest, "/snap/plain");

    let restore = labeled.plan(Direction::Restore);
    assert_eq!(restore.transfers[0].source, "/snap/{{HOME}}/.vimrc");
    assert_eq!(restore.transfers[0].dest, "/home/user/.vimrc");
    assert_eq!(restore.transfers[0].parent_ancestors, vec!["/", "/home", "/home/user"]);
    assert_eq!(restore.transfers[1].dest, "plain");
    assert_eq!(restore.transfers[1].parent_ancestors, Vec::<String>::new());
}

#[test]
fn plan_stops_at_the_first_template_that_cannot_be_planned() {
    let descriptor = ConfigTypeDescriptor::from_paths(vec![
        "a".to_string(),
        "{{open".to_string(),
        "{{NOPE}}".to_string(),
    ]);
    let resolver = resolver();
    let labeled = LabeledConfigTypeStorage::new(&resolver, &descriptor, "/snap".to_string());
    let plan = labeled.plan(Direction::Capture);
    assert_eq!(plan.transfers.len(), 1);
    assert!(matches!(
        plan.failure,
        Some(TransferError::CouldNotDecodeFileLocationInConfigTypeDescriptor(
            DecodeStringError::CollectBlocksFromStringError(_)
        ))
    ));
    assert!(labeled.plan_transfer("{{NOPE}}", Direction::Restore).is_err());
    assert_eq!(labeled.plan_transfer("x/y", Direction::Restore).unwrap().dest, "x/y");
}

#[test]
fn transaction_ignores_events_that_answer_nothing() {
    let descriptor = ConfigTypeDescriptor::from_paths(vec!["f".to_string()]);
    let resolver = resolver();
    let labeled = LabeledConfigTypeStorage::new(&resolver, &descriptor, "/snap".to_string());
    let mut work = labeled.load();
    assert!(matches!(work.pending(), Some(Action::CopyFile { .. })));
    work = work.advance(Event::Status(PathStatus::Directory));
    work = work.advance(Event::DescriptorRead(ConfigTypeDescriptor::new()));
    assert!(matches!(work.pending(), Some(Action::CopyFile { .. })));
    assert!(work.result().is_none());
    let work = labeled.load().advance(Event::Completed);
    assert!(work.pending().is_none());
    assert!(matches!(work.result(), Some(Ok(()))));
}

#[test]
fn store_operation_ignores_events_that_answer_nothing() {
    let mut disk = vim_disk();
    let storage = storage(&mut disk);
    let vim = disk.open(storage.get_config_type_storage("vim")).unwrap();
    let mut work = vim.store_in("work", "/store/temp/s".to_string());
    work = work.advance(Event::Completed);
    assert!(matches!(work.pending(), Some(Action::Probe { .. })));
    work = work.advance(Event::Status(PathStatus::Missing));
    work = work.advance(Event::Status(PathStatus::Missing));
    assert!(matches!(work.pending(), Some(Action::CreateDirectory { .. })));
    assert!(work.result().is_none());
}

#[test]
fn lists_config_types_and_labels() {
    let mut disk = vim_disk();
    let storage = storage(&mut disk);
    let entries = vec![
        Ok(DirectoryEntry { name: "vim".to_string(), is_directory: true }),
        Ok(DirectoryEntry { name: "notes.txt".to_string(), is_directory: false }),
        Ok(DirectoryEntry { name: "emacs".to_string(), is_directory: true }),
    ];
    let mut types = storage.iter_config_types(Ok(entries)).unwrap();
    assert_eq!(types.sub_directory_iterator.names, vec!["vim", "emacs"]);
    assert_eq!(types.next().unwrap().unwrap(), "vim");
    assert_eq!(types.next().unwrap().unwrap(), "emacs");
    assert!(types.next().is_none());
    let mut empty = storage.iter_config_types(Ok(Vec::new())).unwrap();
    assert!(empty.next().is_none());
    match storage.iter_config_types(Err(Error::new(ErrorKind::NotFound, "db"))) {
        Err(IterConfigTypesError::IoError(error)) => assert_eq!(error.kind(), ErrorKind::NotFound),
        other => panic!("{:?}", other),
    }

    let vim = disk.open(storage.get_config_type_storage("vim")).unwrap();
    let entries = vec![
        Ok(DirectoryEntry { name: "descriptor.json".to_string(), is_directory: false }),
        Ok(DirectoryEntry { name: "work".to_string(), is_directory: true }),
    ];
    let mut labels = vim.iter_labels(Ok(entries)).unwrap();
    assert_eq!(labels.next().unwrap().unwrap(), "work");
    assert!(labels.next().is_none());
    assert!(labels.next().is_none());
    match vim.iter_labels(Err(Error::new(ErrorKind::PermissionDenied, "vim"))) {
        Err(IterConfigTypeLabelsError::IoError(error)) => {
            assert_eq!(error.kind(), ErrorKind::PermissionDenied)
        },
        other => panic!("{:?}", other),
    }
}

#[test]
fn ensure_errors_convert_into_validation_errors() {
    let not_found = ConfigTypeDirValidationError::from(EnsureDirectoryError::PathDoesNotExist(
        "/p".to_string(),
    ));
    assert!(matches!(
        not_found,
        ConfigTypeDirValidationError::DirectoryNotFound { path } if path == "/p"
    ));
    let no_directory = ConfigTypeDirValidationError::from(
        EnsureDirectoryError::PathIsNotADirectory("/p".to_string()),
    );
    assert!(matches!(
        no_directory,
        ConfigTypeDirValidationError::GivenPathIsNotADirectory { path } if path == "/p"
    ));
    let not_created =
        ConfigTypeDirValidationError::from_ensure(EnsureDirectoryError::CouldNotCreateDirectory {
            path: "/p".to_string(),
            error: Error::new(ErrorKind::Other, "x"),
        });
    assert!(matches!(
        not_created,
        ConfigTypeDirValidationError::GivenPathIsNotADirectory { path } if path == "/p"
    ));
}

#[test]
fn validation_errors_convert_into_get_errors() {
    let not_found = GetConfigTypeError::from((
        "vim".to_string(),
        ConfigTypeDirValidationError::DirectoryNotFound { path: "/p".to_string() },
    ));
    assert!(matches!(
        not_found,
        GetConfigTypeError::ConfigTypeNotFound { config_type, .. } if config_type == "vim"
    ));
    let incorrect = GetConfigTypeError::from_validation(
        "vim".to_string(),
        ConfigTypeDirValidationError::GivenPathIsNotADirectory { path: "/p".to_string() },
    );
    assert!(matches!(
        incorrect,
        GetConfigTypeError::IncorrectConfigTypeDir { config_type, .. } if config_type == "vim"
    ));
    let unreadable = GetConfigTypeError::from_validation(
        "vim".to_string(),
        ConfigTypeDirValidationError::CouldNotReadDescriptor(
            ReadConfigTypeDescriptorError::CouldNotOpenFile(Error::new(ErrorKind::Other, "x")),
        ),
    );
    assert!(matches!(unreadable, GetConfigTypeError::IncorrectConfigTypeDir { .. }));
}

#[test]
fn transfer_errors_convert_by_name() {
    let copy = || TransferError::CouldNotCopyFile {
        io_error: Error::new(ErrorKind::NotFound, "x"),
        source_path: "s".to_string(),
        dest_path: "d".to_string(),
    };
    assert!(matches!(
        StoreLabeledConfigTypeError::from(copy()),
        StoreLabeledConfigTypeError::CouldNotCopyFile { source_path, dest_path, .. }
            if source_path == "s" && dest_path == "d"
    ));
    assert!(matches!(
        LoadLabeledConfigTypeError::from_transfer(copy()),
        LoadLabeledConfigTypeError::CouldNotCopyFile { source_path, dest_path, .. }
            if source_path == "s" && dest_path == "d"
    ));
    assert!(matches!(
        StoreLabeledConfigTypeError::from_transfer(
            TransferError::InvalidParentOfFileLocationInConfigTypeDescriptor("p".to_string())
        ),
        StoreLabeledConfigTypeError::InvalidParentOfFileLocationInConfigTypeDescriptor(path)
            if path == "p"
    ));
    assert!(matches!(
        LoadLabeledConfigTypeError::from(TransferError::CouldNotCreateDirectory(
            EnsureDirectoryError::PathDoesNotExist("p".to_string())
        )),
        LoadLabeledConfigTypeError::CouldNotCreateDirectory(
            EnsureDirectoryError::PathDoesNotExist(_)
        )
    ));
    assert!(matches!(
        StoreLabeledConfigTypeError::from(DecodeStringError::CouldNotResolveVariable {
            variable_name: "V".to_string()
        }),
        StoreLabeledConfigTypeError::CouldNotDecodeFileLocationInConfigTypeDescriptor(_)
    ));
    assert!(matches!(
        LoadLabeledConfigTypeError::from(EnsureDirectoryError::PathDoesNotExist("p".to_string())),
        LoadLabeledConfigTypeError::CouldNotCreateDirectory(_)
    ));
}

#[test]
fn store_of_a_template_without_parent_is_invalid() {
    let mut disk = Disk::new().with_descriptor("/store/db/t/descriptor.json", &["/"]);
    let storage = storage(&mut disk);
    let t = disk.open(storage.get_config_type_storage("t")).unwrap();
    match disk.store(t.store_in("l", "/store/temp/s".to_string())) {
        Err(StoreLabeledConfigTypeError::InvalidParentOfFileLocationInConfigTypeDescriptor(
            path,
        )) => assert_eq!(path, "/"),
        other => panic!("{:?}", other),
    }
    assert_eq!(disk.status("/store/temp/s"), PathStatus::Directory);
    assert_eq!(disk.status("/store/db/t/l"), PathStatus::Missing);
}

#[test]
fn store_fails_when_a_file_is_where_a_directory_must_be() {
    let mut disk = Disk::new()
        .with_descriptor("/store/db/t/descriptor.json", &["a", "a/b"])
        .with_file("a", "A")
        .with_file("a/b", "B");
    let storage = storage(&mut disk);
    let t = disk.open(storage.get_config_type_storage("t")).unwrap();
    match disk.store(t.store_in("l", "/store/temp/s".to_string())) {
        Err(StoreLabeledConfigTypeError::CouldNotCreateDirectory(
            EnsureDirectoryError::PathIsNotADirectory(path),
        )) => assert_eq!(path, "/store/temp/s/a"),
        other => panic!("{:?}", other),
    }
}

#[test]
fn load_with_an_undecodable_template_fails() {
    let descriptor = ConfigTypeDescriptor::from_paths(vec!["{{HOME".to_string()]);
    let resolver = resolver();
    let labeled = LabeledConfigTypeStorage::new(&resolver, &descriptor, "/snap".to_string());
    let mut disk = Disk::new();
    match disk.load(labeled.load()) {
        Err(LoadLabeledConfigTypeError::CouldNotDecodeFileLocationInConfigTypeDescriptor(
            DecodeStringError::CollectBlocksFromStringError(_),
        )) => {},
        other => panic!("{:?}", other),
    }
}

#[test]
fn load_fails_when_a_file_is_where_a_directory_must_be() {
    let mut disk = vim_disk();
    let storage = storage(&mut disk);
    let vim = disk.open(storage.get_config_type_storage("vim")).unwrap();
    disk.store(vim.store("work")).unwrap();
    disk.directories.retain(|p| !p.starts_with("/home/user/.vim"));
    disk.files.retain(|p, _| !p.starts_with("/home/user/.vim/"));
    disk.files.insert("/home/user/.vim".to_string(), "a file".to_string());
    match disk.load(vim.load("work")) {
        Err(LoadLabeledConfigTypeError::CouldNotCreateDirectory(
            EnsureDirectoryError::PathIsNotADirectory(path),
        )) => assert_eq!(path, "/home/user/.vim"),
        other => panic!("{:?}", other),
    }
    assert_eq!(disk.files["/home/user/.vimrc"], "set nocompatible");
}

#[test]
fn labeled_store_captures_into_its_directory() {
    let descriptor = ConfigTypeDescriptor::from_paths(vec!["{{HOME}}/f".to_string()]);
    let resolver = resolver();
    let labeled = LabeledConfigTypeStorage::new(&resolver, &descriptor, "/snap".to_string());
    let mut disk = Disk::new().with_file("/home/user/f", "F");
    disk.capture(labeled.store()).unwrap();
    assert_eq!(disk.files["/snap/{{HOME}}/f"], "F");
    assert_eq!(disk.writes, vec![
        "create /snap",
        "create /snap/{{HOME}}",
        "copy /home/user/f /snap/{{HOME}}/f",
    ]);
}

#[test]
fn restore_copies_back_what_capture_copied() {
    let descriptor = ConfigTypeDescriptor::from_paths(vec![
        "{{HOME}}/a".to_string(),
        "{{{b}}}".to_string(),
        "/etc/c".to_string(),
    ]);
    let resolver = resolver();
    let labeled = LabeledConfigTypeStorage::new(&resolver, &descriptor, "/snap".to_string());
    let capture = labeled.plan(Direction::Capture);
    let restore = labeled.plan(Direction::Restore);
    assert_eq!(capture.transfers.len(), 3);
    assert_eq!(restore.transfers.len(), 3);
    for (c, r) in capture.transfers.iter().zip(restore.transfers.iter()) {
        assert_eq!(c.source, r.dest);
        assert_eq!(c.dest, r.source);
    }
    assert_eq!(capture.transfers[1].source, "{{b}}");
    assert_eq!(capture.transfers[1].dest, "/snap/{{{b}}}");
    assert_eq!(capture.transfers[2].dest, "/etc/c");
}

#[test]
fn labeled_store_reports_failures_as_those_of_storing() {
    let descriptor = ConfigTypeDescriptor::from_paths(vec!["{{HOME}}/f".to_string()]);
    let resolver = resolver();
    let labeled = LabeledConfigTypeStorage::new(&resolver, &descriptor, "/snap".to_string());
    let mut disk = Disk::new();
    match disk.capture(labeled.store()) {
        Err(StoreLabeledConfigTypeError::CouldNotCopyFile { io_error, source_path, dest_path }) => {
            assert_eq!(io_error.kind(), ErrorKind::NotFound);
            assert_eq!(source_path, "/home/user/f");
            assert_eq!(dest_path, "/snap/{{HOME}}/f");
        },
        other => panic!("{:?}", other),
    }
}

#[test]
fn transaction_reports_its_end_in_three_ways() {
    let descriptor = ConfigTypeDescriptor::from_paths(vec!["{{HOME}}/f".to_string()]);
    let resolver = resolver();
    let labeled = LabeledConfigTypeStorage::new(&resolver, &descriptor, "/snap".to_string());
    let run = |disk: &mut Disk| {
        let mut transaction = Transaction::new(labeled.plan(Direction::Restore));
        while let Some(action) = transaction.pending() {
            transaction = transaction.advance(disk.perform(action));
        }
        transaction
    };
    assert!(Transaction::new(labeled.plan(Direction::Restore)).result().is_none());
    assert!(Transaction::new(labeled.plan(Direction::Restore)).load_result().is_none());
    assert!(Transaction::new(labeled.plan(Direction::Restore)).store_result().is_none());

    let mut disk = Disk::new();
    assert!(matches!(
        run(&mut disk).result(),
        Some(Err(TransferError::CouldNotCopyFile { .. }))
    ));
    assert!(matches!(
        run(&mut disk).load_result(),
        Some(Err(LoadLabeledConfigTypeError::CouldNotCopyFile { source_path, dest_path, .. }))
            if source_path == "/snap/{{HOME}}/f" && dest_path == "/home/user/f"
    ));
    assert!(matches!(
        run(&mut disk).store_result(),
        Some(Err(StoreLabeledConfigTypeError::CouldNotCopyFile { source_path, dest_path, .. }))
            if source_path == "/snap/{{HOME}}/f" && dest_path == "/home/user/f"
    ));

    let mut disk = Disk::new().with_file("/snap/{{HOME}}/f", "F");
    assert!(matches!(disk.transfer(Transaction::new(labeled.plan(Direction::Restore))), Ok(())));
    assert_eq!(disk.files["/home/user/f"], "F");
    assert!(matches!(run(&mut disk).load_result(), Some(Ok(()))));
    assert!(matches!(run(&mut disk).store_result(), Some(Ok(()))));
}
