use vstd::prelude::*;
use vstd::std_specs::convert::FromSpecImpl;

verus! {

/// `std::io::Error`, the error of the filesystem calls that the caller makes.
///
/// Nothing is claimed of what such a value holds: the library only carries it from the
/// place where it arose into the error that it reports.
#[verifier::external_type_specification]
#[verifier::external_body]
pub struct ExIoError(std::io::Error);

/// `serde_json::Error`, the error of reading or writing a descriptor as JSON.
///
/// Nothing is claimed of what such a value holds: the library only carries it.
#[verifier::external_type_specification]
#[verifier::external_body]
pub struct ExJsonError(serde_json::Error);

/// Why a directory could not be ensured.
#[derive(Debug)]
pub enum EnsureDirectoryError {
    /// The path, or one of its ancestors, exists and is not a directory.
    PathIsNotADirectory(String),
    /// The path, or one of its ancestors, was missing and could not be created.
    CouldNotCreateDirectory { path: String, error: std::io::Error },
    /// The path, or one of its ancestors, is missing and was not to be created.
    PathDoesNotExist(String),
}

/// Why a new directory could not be created.
#[derive(Debug)]
pub enum CreateNewDirectoryError {
    /// The path was free and the directory could still not be created.
    CouldNotCreateDirectory { path: String, error: std::io::Error },
    /// Something exists at the path already.
    PathAlreadyExists(String),
}

/// Why a storage could not be set up under its root.
#[derive(Debug)]
pub enum ConfigStorageConstructionError {
    /// The directory at this path is missing and could not be made, or is no directory.
    InvalidStoragePath(String),
}

/// Why the config types could not be listed.
#[derive(Debug)]
pub enum IterConfigTypesError {
    IoError(std::io::Error),
}

/// Why the labels of a config type could not be listed.
#[derive(Debug)]
pub enum IterConfigTypeLabelsError {
    IoError(std::io::Error),
}

/// Why a label could not be stored.
#[derive(Debug)]
#[allow(inconsistent_fields)]
pub enum StoreLabeledConfigTypeError {
    /// The staging directory could not be created.
    CouldNotCreateTempDirectory { io_error: CreateNewDirectoryError, path: String },
    /// A template of the descriptor could not be decoded.
    CouldNotDecodeFileLocationInConfigTypeDescriptor(DecodeStringError),
    /// The path that a file is copied to has no parent directory.
    InvalidParentOfFileLocationInConfigTypeDescriptor(String),
    /// The label's previous directory could not be removed.
    CouldNotRemoveOldDirectory { io_error: std::io::Error, path: String },
    /// The staging directory could not be renamed to the label's directory.
    CouldNotRenameTempDirectory {
        io_error: std::io::Error,
        source_path: String,
        dest_path: String,
    },
    /// A file could not be copied.
    CouldNotCopyFile { io_error: std::io::Error, source_path: String, dest_path: String },
    /// The parent directory of a copied file could not be ensured.
    CouldNotCreateDirectory(EnsureDirectoryError),
}

impl From<DecodeStringError> for StoreLabeledConfigTypeError {
    fn from(value: DecodeStringError) -> (converted: Self) {
        StoreLabeledConfigTypeError::CouldNotDecodeFileLocationInConfigTypeDescriptor(value)
    }
}

impl FromSpecImpl<DecodeStringError> for StoreLabeledConfigTypeError {
    open spec fn obeys_from_spec() -> bool {
        true
    }

    open spec fn from_spec(value: DecodeStringError) -> Self {
        StoreLabeledConfigTypeError::CouldNotDecodeFileLocationInConfigTypeDescriptor(value)
    }
}

impl From<EnsureDirectoryError> for StoreLabeledConfigTypeError {
    fn from(value: EnsureDirectoryError) -> (converted: Self) {
        StoreLabeledConfigTypeError::CouldNotCreateDirectory(value)
    }
}

impl FromSpecImpl<EnsureDirectoryError> for StoreLabeledConfigTypeError {
    open spec fn obeys_from_spec() -> bool {
        true
    }

    open spec fn from_spec(value: EnsureDirectoryError) -> Self {
        StoreLabeledConfigTypeError::CouldNotCreateDirectory(value)
    }
}

/// Why a label could not be loaded.
#[derive(Debug)]
pub enum LoadLabeledConfigTypeError {
    /// A template of the descriptor could not be decoded.
    CouldNotDecodeFileLocationInConfigTypeDescriptor(DecodeStringError),
    /// The path that a file is copied to has no parent directory.
    InvalidParentOfFileLocationInConfigTypeDescriptor(String),
    /// A file could not be copied.
    CouldNotCopyFile { io_error: std::io::Error, source_path: String, dest_path: String },
    /// The parent directory of a copied file could not be ensured.
    CouldNotCreateDirectory(EnsureDirectoryError),
}

impl From<DecodeStringError> for LoadLabeledConfigTypeError {
    fn from(value: DecodeStringError) -> (converted: Self) {
        LoadLabeledConfigTypeError::CouldNotDecodeFileLocationInConfigTypeDescriptor(value)
    }
}

impl FromSpecImpl<DecodeStringError> for LoadLabeledConfigTypeError {
    open spec fn obeys_from_spec() -> bool {
        true
    }

    open spec fn from_spec(value: DecodeStringError) -> Self {
        LoadLabeledConfigTypeError::CouldNotDecodeFileLocationInConfigTypeDescriptor(value)
    }
}

impl From<EnsureDirectoryError> for LoadLabeledConfigTypeError {
    fn from(value: EnsureDirectoryError) -> (converted: Self) {
        LoadLabeledConfigTypeError::CouldNotCreateDirectory(value)
    }
}

impl FromSpecImpl<EnsureDirectoryError> for LoadLabeledConfigTypeError {
    open spec fn obeys_from_spec() -> bool {
        true
    }

    open spec fn from_spec(value: EnsureDirectoryError) -> Self {
        LoadLabeledConfigTypeError::CouldNotCreateDirectory(value)
    }
}

/// Why the files of a snapshot could not be copied, whichever way they were copied.
#[derive(Debug)]
pub enum TransferError {
    /// A template of the descriptor could not be decoded.
    CouldNotDecodeFileLocationInConfigTypeDescriptor(DecodeStringError),
    /// The path that a file is copied to has no parent directory.
    InvalidParentOfFileLocationInConfigTypeDescriptor(String),
    /// A file could not be copied.
    CouldNotCopyFile { io_error: std::io::Error, source_path: String, dest_path: String },
    /// The parent directory of a copied file could not be ensured.
    CouldNotCreateDirectory(EnsureDirectoryError),
}

impl StoreLabeledConfigTypeError {
    /// The failure of storing that a failure of a transfer stands for: the one of the
    /// same name, with the same contents.
    pub open spec fn of_transfer(value: TransferError) -> Self {
        match value {
            TransferError::CouldNotDecodeFileLocationInConfigTypeDescriptor(error) => {
                StoreLabeledConfigTypeError::CouldNotDecodeFileLocationInConfigTypeDescriptor(
                    error,
                )
            },
            TransferError::InvalidParentOfFileLocationInConfigTypeDescriptor(path) => {
                StoreLabeledConfigTypeError::InvalidParentOfFileLocationInConfigTypeDescriptor(
                    path,
                )
            },
            TransferError::CouldNotCopyFile { io_error, source_path, dest_path } => {
                StoreLabeledConfigTypeError::CouldNotCopyFile { io_error, source_path, dest_path }
            },
            TransferError::CouldNotCreateDirectory(error) => {
                StoreLabeledConfigTypeError::CouldNotCreateDirectory(error)
            },
        }
    }

    /// The failure of storing that a failure of a transfer stands for.
    pub fn from_transfer(value: TransferError) -> (converted: Self)
        ensures
            converted == Self::of_transfer(value),
    {
        match value {
            TransferError::CouldNotDecodeFileLocationInConfigTypeDescriptor(error) => {
                StoreLabeledConfigTypeError::CouldNotDecodeFileLocationInConfigTypeDescriptor(
                    error,
                )
            },
            TransferError::InvalidParentOfFileLocationInConfigTypeDescriptor(path) => {
                StoreLabeledConfigTypeError::InvalidParentOfFileLocationInConfigTypeDescriptor(
                    path,
                )
            },
            TransferError::CouldNotCopyFile { io_error, source_path, dest_path } => {
                StoreLabeledConfigTypeError::CouldNotCopyFile { io_error, source_path, dest_path }
            },
            TransferError::CouldNotCreateDirectory(error) => {
                StoreLabeledConfigTypeError::CouldNotCreateDirectory(error)
            },
        }
    }
}

impl From<TransferError> for StoreLabeledConfigTypeError {
    fn from(value: TransferError) -> (converted: Self) {
        Self::from_transfer(value)
    }
}

impl FromSpecImpl<TransferError> for StoreLabeledConfigTypeError {
    open spec fn obeys_from_spec() -> bool {
        true
    }

    open spec fn from_spec(value: TransferError) -> Self {
        Self::of_transfer(value)
    }
}

impl LoadLabeledConfigTypeError {
    /// The failure of loading that a failure of a transfer stands for: the one of the
    /// same name, with the same contents.
    pub open spec fn of_transfer(value: TransferError) -> Self {
        match value {
            TransferError::CouldNotDecodeFileLocationInConfigTypeDescriptor(error) => {
                LoadLabeledConfigTypeError::CouldNotDecodeFileLocationInConfigTypeDescriptor(
                    error,
                )
            },
            TransferError::InvalidParentOfFileLocationInConfigTypeDescriptor(path) => {
                LoadLabeledConfigTypeError::InvalidParentOfFileLocationInConfigTypeDescriptor(
                    path,
                )
            },
            TransferError::CouldNotCopyFile { io_error, source_path, dest_path } => {
                LoadLabeledConfigTypeError::CouldNotCopyFile { io_error, source_path, dest_path }
            },
            TransferError::CouldNotCreateDirectory(error) => {
                LoadLabeledConfigTypeError::CouldNotCreateDirectory(error)
            },
        }
    }

    /// The failure of loading that a failure of a transfer stands for.
    pub fn from_transfer(value: TransferError) -> (converted: Self)
        ensures
            converted == Self::of_transfer(value),
    {
        match value {
            TransferError::CouldNotDecodeFileLocationInConfigTypeDescriptor(error) => {
                LoadLabeledConfigTypeError::CouldNotDecodeFileLocationInConfigTypeDescriptor(
                    error,
                )
            },
            TransferError::InvalidParentOfFileLocationInConfigTypeDescriptor(path) => {
                LoadLabeledConfigTypeError::InvalidParentOfFileLocationInConfigTypeDescriptor(
                    path,
                )
            },
            TransferError::CouldNotCopyFile { io_error, source_path, dest_path } => {
                LoadLabeledConfigTypeError::CouldNotCopyFile { io_error, source_path, dest_path }
            },
            TransferError::CouldNotCreateDirectory(error) => {
                LoadLabeledConfigTypeError::CouldNotCreateDirectory(error)
            },
        }
    }
}

impl From<TransferError> for LoadLabeledConfigTypeError {
    fn from(value: TransferError) -> (converted: Self) {
        Self::from_transfer(value)
    }
}

impl FromSpecImpl<TransferError> for LoadLabeledConfigTypeError {
    open spec fn obeys_from_spec() -> bool {
        true
    }

    open spec fn from_spec(value: TransferError) -> Self {
        Self::of_transfer(value)
    }
}

/// Why the directory of a config type is not usable.
#[derive(Debug)]
pub enum ConfigTypeDirValidationError {
    /// The directory, or one of its ancestors, does not exist.
    DirectoryNotFound { path: String },
    /// The path, or one of its ancestors, is no directory.
    GivenPathIsNotADirectory { path: String },
    /// The directory is there and its descriptor could not be read.
    CouldNotReadDescriptor(ReadConfigTypeDescriptorError),
}

impl ConfigTypeDirValidationError {
    /// What a failure to ensure the directory says of the config type: only a missing
    /// path counts as not found, and every other failure says that what is at the path
    /// is no directory.
    pub open spec fn of_ensure(value: EnsureDirectoryError) -> Self {
        match value {
            EnsureDirectoryError::CouldNotCreateDirectory { path, error } => {
                ConfigTypeDirValidationError::GivenPathIsNotADirectory { path }
            },
            EnsureDirectoryError::PathDoesNotExist(path) => {
                ConfigTypeDirValidationError::DirectoryNotFound { path }
            },
            EnsureDirectoryError::PathIsNotADirectory(path) => {
                ConfigTypeDirValidationError::GivenPathIsNotADirectory { path }
            },
        }
    }

    /// What a failure to ensure the directory says of the config type.
    pub fn from_ensure(value: EnsureDirectoryError) -> (converted: Self)
        ensures
            converted == Self::of_ensure(value),
    {
        match value {
            EnsureDirectoryError::CouldNotCreateDirectory { path, error } => {
                ConfigTypeDirValidationError::GivenPathIsNotADirectory { path }
            },
            EnsureDirectoryError::PathDoesNotExist(path) => {
                ConfigTypeDirValidationError::DirectoryNotFound { path }
            },
            EnsureDirectoryError::PathIsNotADirectory(path) => {
                ConfigTypeDirValidationError::GivenPathIsNotADirectory { path }
            },
        }
    }
}

impl From<EnsureDirectoryError> for ConfigTypeDirValidationError {
    fn from(value: EnsureDirectoryError) -> (converted: Self) {
        Self::from_ensure(value)
    }
}

impl FromSpecImpl<EnsureDirectoryError> for ConfigTypeDirValidationError {
    open spec fn obeys_from_spec() -> bool {
        true
    }

    open spec fn from_spec(value: EnsureDirectoryError) -> Self {
        Self::of_ensure(value)
    }
}

/// Why a config type could not be opened.
#[derive(Debug)]
pub enum GetConfigTypeError {
    /// Something is at the config type's place, and it is no usable config type.
    IncorrectConfigTypeDir { config_type: String, validation_error: ConfigTypeDirValidationError },
    /// There is no such config type.
    ConfigTypeNotFound { config_type: String, validation_error: ConfigTypeDirValidationError },
}

impl GetConfigTypeError {
    /// Why the config type could not be opened, given why its directory is not usable:
    /// the config type is not found exactly where its directory is not found, and every
    /// other failure means that its directory is incorrect.
    pub open spec fn of_validation(
        config_type: String,
        validation_error: ConfigTypeDirValidationError,
    ) -> Self {
        if validation_error is DirectoryNotFound {
            GetConfigTypeError::ConfigTypeNotFound { config_type, validation_error }
        } else {
            GetConfigTypeError::IncorrectConfigTypeDir { config_type, validation_error }
        }
    }

    /// Why the config type could not be opened, given why its directory is not usable.
    pub fn from_validation(
        config_type: String,
        validation_error: ConfigTypeDirValidationError,
    ) -> (converted: Self)
        ensures
            converted == Self::of_validation(config_type, validation_error),
    {
        match validation_error {
            ConfigTypeDirValidationError::DirectoryNotFound { .. } => {
                GetConfigTypeError::ConfigTypeNotFound { config_type, validation_error }
            },
            ConfigTypeDirValidationError::GivenPathIsNotADirectory { .. } => {
                GetConfigTypeError::IncorrectConfigTypeDir { config_type, validation_error }
            },
            ConfigTypeDirValidationError::CouldNotReadDescriptor(_) => {
                GetConfigTypeError::IncorrectConfigTypeDir { config_type, validation_error }
            },
        }
    }
}

impl From<(String, ConfigTypeDirValidationError)> for GetConfigTypeError {
    fn from(value: (String, ConfigTypeDirValidationError)) -> (converted: Self) {
        Self::from_validation(value.0, value.1)
    }
}

impl FromSpecImpl<(String, ConfigTypeDirValidationError)> for GetConfigTypeError {
    open spec fn obeys_from_spec() -> bool {
        true
    }

    open spec fn from_spec(value: (String, ConfigTypeDirValidationError)) -> Self {
        Self::of_validation(value.0, value.1)
    }
}

/// Why a config type could not be created.
#[derive(Debug)]
pub enum CreateConfigTypeError {
    /// Something is at the config type's place, and it is no usable config type.
    IncorrectConfigTypeFound {
        config_type: String,
        validation_error: ConfigTypeDirValidationError,
    },
    /// The config type exists already.
    ConfigTypeAlreadyExists { config_type: String },
    /// The directory of the config type could not be created.
    CouldNotCreateDirectory { path: String, new_directory_error: CreateNewDirectoryError },
    /// The first descriptor of the config type could not be written.
    CouldNotWriteDescriptorToFile(WriteConfigTypeDescriptorError),
}

/// Why a descriptor could not be written.
#[derive(Debug)]
pub enum WriteConfigTypeDescriptorError {
    CouldNotOpenFile(std::io::Error),
    CouldNotWriteDataToFile(std::io::Error),
    CouldNotSerializeData(serde_json::Error),
}

/// Why a descriptor could not be read.
#[derive(Debug)]
pub enum ReadConfigTypeDescriptorError {
    CouldNotOpenFile(std::io::Error),
    CouldNotDeserializeData(serde_json::Error),
}

/// Why a template could not be split into blocks.
#[derive(Debug, PartialEq, Eq)]
pub enum CollectBlocksFromStringError {
    /// A placeholder was opened and the template ended before it was closed.
    /// The offset is the byte offset of the first character after the opening braces.
    OpenedBlockIsNotClosed { block_start_offset: usize },
}

/// Why a template could not be decoded.
#[derive(Debug, PartialEq, Eq)]
pub enum DecodeStringError {
    /// A placeholder names a variable that the lookup does not know.
    CouldNotResolveVariable { variable_name: String },
    /// The template could not be split into blocks.
    CollectBlocksFromStringError(CollectBlocksFromStringError),
}

impl From<CollectBlocksFromStringError> for DecodeStringError {
    fn from(value: CollectBlocksFromStringError) -> (converted: Self) {
        DecodeStringError::CollectBlocksFromStringError(value)
    }
}

impl FromSpecImpl<CollectBlocksFromStringError> for DecodeStringError {
    open spec fn obeys_from_spec() -> bool {
        true
    }

    open spec fn from_spec(value: CollectBlocksFromStringError) -> Self {
        DecodeStringError::CollectBlocksFromStringError(value)
    }
}

/// The mathematical value of a [`DecodeStringError`].
pub enum DecodeFailure {
    /// A placeholder is opened at this byte offset and never closed.
    UnclosedPlaceholder { offset: nat },
    /// No variable has this name.
    UnresolvedVariable { name: Seq<char> },
}

impl View for DecodeStringError {
    type V = DecodeFailure;

    open spec fn view(&self) -> DecodeFailure {
        match *self {
            DecodeStringError::CouldNotResolveVariable { variable_name } => {
                DecodeFailure::UnresolvedVariable { name: variable_name@ }
            },
            DecodeStringError::CollectBlocksFromStringError(
                CollectBlocksFromStringError::OpenedBlockIsNotClosed { block_start_offset },
            ) => DecodeFailure::UnclosedPlaceholder { offset: block_start_offset as nat },
        }
    }
}

} // verus!
