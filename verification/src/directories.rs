use crate::paths::{push_path, pushed_path};
use vstd::prelude::*;

verus! {

/// The name of the directory, under the root, that holds the staging directories.
pub const TEMP_DIRECTORY: &'static str = "temp";

/// The name of the directory, under the root, that holds the config types.
pub const DB_DIRECTORY: &'static str = "db";

/// The name of the descriptor file in the directory of a config type.
pub const DESCRIPTOR_FILENAME: &'static str = "descriptor.json";

/// Whether `s` has the shape of a UUID in lower-case hyphenated form: 36 characters, with
/// a hyphen at the positions 8, 13, 18 and 23 and a lower-case hexadecimal digit at
/// every other position.
pub open spec fn is_hyphenated_uuid(s: Seq<char>) -> bool {
    &&& s.len() == 36
    &&& forall|i: int|
        0 <= i < 36 ==> if i == 8 || i == 13 || i == 18 || i == 23 {
            s[i] == '-'
        } else {
            ('0' <= #[trigger] s[i] && s[i] <= '9') || ('a' <= s[i] && s[i] <= 'f')
        }
}

/// Calls `uuid::Uuid::new_v4` for a random UUID and writes it in hyphenated form.
///
/// Believed, not proved: the text has the shape that `is_hyphenated_uuid` describes,
/// which is what the formatting code of `uuid` writes for every UUID. Nothing is claimed
/// of which UUID comes back: it is random, and two calls differ. The outside function
/// panics where the operating system hands out no random bytes.
#[verifier::external_body]
fn random_uuid() -> (id: String)
    ensures
        is_hyphenated_uuid(id@),
{
    uuid::Uuid::new_v4().as_hyphenated().to_string()
}

/// The layout of the storage on disk: where, under the root, each thing lies.
///
/// The view is the text of the root's path; every other path follows from it.
#[derive(Debug)]
pub struct Directories {
    root_dir: String,
    temp_dir: String,
    db_dir: String,
}

impl View for Directories {
    type V = Seq<char>;

    closed spec fn view(&self) -> Seq<char> {
        self.root_dir@
    }
}

/// The directory that holds the staging directories of the storage under `root`.
pub open spec fn temp_dir_of(root: Seq<char>) -> Seq<char> {
    pushed_path(root, TEMP_DIRECTORY@)
}

/// The directory that holds the config types of the storage under `root`.
pub open spec fn db_dir_of(root: Seq<char>) -> Seq<char> {
    pushed_path(root, DB_DIRECTORY@)
}

/// The directory of the config type `config_type` in the storage under `root`.
pub open spec fn config_type_dir_of(root: Seq<char>, config_type: Seq<char>) -> Seq<char> {
    pushed_path(db_dir_of(root), config_type)
}

/// The directory of the label `label` of `config_type` in the storage under `root`.
pub open spec fn labeled_config_type_dir_of(
    root: Seq<char>,
    config_type: Seq<char>,
    label: Seq<char>,
) -> Seq<char> {
    pushed_path(config_type_dir_of(root, config_type), label)
}

/// The descriptor file of the config type `config_type` in the storage under `root`.
pub open spec fn config_type_descriptor_of(root: Seq<char>, config_type: Seq<char>) -> Seq<char> {
    pushed_path(config_type_dir_of(root, config_type), DESCRIPTOR_FILENAME@)
}

/// The staging directory named `id` in the storage under `root`.
pub open spec fn staging_dir_of(root: Seq<char>, id: Seq<char>) -> Seq<char> {
    pushed_path(temp_dir_of(root), id)
}

impl Directories {
    #[verifier::type_invariant]
    spec fn well_formed(&self) -> bool {
        &&& self.temp_dir@ == temp_dir_of(self.root_dir@)
        &&& self.db_dir@ == db_dir_of(self.root_dir@)
    }

    /// The layout of the storage under `root_dir`.
    pub fn new(root_dir: String) -> (directories: Self)
        ensures
            directories@ == root_dir@,
    {
        let temp_dir = push_path(root_dir.as_str(), TEMP_DIRECTORY);
        let db_dir = push_path(root_dir.as_str(), DB_DIRECTORY);
        Directories { root_dir, temp_dir, db_dir }
    }

    /// The root of the storage.
    pub fn root_dir_path(&self) -> (path: &str)
        ensures
            path@ == self@,
    {
        self.root_dir.as_str()
    }

    /// The directory that holds the config types.
    pub fn db_dir_path(&self) -> (path: &str)
        ensures
            path@ == db_dir_of(self@),
    {
        proof {
            use_type_invariant(self);
        }
        self.db_dir.as_str()
    }

    /// The directory that holds the staging directories.
    pub fn temp_dir_path(&self) -> (path: &str)
        ensures
            path@ == temp_dir_of(self@),
    {
        proof {
            use_type_invariant(self);
        }
        self.temp_dir.as_str()
    }

    /// The directory of a config type.
    pub fn config_type_dir_path(&self, config_type: &str) -> (path: String)
        ensures
            path@ == config_type_dir_of(self@, config_type@),
    {
        proof {
            use_type_invariant(self);
        }
        push_path(self.db_dir.as_str(), config_type)
    }

    /// The directory of a label of a config type.
    pub fn labeled_config_type_dir_path(&self, config_type: &str, label: &str) -> (path: String)
        ensures
            path@ == labeled_config_type_dir_of(self@, config_type@, label@),
    {
        let config_type_dir = self.config_type_dir_path(config_type);
        push_path(config_type_dir.as_str(), label)
    }

    /// The descriptor file of a config type.
    pub fn config_type_descriptor_path(&self, config_type: &str) -> (path: String)
        ensures
            path@ == config_type_descriptor_of(self@, config_type@),
    {
        let config_type_dir = self.config_type_dir_path(config_type);
        push_path(config_type_dir.as_str(), DESCRIPTOR_FILENAME)
    }

    /// The staging directory with the given name.
    pub fn staging_dir_path(&self, id: &str) -> (path: String)
        ensures
            path@ == staging_dir_of(self@, id@),
    {
        proof {
            use_type_invariant(self);
        }
        push_path(self.temp_dir.as_str(), id)
    }

    /// A staging directory that is not in use: its name is a fresh random UUID.
    pub fn create_temp_dir_path(&self) -> (path: String)
        ensures
            exists|id: Seq<char>|
                is_hyphenated_uuid(id) && path@ == #[trigger] staging_dir_of(self@, id),
    {
        let id = random_uuid();
        self.staging_dir_path(id.as_str())
    }
}

} // verus!
