//! The application data layout the backend is promised.
//!
//! Before the backend is spawned, the host must make sure the application
//! data root and a fixed set of subdirectories exist. The root is resolved
//! from a platform environment variable, falling back to the current
//! directory when the variable is unset; this module decides the fallback
//! and names the layout, and the host creates the directories.

use vstd::prelude::*;

verus! {

/// The application data root for a given value of the platform environment
/// variable: the value itself, or the current directory when it is unset.
pub fn app_data_base(env_value: Option<String>) -> (r: String)
    ensures
        match env_value {
            Some(v) => r@ == v@,
            None => r@ == "."@,
        },
{
    match env_value {
        Some(v) => v,
        None => ".".to_owned(),
    }
}

/// The directory the application keeps under the data root.
pub fn app_dir_name() -> (r: String)
    ensures
        r@ == "MyLife"@,
{
    "MyLife".to_owned()
}

/// The subdirectories the backend expects under the application directory:
/// the database, photo storage, temporary backup staging, and model
/// artifacts, each as path components.
pub fn required_subdirs() -> (v: Vec<Vec<String>>)
    ensures
        v@.len() == 4,
        v@[0]@.len() == 1 && v@[0]@[0]@ == "db"@,
        v@[1]@.len() == 2 && v@[1]@[0]@ == "storage"@ && v@[1]@[1]@ == "photos"@,
        v@[2]@.len() == 2 && v@[2]@[0]@ == "storage"@ && v@[2]@[1]@ == "backups_tmp"@,
        v@[3]@.len() == 1 && v@[3]@[0]@ == "models"@,
{
    let mut db: Vec<String> = Vec::new();
    db.push("db".to_owned());
    let mut photos: Vec<String> = Vec::new();
    photos.push("storage".to_owned());
    photos.push("photos".to_owned());
    let mut backups: Vec<String> = Vec::new();
    backups.push("storage".to_owned());
    backups.push("backups_tmp".to_owned());
    let mut models: Vec<String> = Vec::new();
    models.push("models".to_owned());
    let mut v: Vec<Vec<String>> = Vec::new();
    v.push(db);
    v.push(photos);
    v.push(backups);
    v.push(models);
    v
}

} // verus!
