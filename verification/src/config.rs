// The names of the files that a front end keeps.

use vstd::prelude::*;

verus! {

/// The files in which the front end keeps what it remembers between runs.
#[derive(Clone, Copy, Debug, PartialEq, Eq)]
pub enum ConfigFile {
    /// The directory from which a ROM was last opened.
    LastUsedDirectory,
}

impl ConfigFile {
    /// The name of the file inside the configuration directory.
    pub fn get_file_name(&self) -> (name: &'static str)
        ensures
            name@ == "last_directory.txt"@,
    {
        match self {
            Self::LastUsedDirectory => "last_directory.txt",
        }
    }
}

} // verus!
