use vstd::prelude::*;

verus! {

/// A directory the game installation is expected to supply.
#[derive(Clone, Copy, Debug, PartialEq, Eq, Structural)]
pub enum Dependency {
    /// `<root>/BepInEx`, the mod loader's directory.
    BepInEx,
    /// `<root>/BepInEx/plugins`, the live plugin directory.
    Plugins,
}

/// Why an operation of the manager failed.
#[derive(Clone, Debug)]
pub enum ManagerError {
    /// The named setup is not cached, or its directory is gone.
    NotFound,
    /// A directory of the requested name already exists.
    AlreadyExists,
    /// A directory of the installation is absent.
    MissingDependency(Dependency),
    /// A filesystem step failed, or a name cannot be a directory name;
    /// holds the description.
    IoError(String),
}

/// The text shown to a user for an error.
pub open spec fn message_of(e: ManagerError) -> Seq<char> {
    match e {
        ManagerError::NotFound => "Couldn't find setup!"@,
        ManagerError::AlreadyExists => "Setup already exists!"@,
        ManagerError::MissingDependency(Dependency::BepInEx) => "BepInEx not found!"@,
        ManagerError::MissingDependency(Dependency::Plugins) => "plugins not found!"@,
        ManagerError::IoError(s) => s@,
    }
}

/// The text shown to a user when renaming a setup fails.
pub open spec fn rename_message_of(e: ManagerError) -> Seq<char> {
    match e {
        ManagerError::NotFound => "Couldn't find setup"@,
        _ => message_of(e),
    }
}

impl ManagerError {
    /// The text shown to a user when renaming a setup fails with this error.
    pub fn rename_message(&self) -> (r: String)
        ensures
            r@ == rename_message_of(*self),
    {
        match self {
            ManagerError::NotFound => String::from_str("Couldn't find setup"),
            _ => self.message(),
        }
    }

    /// The text shown to a user for this error.
    pub fn message(&self) -> (r: String)
        ensures
            r@ == message_of(*self),
    {
        match self {
            ManagerError::NotFound => String::from_str("Couldn't find setup!"),
            ManagerError::AlreadyExists => String::from_str("Setup already exists!"),
            ManagerError::MissingDependency(Dependency::BepInEx) => String::from_str(
                "BepInEx not found!",
            ),
            ManagerError::MissingDependency(Dependency::Plugins) => String::from_str(
                "plugins not found!",
            ),
            ManagerError::IoError(s) => s.clone(),
        }
    }
}

} // verus!
