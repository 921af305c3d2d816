//! What differs between the platforms the shell is built for.

use vstd::prelude::*;

verus! {

/// Process creation flag that keeps Windows from opening a console window
/// for the backend.
pub const CREATE_NO_WINDOW: u32 = 0x0800_0000;

/// Permission bits that make the bundled executable runnable: read, write
/// and execute for the owner, read and execute for everyone else.
pub const EXECUTABLE_MODE: u32 = 0o755;

/// Directory, below the application's resource directory, that holds the
/// backend.
pub const RESOURCE_FOLDER: &'static str = "resources";

/// File name of the backend's entry script inside the resource folder.
pub const SERVER_SCRIPT: &'static str = "index.js";

/// The platform the shell is built for.
#[derive(Clone, Copy, Debug, PartialEq, Eq, Structural)]
pub enum Platform {
    /// Windows.
    Windows,
    /// Any other system; they all carry permission bits on files.
    Unix,
}

/// How the shell is built: for development, against a backend that the
/// developer runs, or for release, with the backend bundled.
#[derive(Clone, Copy, Debug, PartialEq, Eq, Structural)]
pub enum BuildProfile {
    /// A development build.
    Debug,
    /// A build to be shipped.
    Release,
}

/// Port on which a developer's own backend is expected.
pub const DEVELOPMENT_PORT: u16 = 3000;

/// What a platform asks of the shell when it starts the backend.
#[derive(Clone, Copy, Debug)]
pub struct Capabilities {
    /// File name of the backend's executable inside the resource folder.
    pub executable_name: &'static str,
    /// Flags to create the process with, where the platform has any.
    pub creation_flags: Option<u32>,
    /// Permission bits to put on the executable before it is started, where
    /// the platform has such bits.
    pub executable_mode: Option<u32>,
}

impl Platform {
    /// File name of the backend's executable on this platform.
    pub open spec fn executable_name(self) -> Seq<char> {
        match self {
            Platform::Windows => "node.exe"@,
            Platform::Unix => "node"@,
        }
    }

    /// Process creation flags on this platform.
    pub open spec fn creation_flags(self) -> Option<u32> {
        match self {
            Platform::Windows => Some(CREATE_NO_WINDOW),
            Platform::Unix => None,
        }
    }

    /// Permission bits for the executable on this platform.
    pub open spec fn executable_mode(self) -> Option<u32> {
        match self {
            Platform::Windows => None,
            Platform::Unix => Some(EXECUTABLE_MODE),
        }
    }

    /// The row of the capability table for this platform.
    pub fn capabilities(self) -> (caps: Capabilities)
        ensures
            caps.executable_name@ == self.executable_name(),
            caps.creation_flags == self.creation_flags(),
            caps.executable_mode == self.executable_mode(),
    {
        match self {
            Platform::Windows => Capabilities {
                executable_name: "node.exe",
                creation_flags: Some(CREATE_NO_WINDOW),
                executable_mode: None,
            },
            Platform::Unix => Capabilities {
                executable_name: "node",
                creation_flags: None,
                executable_mode: Some(EXECUTABLE_MODE),
            },
        }
    }
}

impl BuildProfile {
    /// The port that is fixed in advance under this profile, if any. Where
    /// none is, the shell reserves one from the operating system.
    pub open spec fn fixed_port(self) -> Option<u16> {
        match self {
            BuildProfile::Debug => Some(DEVELOPMENT_PORT),
            BuildProfile::Release => None,
        }
    }

    /// Whether the shell starts and stops the backend itself under this
    /// profile.
    pub open spec fn supervises_backend(self) -> bool {
        self == BuildProfile::Release
    }

    /// The port fixed in advance, or `None` where one has to be reserved.
    pub fn port_choice(self) -> (port: Option<u16>)
        ensures
            port == self.fixed_port(),
    {
        match self {
            BuildProfile::Debug => Some(DEVELOPMENT_PORT),
            BuildProfile::Release => None,
        }
    }

    /// Whether the shell has to start the bundled backend.
    pub fn starts_backend(self) -> (yes: bool)
        ensures
            yes == self.supervises_backend(),
    {
        match self {
            BuildProfile::Debug => false,
            BuildProfile::Release => true,
        }
    }
}

} // verus!
