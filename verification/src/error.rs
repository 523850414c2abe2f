//! What can go wrong.

use vstd::prelude::*;
use vstd::string::*;

verus! {

/// The ways in which a command can fail.
#[derive(Clone, Copy, Debug, PartialEq, Eq, Structural)]
pub enum Error {
    /// A configuration file is malformed, or cannot be written.
    Configure,
    /// The container runtime cannot be reached, or a call to it failed.
    Docker,
    /// No image is known by the tag or the ID that was given.
    ImageNotFound,
    /// The container that was to be saved does not exist.
    ContainerNotFound,
    /// A container of the name that was asked for exists already.
    ContainerExists,
    /// A local image of the name that was asked for exists already.
    ImageAlreadyExists,
    /// The command line is not one that the program takes.
    ArgumentUsage,
}

impl Error {
    /// What the error says to the user.
    pub open spec fn spec_message(self) -> Seq<char> {
        match self {
            Error::Configure => "configuration error"@,
            Error::Docker => "an error with docker was encountered"@,
            Error::ImageNotFound => "image not found"@,
            Error::ContainerNotFound => "the container to be saved does not exist"@,
            Error::ContainerExists => "an active container with this name already exists"@,
            Error::ImageAlreadyExists => "image already exists with this name"@,
            Error::ArgumentUsage => "the image override doesn't start with + or ="@,
        }
    }

    /// What the error says to the user.
    pub fn message(&self) -> (message: String)
        ensures
            message@ == self.spec_message(),
    {
        match self {
            Error::Configure => String::from_str("configuration error"),
            Error::Docker => String::from_str("an error with docker was encountered"),
            Error::ImageNotFound => String::from_str("image not found"),
            Error::ContainerNotFound => String::from_str(
                "the container to be saved does not exist",
            ),
            Error::ContainerExists => String::from_str(
                "an active container with this name already exists",
            ),
            Error::ImageAlreadyExists => String::from_str("image already exists with this name"),
            Error::ArgumentUsage => String::from_str(
                "the image override doesn't start with + or =",
            ),
        }
    }

    /// Whether the program's usage is to be shown along with the error: so
    /// it is where the command line was at fault, and nowhere else.
    pub fn wants_usage(&self) -> (wanted: bool)
        ensures
            wanted == (*self == Error::ArgumentUsage),
    {
        match self {
            Error::ArgumentUsage => true,
            _ => false,
        }
    }
}

} // verus!
