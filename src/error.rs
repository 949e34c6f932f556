use vstd::prelude::*;

verus! {

#[verifier::external_type_specification]
#[verifier::external_body]
pub struct ExIoError(std::io::Error);

/// Every way an operation of the facade can fail.
#[derive(Debug)]
pub enum PackerError {
    /// The child ran and reported failure; the text says why.
    ExecutionError(String),
    /// The executable does not exist where the facade looks for it.
    NotFound,
    /// An invalid combination of options.
    ConfigError(String),
    /// The child could not be spawned, or its streams could not be read.
    IoError(std::io::Error),
}

impl PackerError {
    /// The text that describes this error to a person.
    pub fn message(&self) -> (r: String)
        ensures
            self matches PackerError::ExecutionError(m) ==> r@ == "Failed to execute Packer command: "@ + m@,
            self matches PackerError::NotFound ==> r@ == "Failed to find Packer executable"@,
            self matches PackerError::ConfigError(m) ==> r@ == "Invalid configuration: "@ + m@,
            self matches PackerError::IoError(e) ==> exists|d: String|
                vstd::string::to_string_from_display_ensures::<std::io::Error>(&e, d) && r@ == "IO error: "@ + d@,
    {
        match self {
            PackerError::ExecutionError(m) => {
                let mut s = String::from_str("Failed to execute Packer command: ");
                s.append(m.as_str());
                s
            },
            PackerError::NotFound => String::from_str("Failed to find Packer executable"),
            PackerError::ConfigError(m) => {
                let mut s = String::from_str("Invalid configuration: ");
                s.append(m.as_str());
                s
            },
            PackerError::IoError(e) => {
                let detail = e.to_string();
                let mut s = String::from_str("IO error: ");
                s.append(detail.as_str());
                assert(s@ == "IO error: "@ + detail@);
                s
            },
        }
    }
}

impl From<std::io::Error> for PackerError {
    fn from(e: std::io::Error) -> (r: PackerError) {
        PackerError::IoError(e)
    }
}

impl vstd::std_specs::convert::FromSpecImpl<std::io::Error> for PackerError {
    open spec fn obeys_from_spec() -> bool {
        true
    }

    open spec fn from_spec(e: std::io::Error) -> PackerError {
        PackerError::IoError(e)
    }
}

} // verus!
