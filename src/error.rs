use vstd::prelude::*;

verus! {

/// What can end a session of the client, or keep it from starting.
#[derive(Clone, Debug, PartialEq, Eq)]
pub enum PtuiError {
    FailedToInitializeService,
    TenantNotSelected,
    ConfigurationError { cause: Option<String> },
    InputError,
    DisplayError,
}

pub open spec fn error_message(e: &PtuiError) -> Seq<char> {
    match e {
        PtuiError::FailedToInitializeService => "Failed to initialize the API service module"@,
        PtuiError::TenantNotSelected => "Tenant not selected"@,
        PtuiError::ConfigurationError { cause } => match cause {
            Some(c) => "Configuration error occurred: "@ + c@,
            None => "Configuration error occurred"@,
        },
        PtuiError::InputError => "Error occurred while receiving user input"@,
        PtuiError::DisplayError => "Error occurred while displaying output"@,
    }
}

impl PtuiError {
    /// A sentence that describes the error.
    pub fn message(&self) -> (r: String)
        ensures
            r@ == error_message(self),
    {
        match self {
            PtuiError::FailedToInitializeService => String::from_str(
                "Failed to initialize the API service module",
            ),
            PtuiError::TenantNotSelected => String::from_str("Tenant not selected"),
            PtuiError::ConfigurationError { cause } => match cause {
                Some(c) => String::from_str("Configuration error occurred: ").concat(c.as_str()),
                None => String::from_str("Configuration error occurred"),
            },
            PtuiError::InputError => String::from_str("Error occurred while receiving user input"),
            PtuiError::DisplayError => String::from_str("Error occurred while displaying output"),
        }
    }
}

} // verus!
