use vstd::prelude::*;

use crate::vk;

verus! {

/// What went wrong: a Vulkan result code or a message.
#[derive(Clone, Debug)]
pub enum ErrorKind {
    Code(i32),
    Message(String),
}

/// An error of the library.
#[derive(Clone, Debug)]
pub struct Error {
    pub kind: ErrorKind,
}

impl Error {
    pub fn kind(&self) -> (r: &ErrorKind)
        ensures
            *r == self.kind,
    {
        &self.kind
    }

    /// An error carrying a Vulkan result code.
    pub fn from_code(code: i32) -> (r: Error)
        ensures
            r.kind == ErrorKind::Code(code),
    {
        Error { kind: ErrorKind::Code(code) }
    }

    /// An error carrying a message.
    pub fn from_message(msg: &str) -> (r: Error)
        ensures
            r.kind matches ErrorKind::Message(m) && m@ == msg@,
    {
        Error { kind: ErrorKind::Message(msg.to_owned()) }
    }

    /// The Vulkan result code of the error; messages count as validation failures.
    pub fn to_code(&self) -> (r: i32)
        ensures
            r == match self.kind {
                ErrorKind::Code(c) => c,
                ErrorKind::Message(_) => vk::RESULT_ERROR_VALIDATION_FAILED_EXT,
            },
    {
        match &self.kind {
            ErrorKind::Code(c) => *c,
            ErrorKind::Message(_) => vk::RESULT_ERROR_VALIDATION_FAILED_EXT,
        }
    }

    /// The error a failed validation reports.
    pub fn validation_failed() -> (r: Error)
        ensures
            r.kind == ErrorKind::Code(vk::RESULT_ERROR_VALIDATION_FAILED_EXT),
    {
        Error::from_code(vk::RESULT_ERROR_VALIDATION_FAILED_EXT)
    }
}

/// Errors of swapchain operations.
#[derive(Clone, Debug)]
pub enum SwapchainError {
    OutOfDate,
    Other(Error),
}

impl SwapchainError {
    /// An out-of-date code becomes `OutOfDate`; every other error is kept.
    pub fn from_error(e: Error) -> (r: SwapchainError)
        ensures
            r == swapchain_error_of(e),
    {
        match e.kind {
            ErrorKind::Code(c) => {
                if c == vk::RESULT_ERROR_OUT_OF_DATE_KHR {
                    SwapchainError::OutOfDate
                } else {
                    SwapchainError::Other(Error::from_code(c))
                }
            },
            ErrorKind::Message(m) => SwapchainError::Other(Error { kind: ErrorKind::Message(m) }),
        }
    }

    /// The error as a plain library error.
    pub fn into_error(self) -> (r: Error)
        ensures
            r.kind == kind_of_swapchain_error(self),
            self matches SwapchainError::Other(e) ==> r == e,
    {
        match self {
            SwapchainError::OutOfDate => Error::from_code(vk::RESULT_ERROR_OUT_OF_DATE_KHR),
            SwapchainError::Other(e) => e,
        }
    }
}

/// Errors of waiting on a fence.
#[derive(Clone, Debug)]
pub enum FenceError {
    Timeout,
    Other(Error),
}

impl FenceError {
    /// A timeout code becomes `Timeout`; every other error is kept.
    pub fn from_error(e: Error) -> (r: FenceError)
        ensures
            r == fence_error_of(e),
    {
        match e.kind {
            ErrorKind::Code(c) => {
                if c == vk::RESULT_TIMEOUT {
                    FenceError::Timeout
                } else {
                    FenceError::Other(Error::from_code(c))
                }
            },
            ErrorKind::Message(m) => FenceError::Other(Error { kind: ErrorKind::Message(m) }),
        }
    }

    /// The error as a plain library error.
    pub fn into_error(self) -> (r: Error)
        ensures
            r.kind == kind_of_fence_error(self),
            self matches FenceError::Other(e) ==> r == e,
    {
        match self {
            FenceError::Timeout => Error::from_code(vk::RESULT_TIMEOUT),
            FenceError::Other(e) => e,
        }
    }
}

/// The swapchain error an error becomes.
pub open spec fn swapchain_error_of(e: Error) -> SwapchainError {
    if e.kind == ErrorKind::Code(vk::RESULT_ERROR_OUT_OF_DATE_KHR) {
        SwapchainError::OutOfDate
    } else {
        SwapchainError::Other(e)
    }
}

/// What went wrong, by a swapchain error.
pub open spec fn kind_of_swapchain_error(s: SwapchainError) -> ErrorKind {
    match s {
        SwapchainError::OutOfDate => ErrorKind::Code(vk::RESULT_ERROR_OUT_OF_DATE_KHR),
        SwapchainError::Other(e) => e.kind,
    }
}

/// The fence error an error becomes.
pub open spec fn fence_error_of(e: Error) -> FenceError {
    if e.kind == ErrorKind::Code(vk::RESULT_TIMEOUT) {
        FenceError::Timeout
    } else {
        FenceError::Other(e)
    }
}

/// What went wrong, by a fence error.
pub open spec fn kind_of_fence_error(f: FenceError) -> ErrorKind {
    match f {
        FenceError::Timeout => ErrorKind::Code(vk::RESULT_TIMEOUT),
        FenceError::Other(e) => e.kind,
    }
}

/// Turning an error into a swapchain or fence error and back keeps what went
/// wrong.
pub proof fn lemma_error_round_trip(e: Error)
    ensures
        kind_of_swapchain_error(swapchain_error_of(e)) == e.kind,
        kind_of_fence_error(fence_error_of(e)) == e.kind,
{
}

} // verus!
