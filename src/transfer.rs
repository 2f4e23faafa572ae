//! The two ends of a control transfer: the stacks that routines run on, and
//! what each side knows of where to write its next message.
use vstd::prelude::*;
use context::stack::{ProtectedFixedSizeStack, StackError};

verus! {

#[verifier::external_type_specification]
#[verifier::external_body]
pub struct ExProtectedFixedSizeStack(ProtectedFixedSizeStack);

#[verifier::external_type_specification]
#[verifier::external_body]
pub struct ExStackError(StackError);

/// Relies on context's `ProtectedFixedSizeStack::new`, which maps a stack of
/// at least `size` bytes below a guard page. Whether that succeeds depends
/// on the machine, so nothing is promised of the outcome.
pub assume_specification[ ProtectedFixedSizeStack::new ](size: usize) -> (r: Result<
    ProtectedFixedSizeStack,
    StackError,
>);

/// Relies on context's `Stack::default_size`, the platform's default stack
/// size, which depends on the machine.
pub assume_specification[ context::stack::Stack::default_size ]() -> (r: usize);

/// Relies on the variants of context's `StackError`: the largest size a
/// stack may have, when that is what the error reports.
#[verifier::external_body]
fn size_limit(e: &StackError) -> (r: Option<usize>) {
    match e {
        StackError::ExceedsMaximumSize(max) => Some(*max),
        StackError::IoError(_) => None,
    }
}

/// Why a stack could not be allocated.
#[derive(Debug)]
pub enum StackBuildError {
    /// The size asked for is above the largest the platform allows, given.
    ExceedsMaximumSize(usize),
    /// Mapping the memory or its guard page failed.
    Allocation(StackError),
}

/// Which stack to allocate for a coroutine: the platform's default size, or
/// a given number of bytes, each with a guard page below it.
pub struct StackFactory {
    size: Option<usize>,
}

impl StackFactory {
    /// The size asked for; `None` for the platform's default.
    pub closed spec fn requested_size(self) -> Option<usize> {
        self.size
    }

    pub fn default_stack() -> (r: Self)
        ensures
            r.requested_size() is None,
    {
        StackFactory { size: None }
    }

    pub fn of_size(stack_size: usize) -> (r: Self)
        ensures
            r.requested_size() == Some(stack_size),
    {
        StackFactory { size: Some(stack_size) }
    }

    /// The size to allocate: the requested one, or the platform's default.
    pub fn stack_size(&self) -> (r: usize)
        ensures
            self.requested_size() matches Some(n) ==> r == n,
    {
        match self.size {
            Some(n) => n,
            None => context::stack::Stack::default_size(),
        }
    }

    /// Allocates a stack of `stack_size()` bytes, each with a guard page
    /// below it. Allocation can fail; the error is handed back.
    pub fn build(self) -> (r: Result<ProtectedFixedSizeStack, StackBuildError>) {
        let size = self.stack_size();
        match ProtectedFixedSizeStack::new(size) {
            Ok(stack) => Ok(stack),
            Err(e) => match size_limit(&e) {
                Some(max) => Err(StackBuildError::ExceedsMaximumSize(max)),
                None => Err(StackBuildError::Allocation(e)),
            },
        }
    }
}

/// The word a side switches with when it will never be resumed.
pub const DISPOSED: usize = 0;

/// Where the peer's slot is after a switch that carried `word`: at that
/// address, or nowhere when the peer has disposed.
pub open spec fn target_of(word: usize) -> Option<usize> {
    if word == DISPOSED {
        None
    } else {
        Some(word)
    }
}

/// A transfer used against its protocol.
#[derive(PartialEq, Eq, Structural, Clone, Copy, Debug)]
pub enum TransferError {
    /// There is no peer slot to write into: none was known yet, or the peer
    /// has disposed.
    NoSendTarget,
    /// Control came back to a side that had disposed.
    ResumedAfterDispose,
}

/// What one side of a pair of stacks knows between two switches: the
/// address of the peer's receive slot, if any, and whether this side has
/// disposed. Moving the values and switching stacks is left to the caller,
/// which holds the raw context and this side's own receive slot.
pub struct ExchangingTransfer {
    send_target: Option<usize>,
    disposed: bool,
}

impl ExchangingTransfer {
    /// The address of the peer's slot that the next message goes into.
    pub closed spec fn target(self) -> Option<usize> {
        self.send_target
    }

    pub closed spec fn is_disposed(self) -> bool {
        self.disposed
    }

    /// A side that knows no peer slot yet: its first operation is a switch
    /// that sends nothing.
    pub fn create_without_send() -> (r: Self)
        ensures
            r.target() is None,
            !r.is_disposed(),
    {
        ExchangingTransfer { send_target: None, disposed: false }
    }

    /// A side started by a switch whose word is the peer's first slot.
    pub fn create_with_send(word: usize) -> (r: Self)
        ensures
            r.target() == target_of(word),
            !r.is_disposed(),
    {
        ExchangingTransfer { send_target: if word == DISPOSED { None } else { Some(word) }, disposed: false }
    }

    /// The peer slot that a message is to be written into before the switch.
    pub fn send_target(&self) -> (r: Result<usize, TransferError>)
        ensures
            match self.target() {
                Some(t) => r == Ok::<usize, TransferError>(t),
                None => r == Err::<usize, TransferError>(TransferError::NoSendTarget),
            },
    {
        match self.send_target {
            Some(t) => Ok(t),
            None => Err(TransferError::NoSendTarget),
        }
    }

    /// Takes in the word that came with the switch back to this side: the
    /// address of the peer's newest slot, or `DISPOSED`. A side that disposed
    /// must never be resumed.
    pub fn switched(&mut self, word: usize) -> (r: Result<(), TransferError>)
        ensures
            old(self).is_disposed() ==> r == Err::<(), TransferError>(
                TransferError::ResumedAfterDispose,
            ) && *final(self) == *old(self),
            !old(self).is_disposed() ==> r is Ok && final(self).target() == target_of(word)
                && !final(self).is_disposed(),
    {
        if self.disposed {
            Err(TransferError::ResumedAfterDispose)
        } else {
            self.send_target = if word == DISPOSED { None } else { Some(word) };
            Ok(())
        }
    }

    /// Marks this side disposed and gives the peer slot that its last
    /// message goes into; the switch that follows carries `DISPOSED`.
    pub fn dispose(&mut self) -> (r: Result<usize, TransferError>)
        ensures
            match old(self).target() {
                Some(t) => r == Ok::<usize, TransferError>(t) && final(self).is_disposed()
                    && final(self).target() is None,
                None => r == Err::<usize, TransferError>(TransferError::NoSendTarget)
                    && *final(self) == *old(self),
            },
    {
        match self.send_target {
            Some(t) => {
                self.send_target = None;
                self.disposed = true;
                Ok(t)
            },
            None => Err(TransferError::NoSendTarget),
        }
    }
}

} // verus!
