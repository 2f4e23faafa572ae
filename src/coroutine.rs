//! The coroutine lifecycle: the messages that cross between the invoker and
//! the routine, and the decisions each side takes on them. Performing the
//! stack switch that carries a message is left to the caller: these types
//! hold the state and say what comes next.
use vstd::prelude::*;

verus! {

/// Why the invoker hands control to the routine: to pass it a value, or to
/// have it unwind its stack because the coroutine is being dropped.
#[derive(Debug)]
pub enum ResumeType<Receive> {
    Yield(Receive),
    Drop,
}

/// Why the routine hands control back: it yields a value and can be
/// resumed, or it has completed and never runs again.
#[derive(Debug)]
pub enum SuspenseType<Yield, Return, Payload> {
    Yield(Yield),
    Complete(CompleteType<Return, Payload>),
}

/// How the routine completed: its function returned, or its stack unwound.
#[derive(Debug)]
pub enum CompleteType<Return, Payload> {
    Return(Return),
    Unwind(UnwindReason<Payload>),
}

/// Why the routine's stack unwound: its code raised the carried payload, or
/// the invoker asked for the unwind when dropping the coroutine.
#[derive(Debug)]
pub enum UnwindReason<Payload> {
    Panic(Payload),
    Drop,
}

/// What the invoker gets from a resume that did not fail.
#[derive(Debug)]
pub enum ResumeResult<Yield, Return> {
    Yield(Yield),
    Return(Return),
}

/// How a completed coroutine ended, kept once its value has been handed out.
#[derive(PartialEq, Eq, Structural, Clone, Copy, Debug)]
pub enum CompleteVariant {
    Return,
    Unwind,
}

/// A resume that did not end in a value.
#[derive(Debug)]
pub enum ResumeError<Payload> {
    /// The routine raised: the payload is to be raised again by the invoker.
    Panicked(Payload),
}

/// The invoker's side of a coroutine: running over `Link` (the channel to
/// the routine together with the stack it runs on), or completed, in which
/// case the link and its stack have been released.
#[derive(Debug)]
pub enum InvocationState<Link> {
    Running(Link),
    Completed(CompleteVariant),
}

/// The state that the invoker is in once the routine answered `reply`.
pub open spec fn next_state<Link, Y, R, P>(
    s: InvocationState<Link>,
    reply: SuspenseType<Y, R, P>,
) -> InvocationState<Link> {
    match reply {
        SuspenseType::Yield(_) => s,
        SuspenseType::Complete(CompleteType::Return(_)) => InvocationState::Completed(
            CompleteVariant::Return,
        ),
        SuspenseType::Complete(CompleteType::Unwind(_)) => InvocationState::Completed(
            CompleteVariant::Unwind,
        ),
    }
}

/// What a resume hands the invoker once the routine answered `reply`. An
/// unwind that the invoker did not ask for is no answer to a resume.
pub open spec fn resume_outcome<Y, R, P>(reply: SuspenseType<Y, R, P>) -> Result<
    ResumeResult<Y, R>,
    ResumeError<P>,
>
    recommends
        !acknowledges_drop(reply),
{
    match reply {
        SuspenseType::Yield(y) => Ok(ResumeResult::Yield(y)),
        SuspenseType::Complete(CompleteType::Return(r)) => Ok(ResumeResult::Return(r)),
        SuspenseType::Complete(CompleteType::Unwind(reason)) => Err(
            ResumeError::Panicked(reason->Panic_0),
        ),
    }
}

/// Whether a coroutine in state `s` can be resumed.
pub open spec fn admits_resume<Link>(s: InvocationState<Link>) -> bool {
    s is Running
}

/// The invoker-side handle of a coroutine.
pub struct Coroutine<Link>(InvocationState<Link>);

impl<Link> Coroutine<Link> {
    pub closed spec fn state(self) -> InvocationState<Link> {
        self.0
    }

    /// A running coroutine over `link`, whose routine has not run yet.
    pub fn new(link: Link) -> (r: Self)
        ensures
            r.state() == InvocationState::Running(link),
    {
        Coroutine(InvocationState::Running(link))
    }

    pub fn is_completed(&self) -> (r: bool)
        ensures
            r == (self.state() is Completed),
    {
        match &self.0 {
            InvocationState::Completed(_) => true,
            InvocationState::Running(_) => false,
        }
    }

    /// The link to resume the routine through; `None` once the coroutine
    /// has completed, when resuming it is a protocol violation.
    pub fn link_mut(&mut self) -> (r: Option<&mut Link>)
        ensures
            admits_resume(old(self).state()) == (r is Some),
            old(self).state() is Running ==> *r->Some_0 == old(self).state()->Running_0
                && final(self).state() == InvocationState::Running(*final(r->Some_0)),
            old(self).state() is Completed ==> final(self).state() == old(self).state(),
    {
        match &mut self.0 {
            InvocationState::Running(link) => Some(link),
            InvocationState::Completed(_) => None,
        }
    }

    /// Takes in the routine's answer to a resume. A yield leaves the
    /// coroutine running; a completion releases the link and its stack. An
    /// unwind on a drop request is no answer to a resume: the caller tests
    /// for it with `drop_acknowledged` and treats it as a protocol violation.
    pub fn receive<Y, R, P>(&mut self, reply: SuspenseType<Y, R, P>) -> (r: Result<
        ResumeResult<Y, R>,
        ResumeError<P>,
    >)
        requires
            old(self).state() is Running,
            !acknowledges_drop(reply),
        ensures
            r == resume_outcome(reply),
            final(self).state() == next_state(old(self).state(), reply),
    {
        match reply {
            SuspenseType::Yield(y) => Ok(ResumeResult::Yield(y)),
            SuspenseType::Complete(CompleteType::Return(r)) => {
                self.0 = InvocationState::Completed(CompleteVariant::Return);
                Ok(ResumeResult::Return(r))
            },
            SuspenseType::Complete(CompleteType::Unwind(reason)) => {
                self.0 = InvocationState::Completed(CompleteVariant::Unwind);
                match reason {
                    UnwindReason::Panic(p) => Err(ResumeError::Panicked(p)),
                    UnwindReason::Drop => unreached(),
                }
            },
        }
    }

    /// Gives up the coroutine: hands out the link of a running one, through
    /// which its routine is to be told to unwind, and marks it completed by
    /// unwind. A completed coroutine has nothing to give up.
    pub fn abandon(&mut self) -> (r: Option<Link>)
        ensures
            match old(self).state() {
                InvocationState::Running(link) => r == Some(link)
                    && final(self).state() == InvocationState::<Link>::Completed(
                    CompleteVariant::Unwind,
                ),
                InvocationState::Completed(_) => r is None && final(self).state() == old(
                    self,
                ).state(),
            },
    {
        let mut state = InvocationState::Completed(CompleteVariant::Unwind);
        core::mem::swap(&mut self.0, &mut state);
        match state {
            InvocationState::Running(link) => Some(link),
            InvocationState::Completed(variant) => {
                self.0 = InvocationState::Completed(variant);
                None
            },
        }
    }
}

/// The routine's answer is an unwind on the invoker's request.
pub open spec fn acknowledges_drop<Y, R, P>(reply: SuspenseType<Y, R, P>) -> bool {
    reply is Complete && reply->Complete_0 is Unwind && reply->Complete_0->Unwind_0 is Drop
}

/// Whether the routine's answer to a drop request is the one the protocol
/// asks for: an unwind on that request. Anything else means that the state
/// machine is corrupt.
pub fn drop_acknowledged<Y, R, P>(reply: &SuspenseType<Y, R, P>) -> (r: bool)
    ensures
        r == acknowledges_drop(*reply),
{
    match reply {
        SuspenseType::Complete(CompleteType::Unwind(UnwindReason::Drop)) => true,
        _ => false,
    }
}

/// The routine's side of a coroutine: the transfer it suspends through, and
/// whether an unwind was requested by the invoker.
pub struct CoroutineChannel<Transfer> {
    transfer: Transfer,
    unwinding: bool,
}

impl<Transfer> CoroutineChannel<Transfer> {
    pub closed spec fn transfer(self) -> Transfer {
        self.transfer
    }

    /// Whether the invoker has asked this routine to unwind.
    pub closed spec fn unwinding(self) -> bool {
        self.unwinding
    }

    pub fn new(transfer: Transfer) -> (r: Self)
        ensures
            r.transfer() == transfer,
            !r.unwinding(),
    {
        CoroutineChannel { transfer, unwinding: false }
    }

    pub fn is_unwinding(&self) -> (r: bool)
        ensures
            r == self.unwinding(),
    {
        self.unwinding
    }

    /// The transfer through which the routine suspends.
    pub fn transfer_mut(&mut self) -> (r: &mut Transfer)
        ensures
            *r == old(self).transfer(),
            final(self).transfer() == *final(r),
            final(self).unwinding() == old(self).unwinding(),
    {
        &mut self.transfer
    }

    /// Takes in the invoker's message. A value is handed on to the routine;
    /// a drop request gives `None` and marks the channel unwinding: the
    /// routine is then to unwind its stack up to its entry.
    pub fn receive<Rx>(&mut self, message: ResumeType<Rx>) -> (r: Option<Rx>)
        ensures
            final(self).transfer() == old(self).transfer(),
            match message {
                ResumeType::Yield(v) => r == Some(v) && final(self).unwinding() == old(
                    self,
                ).unwinding(),
                ResumeType::Drop => r is None && final(self).unwinding(),
            },
    {
        match message {
            ResumeType::Yield(v) => Some(v),
            ResumeType::Drop => {
                self.unwinding = true;
                None
            },
        }
    }

    /// The completion to report once the routine's function has ended with
    /// `outcome`: its return value, or the payload of what it raised. A
    /// raise while unwinding on request is the requested unwind.
    pub fn completion<R, P>(&self, outcome: Result<R, P>) -> (r: CompleteType<R, P>)
        ensures
            r == completion_of(self.unwinding(), outcome),
    {
        match outcome {
            Ok(v) => CompleteType::Return(v),
            Err(p) => if self.unwinding {
                CompleteType::Unwind(UnwindReason::Drop)
            } else {
                CompleteType::Unwind(UnwindReason::Panic(p))
            },
        }
    }
}

/// The completion of a routine whose function ended with `outcome`.
pub open spec fn completion_of<R, P>(unwinding: bool, outcome: Result<R, P>) -> CompleteType<R, P> {
    match outcome {
        Ok(v) => CompleteType::Return(v),
        Err(p) => if unwinding {
            CompleteType::Unwind(UnwindReason::Drop)
        } else {
            CompleteType::Unwind(UnwindReason::Panic(p))
        },
    }
}

/// A coroutine that yielded stays running over the same link, so the next
/// resume is admitted.
pub proof fn lemma_yield_keeps_running<Link, Y, R, P>(s: InvocationState<Link>, y: Y)
    requires
        s is Running,
    ensures
        next_state(s, SuspenseType::<Y, R, P>::Yield(y)) == s,
        admits_resume(next_state(s, SuspenseType::<Y, R, P>::Yield(y))),
        resume_outcome(SuspenseType::<Y, R, P>::Yield(y)) == Ok::<
            ResumeResult<Y, R>,
            ResumeError<P>,
        >(ResumeResult::Yield(y)),
{
}

/// Once the routine has completed, by a return or by a raise, the coroutine
/// is completed and no further resume is admitted; only a return hands the
/// invoker a value.
pub proof fn lemma_completion_is_final<Link, Y, R, P>(
    s: InvocationState<Link>,
    done: CompleteType<R, P>,
)
    requires
        s is Running,
        !(done is Unwind && done->Unwind_0 is Drop),
    ensures
        next_state(s, SuspenseType::<Y, R, P>::Complete(done)) is Completed,
        !admits_resume(next_state(s, SuspenseType::<Y, R, P>::Complete(done))),
        resume_outcome(SuspenseType::<Y, R, P>::Complete(done)) is Ok
            <==> done is Return,
{
}

/// A routine told to unwind reports, whatever payload its unwind carries,
/// exactly the completion that the invoker's drop accepts.
pub proof fn lemma_drop_request_acknowledged<Y, R, P>(payload: P)
    ensures
        acknowledges_drop(
            SuspenseType::<Y, R, P>::Complete(completion_of::<R, P>(true, Err(payload))),
        ),
{
}

} // verus!
