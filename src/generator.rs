//! Generators: a coroutine seen as a lazy sequence of yielded values with a
//! value returned at the end.
use vstd::prelude::*;
use crate::coroutine::{
    Coroutine,
    CompleteType,
    CompleteVariant,
    acknowledges_drop,
    InvocationState,
    ResumeError,
    ResumeResult,
    SuspenseType,
    next_state,
    resume_outcome,
};

verus! {

/// A producer that is resumed with a `Receive` and yields a `Yield` until it
/// completes.
pub trait Generator {
    type Yield;

    type Receive;

    /// Whether the generator has completed and cannot be resumed any more.
    fn has_completed(&self) -> bool;

    /// Resumes the generator with `send`: `Some` of what it yields, or `None`
    /// once it has completed.
    fn resume(&mut self, send: Self::Receive) -> Option<Self::Yield>;
}

/// A generator that also returns a value when it completes.
pub trait ResultingGenerator: Generator {
    type Return;

    /// The returned value, or `Err(())` when the generator's stack unwound
    /// before its function returned.
    fn result(self) -> Result<Self::Return, ()>;
}

/// A generator that receives nothing meaningful and so can be resumed with
/// `()` alone.
pub trait IgnorantGenerator: Generator<Receive = ()> {

}

/// The generating function's side: how it yields values to its invoker.
pub trait GeneratorChannel {
    type Yield;

    type Receive;

    /// The values yielded through this channel so far, in order. A channel
    /// that keeps a log of what it yielded states it here; the default
    /// records nothing, so only an implementation that overrides it can meet
    /// the contract of `yield_val`.
    closed spec fn yielded(&self) -> Seq<Self::Yield> {
        Seq::empty()
    }

    /// Yields `val` to the invoker and returns what the next resume sends.
    fn yield_val(&mut self, val: Self::Yield) -> (r: Self::Receive)
        ensures
            final(self).yielded() == old(self).yielded().push(val),
    ;

    /// Yields each of `values` once, in order, dropping what is sent back.
    fn yield_all(&mut self, values: Vec<Self::Yield>)
        ensures
            final(self).yielded() == old(self).yielded() + values@,
    {
        let mut rest = values;
        while rest.len() > 0
            invariant
                self.yielded() + rest@ == old(self).yielded() + values@,
            decreases rest.len(),
        {
            let ghost before = self.yielded();
            let ghost rest_before = rest@;
            let v = rest.remove(0);
            self.yield_val(v);
            assert(before + rest_before =~= self.yielded() + rest@);
        }
        assert(self.yielded() + rest@ =~= self.yielded());
    }
}

/// Where a generator stands.
#[derive(Debug)]
pub enum Phase<Return> {
    /// It can be resumed.
    Active,
    /// Its function returned the value.
    Returned(Return),
    /// Its stack unwound before its function returned.
    Aborted,
}

/// The phase of a generator once the routine answered `reply`.
pub open spec fn phase_after<Y, R, P>(phase: Phase<R>, reply: SuspenseType<Y, R, P>) -> Phase<R> {
    match reply {
        SuspenseType::Yield(_) => phase,
        SuspenseType::Complete(CompleteType::Return(r)) => Phase::Returned(r),
        SuspenseType::Complete(CompleteType::Unwind(_)) => Phase::Aborted,
    }
}

/// What a generator's resume hands out once the routine answered `reply`.
pub open spec fn generator_outcome<Y, R, P>(reply: SuspenseType<Y, R, P>) -> Result<
    Option<Y>,
    ResumeError<P>,
>
    recommends
        !acknowledges_drop(reply),
{
    match resume_outcome(reply) {
        Ok(ResumeResult::Yield(y)) => Ok(Some(y)),
        Ok(ResumeResult::Return(_)) => Ok(None),
        Err(e) => Err(e),
    }
}

/// What `result` gives in `phase`.
pub open spec fn result_of<R>(phase: Phase<R>) -> Result<R, ()> {
    match phase {
        Phase::Returned(r) => Ok(r),
        _ => Err(()),
    }
}

/// The phase reached, and the values handed out, when a generator in `phase`
/// is resumed once for each answer of `replies` while it is active.
pub open spec fn drive<Y, R, P>(phase: Phase<R>, replies: Seq<SuspenseType<Y, R, P>>) -> (
    Phase<R>,
    Seq<Y>,
)
    decreases replies.len(),
{
    if replies.len() == 0 {
        (phase, Seq::empty())
    } else {
        let (p, ys) = drive(phase, replies.drop_last());
        if p is Active {
            (
                phase_after(p, replies.last()),
                match generator_outcome(replies.last()) {
                    Ok(Some(y)) => ys.push(y),
                    _ => ys,
                },
            )
        } else {
            (p, ys)
        }
    }
}

/// The answers of a routine that yields `ys` in order and then returns `r`.
pub open spec fn yields_then_return<Y, R, P>(ys: Seq<Y>, r: R) -> Seq<SuspenseType<Y, R, P>> {
    ys.map_values(|y: Y| SuspenseType::Yield(y)).push(
        SuspenseType::Complete(CompleteType::Return(r)),
    )
}

proof fn lemma_drive_yields<Y, R, P>(ys: Seq<Y>)
    ensures
        drive(Phase::<R>::Active, ys.map_values(|y: Y| SuspenseType::<Y, R, P>::Yield(y))) == (
            Phase::<R>::Active,
            ys,
        ),
    decreases ys.len(),
{
    let replies = ys.map_values(|y: Y| SuspenseType::<Y, R, P>::Yield(y));
    if ys.len() > 0 {
        lemma_drive_yields::<Y, R, P>(ys.drop_last());
        assert(replies.drop_last() =~= ys.drop_last().map_values(
            |y: Y| SuspenseType::<Y, R, P>::Yield(y),
        ));
        assert(ys.drop_last().push(ys.last()) =~= ys);
    } else {
        assert(ys =~= Seq::<Y>::empty());
    }
}

/// Iterating a generator whose function yields `ys` and returns `r` to
/// exhaustion hands out exactly `ys`, in order, and completes it with `r`,
/// which `result` then gives.
pub proof fn lemma_generator_yields_in_order<Y, R, P>(ys: Seq<Y>, r: R)
    ensures
        drive(Phase::Active, yields_then_return::<Y, R, P>(ys, r)) == (Phase::Returned(r), ys),
        result_of(Phase::Returned(r)) == Ok::<R, ()>(r),
{
    let replies = yields_then_return::<Y, R, P>(ys, r);
    lemma_drive_yields::<Y, R, P>(ys);
    assert(replies.drop_last() =~= ys.map_values(|y: Y| SuspenseType::<Y, R, P>::Yield(y)));
}

/// A generator whose function never yields: its first resume gives `None`
/// and completes it with the returned value.
pub proof fn lemma_never_yielding<Y, R, P>(r: R)
    ensures
        generator_outcome(SuspenseType::<Y, R, P>::Complete(CompleteType::Return(r))) == Ok::<
            Option<Y>,
            ResumeError<P>,
        >(None),
        drive(Phase::Active, yields_then_return::<Y, R, P>(Seq::empty(), r)) == (
            Phase::Returned(r),
            Seq::<Y>::empty(),
        ),
{
    lemma_generator_yields_in_order::<Y, R, P>(Seq::empty(), r);
}

/// A generator whose function returns a value of the yielded type: the
/// returned value is kept apart, and the values handed out are only those
/// the function yielded.
pub proof fn lemma_return_not_yielded<Y, P>(ys: Seq<Y>, r: Y)
    ensures
        drive(Phase::Active, yields_then_return::<Y, Y, P>(ys, r)).1 == ys,
        drive(Phase::Active, yields_then_return::<Y, Y, P>(ys, r)).0 == Phase::Returned(r),
{
    lemma_generator_yields_in_order::<Y, Y, P>(ys, r);
}

enum BoostedGeneratorState<Link, Return> {
    Running(Coroutine<Link>),
    Completed(Return),
}

/// A generator over a coroutine running over `Link`, which keeps the value
/// returned by its function.
pub struct BoostedGenerator<Link, Return>(BoostedGeneratorState<Link, Return>);

impl<Link, Return> BoostedGenerator<Link, Return> {
    pub closed spec fn phase(self) -> Phase<Return> {
        match self.0 {
            BoostedGeneratorState::Completed(r) => Phase::Returned(r),
            BoostedGeneratorState::Running(co) => if co.state() is Running {
                Phase::Active
            } else {
                Phase::Aborted
            },
        }
    }

    /// The link of an active generator.
    pub closed spec fn link(self) -> Link {
        self.0->Running_0.state()->Running_0
    }

    /// An active generator over `link`, whose function has not run yet.
    pub fn new(link: Link) -> (r: Self)
        ensures
            r.phase() is Active,
            r.link() == link,
    {
        BoostedGenerator(BoostedGeneratorState::Running(Coroutine::new(link)))
    }

    pub fn has_completed(&self) -> (r: bool)
        ensures
            r == !(self.phase() is Active),
    {
        match &self.0 {
            BoostedGeneratorState::Completed(_) => true,
            BoostedGeneratorState::Running(co) => co.is_completed(),
        }
    }

    /// The link to resume the generator through; `None` once it has
    /// completed, when resuming it is a protocol violation.
    pub fn link_mut(&mut self) -> (r: Option<&mut Link>)
        ensures
            (old(self).phase() is Active) == (r is Some),
            old(self).phase() is Active ==> *r->Some_0 == old(self).link()
                && final(self).phase() is Active && final(self).link() == *final(r->Some_0),
            !(old(self).phase() is Active) ==> final(self).phase() == old(self).phase(),
    {
        match &mut self.0 {
            BoostedGeneratorState::Running(co) => co.link_mut(),
            BoostedGeneratorState::Completed(_) => None,
        }
    }

    /// Takes in the routine's answer to a resume: `Some` of a yielded value,
    /// `None` when the function returned, whose value is then kept.
    pub fn receive<Y, P>(&mut self, reply: SuspenseType<Y, Return, P>) -> (r: Result<
        Option<Y>,
        ResumeError<P>,
    >)
        requires
            old(self).phase() is Active,
            !acknowledges_drop(reply),
        ensures
            r == generator_outcome(reply),
            final(self).phase() == phase_after(old(self).phase(), reply),
            reply is Yield ==> final(self).link() == old(self).link(),
    {
        let next = match &mut self.0 {
            BoostedGeneratorState::Running(co) => co.receive(reply),
            BoostedGeneratorState::Completed(_) => unreached(),
        };
        match next {
            Ok(ResumeResult::Yield(y)) => Ok(Some(y)),
            Ok(ResumeResult::Return(r)) => {
                self.0 = BoostedGeneratorState::Completed(r);
                Ok(None)
            },
            Err(e) => Err(e),
        }
    }

    /// Gives up the generator: hands out the link of an active one, through
    /// which its routine is to be told to unwind, and marks it aborted.
    pub fn abandon(&mut self) -> (r: Option<Link>)
        ensures
            (old(self).phase() is Active) == (r is Some),
            old(self).phase() is Active ==> r == Some(old(self).link())
                && final(self).phase() is Aborted,
            !(old(self).phase() is Active) ==> final(self).phase() == old(self).phase(),
    {
        match &mut self.0 {
            BoostedGeneratorState::Running(co) => co.abandon(),
            BoostedGeneratorState::Completed(_) => None,
        }
    }

    /// The value returned by the generator's function, or `Err(())` when its
    /// stack unwound first. Asking before completion is a protocol violation.
    pub fn result(self) -> (r: Result<Return, ()>)
        requires
            !(self.phase() is Active),
        ensures
            r == result_of(self.phase()),
    {
        match self.0 {
            BoostedGeneratorState::Completed(r) => Ok(r),
            BoostedGeneratorState::Running(_) => Err(()),
        }
    }
}

/// A generator whose function returns nothing, over a coroutine running over
/// `Link`.
pub struct BoringGenerator<Link>(Coroutine<Link>);

impl<Link> BoringGenerator<Link> {
    pub closed spec fn state(self) -> InvocationState<Link> {
        self.0.state()
    }

    pub fn new(link: Link) -> (r: Self)
        ensures
            r.state() == InvocationState::Running(link),
    {
        BoringGenerator(Coroutine::new(link))
    }

    pub fn has_completed(&self) -> (r: bool)
        ensures
            r == (self.state() is Completed),
    {
        self.0.is_completed()
    }

    /// The link to resume the generator through; `None` once it has
    /// completed, when its resume gives `None` without switching.
    pub fn link_mut(&mut self) -> (r: Option<&mut Link>)
        ensures
            (old(self).state() is Running) == (r is Some),
            old(self).state() is Running ==> *r->Some_0 == old(self).state()->Running_0
                && final(self).state() == InvocationState::Running(*final(r->Some_0)),
            old(self).state() is Completed ==> final(self).state() == old(self).state(),
    {
        self.0.link_mut()
    }

    /// Gives up the generator: hands out the link of a running one, through
    /// which its routine is to be told to unwind, and marks it completed.
    pub fn abandon(&mut self) -> (r: Option<Link>)
        ensures
            match old(self).state() {
                InvocationState::Running(link) => r == Some(link)
                    && final(self).state() == InvocationState::<Link>::Completed(
                    CompleteVariant::Unwind,
                ),
                InvocationState::Completed(_) => r is None
                    && final(self).state() == old(self).state(),
            },
    {
        self.0.abandon()
    }

    /// Takes in the routine's answer to a resume: `Some` of a yielded value,
    /// `None` once the function returned.
    pub fn receive<Y, P>(&mut self, reply: SuspenseType<Y, (), P>) -> (r: Result<
        Option<Y>,
        ResumeError<P>,
    >)
        requires
            old(self).state() is Running,
            !acknowledges_drop(reply),
        ensures
            r == generator_outcome(reply),
            final(self).state() == next_state(old(self).state(), reply),
    {
        match self.0.receive(reply) {
            Ok(ResumeResult::Yield(y)) => Ok(Some(y)),
            Ok(ResumeResult::Return(_)) => Ok(None),
            Err(e) => Err(e),
        }
    }
}

} // verus!
