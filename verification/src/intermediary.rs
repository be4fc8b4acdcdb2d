//! Policy-neutral composition of independent downstream and upstream sessions.

use vstd::prelude::*;

use crate::codec::frontend::FrontendView;
use crate::pipeline::{Ledger, NoPipeline, Pipeline, PipelinePolicy, RequestState};

verus! {

/// Result of changing one side while preserving the complete intermediary on rejection.
pub type IntermediaryTransition<Current, Next, Output, Error> = Result<
    (Next, Output),
    (Current, Error),
>;

/// Owns two independently typed sides and optional pipeline orchestration.
///
/// `Downstream` is normally a server-role session facing a client and `Upstream`
/// is normally a client-role session facing `PostgreSQL`. No phase, transport,
/// authentication mechanism, or cleanliness index is coupled between them.
/// `Policy` defaults to [`NoPipeline`]; call [`SessionPair::with_pipeline`] to opt
/// into bounded pipelining without changing either session type.
#[must_use]
#[derive(Debug)]
pub struct SessionPair<Downstream, Upstream, Policy: PipelinePolicy = NoPipeline> {
    downstream: Downstream,
    upstream: Upstream,
    pipeline: Pipeline<Policy>,
}

/// A ledger without operations.
pub open spec fn empty_ledger(limit: nat) -> Ledger {
    Ledger {
        operations: Seq::empty(),
        request: RequestState::Ready,
        response: None,
        next_id: 0,
        limit,
    }
}

impl<Downstream, Upstream> SessionPair<Downstream, Upstream, NoPipeline> {
    /// Pairs two independently established protocol sessions.
    pub fn new(downstream: Downstream, upstream: Upstream) -> (pair: Self)
        ensures
            pair.sides() == (downstream, upstream),
            pair.ledger() == empty_ledger(1),
    {
        SessionPair { downstream, upstream, pipeline: Pipeline::new(NoPipeline) }
    }
}

impl<Downstream, Upstream, Policy: PipelinePolicy> SessionPair<Downstream, Upstream, Policy> {
    /// Both sides.
    pub closed spec fn sides(self) -> (Downstream, Upstream) {
        (self.downstream, self.upstream)
    }

    /// The pipeline's ledger.
    pub closed spec fn ledger(self) -> Ledger {
        self.pipeline@
    }

    /// The pipeline itself.
    pub closed spec fn orchestration(self) -> Pipeline<Policy> {
        self.pipeline
    }

    /// Replaces the pipeline policy while no pipeline operations are outstanding.
    pub fn with_pipeline<Next: PipelinePolicy>(self, policy: Next) -> (pair: SessionPair<
        Downstream,
        Upstream,
        Next,
    >)
        requires
            self.ledger().operations.len() == 0,
        ensures
            pair.sides() == self.sides(),
            pair.ledger() == empty_ledger(policy.operations()),
    {
        SessionPair {
            downstream: self.downstream,
            upstream: self.upstream,
            pipeline: Pipeline::new(policy),
        }
    }

    /// Returns the reusable request/response pipeline component.
    pub fn pipeline(&self) -> (pipeline: &Pipeline<Policy>)
        ensures
            *pipeline == self.orchestration(),
            pipeline@ == self.ledger(),
    {
        &self.pipeline
    }

    /// Returns mutable access to bounded pipeline orchestration.
    pub fn pipeline_mut(&mut self) -> (pipeline: &mut Pipeline<Policy>)
        ensures
            *pipeline == old(self).orchestration(),
            pipeline@ == old(self).ledger(),
            final(self).ledger() == final(pipeline)@,
            final(self).orchestration() == *final(pipeline),
            final(self).sides() == old(self).sides(),
    {
        &mut self.pipeline
    }

    /// Borrows the client-facing side without weakening its typestate.
    pub fn downstream(&self) -> (downstream: &Downstream)
        ensures
            *downstream == self.sides().0,
    {
        &self.downstream
    }

    /// Borrows the upstream-facing side without weakening its typestate.
    pub fn upstream(&self) -> (upstream: &Upstream)
        ensures
            *upstream == self.sides().1,
    {
        &self.upstream
    }

    /// Mutably borrows both sides for transport-level orchestration.
    pub fn sides_mut(&mut self) -> (sides: (&mut Downstream, &mut Upstream))
        ensures
            (*sides.0, *sides.1) == old(self).sides(),
            final(self).sides() == (*final(sides.0), *final(sides.1)),
            final(self).orchestration() == old(self).orchestration(),
            final(self).ledger() == old(self).ledger(),
    {
        (&mut self.downstream, &mut self.upstream)
    }

    /// Deliberately separates the independently typed sessions.
    pub fn into_parts(self) -> (sides: (Downstream, Upstream))
        ensures
            sides == self.sides(),
    {
        (self.downstream, self.upstream)
    }

    /// Applies one fallible downstream transition while retaining the upstream
    /// session unchanged.
    ///
    /// A rejected transition must return its original downstream value, allowing
    /// this method to reconstruct the original intermediary without runtime state.
    ///
    /// # Errors
    ///
    /// Returns the reconstructed intermediary and transition error when the
    /// downstream side rejects the transition.
    pub fn transition_downstream<
        Next,
        Output,
        Error,
        F: FnOnce(Downstream) -> Result<(Next, Output), (Downstream, Error)>,
    >(self, transition: F) -> (result: IntermediaryTransition<
        Self,
        SessionPair<Next, Upstream, Policy>,
        Output,
        Error,
    >)
        requires
            call_requires(transition, (self.sides().0,)),
        ensures
            match result {
                Ok((pair, output)) => call_ensures(
                    transition,
                    (self.sides().0,),
                    Ok::<_, (Downstream, Error)>((pair.sides().0, output)),
                ) && pair.sides().1 == self.sides().1 && pair.orchestration()
                    == self.orchestration() && pair.ledger() == self.ledger(),
                Err((pair, error)) => call_ensures(
                    transition,
                    (self.sides().0,),
                    Err::<(Next, Output), _>((pair.sides().0, error)),
                ) && pair.sides().1 == self.sides().1 && pair.orchestration()
                    == self.orchestration() && pair.ledger() == self.ledger(),
            },
    {
        let SessionPair { downstream, upstream, pipeline } = self;
        match transition(downstream) {
            Ok((downstream, output)) => Ok(
                (SessionPair { downstream, upstream, pipeline }, output),
            ),
            Err((downstream, error)) => Err(
                (SessionPair { downstream, upstream, pipeline }, error),
            ),
        }
    }

    /// Applies one fallible upstream transition while retaining the downstream
    /// session unchanged.
    ///
    /// # Errors
    ///
    /// Returns the reconstructed intermediary and transition error when the
    /// upstream side rejects the transition.
    pub fn transition_upstream<
        Next,
        Output,
        Error,
        F: FnOnce(Upstream) -> Result<(Next, Output), (Upstream, Error)>,
    >(self, transition: F) -> (result: IntermediaryTransition<
        Self,
        SessionPair<Downstream, Next, Policy>,
        Output,
        Error,
    >)
        requires
            call_requires(transition, (self.sides().1,)),
        ensures
            match result {
                Ok((pair, output)) => call_ensures(
                    transition,
                    (self.sides().1,),
                    Ok::<_, (Upstream, Error)>((pair.sides().1, output)),
                ) && pair.sides().0 == self.sides().0 && pair.orchestration()
                    == self.orchestration() && pair.ledger() == self.ledger(),
                Err((pair, error)) => call_ensures(
                    transition,
                    (self.sides().1,),
                    Err::<(Next, Output), _>((pair.sides().1, error)),
                ) && pair.sides().0 == self.sides().0 && pair.orchestration()
                    == self.orchestration() && pair.ledger() == self.ledger(),
            },
    {
        let SessionPair { downstream, upstream, pipeline } = self;
        match transition(upstream) {
            Ok((upstream, output)) => Ok((SessionPair { downstream, upstream, pipeline }, output)),
            Err((upstream, error)) => Err((SessionPair { downstream, upstream, pipeline }, error)),
        }
    }

    /// Runs custom synchronous policy over both sides.
    ///
    /// The message and result types are chosen by downstream code, and neither
    /// session is advanced implicitly. This is a low-level escape hatch: prefer
    /// [`crate::middleware::check_interception`] when rewriting wire messages so
    /// replacements are checked against the current protocol state.
    ///
    /// # Errors
    ///
    /// Returns any error produced by the inspection policy.
    pub fn inspect<
        Message,
        Output,
        Error,
        F: FnOnce(Downstream, Upstream, Message) -> (Downstream, Upstream, Result<Output, Error>),
    >(self, message: Message, inspect: F) -> (result: (Self, Result<Output, Error>))
        requires
            call_requires(inspect, (self.sides().0, self.sides().1, message)),
        ensures
            call_ensures(
                inspect,
                (self.sides().0, self.sides().1, message),
                (result.0.sides().0, result.0.sides().1, result.1),
            ),
            result.0.orchestration() == self.orchestration(),
            result.0.ledger() == self.ledger(),
    {
        let SessionPair { downstream, upstream, pipeline } = self;
        let (downstream, upstream, output) = inspect(downstream, upstream, message);
        (SessionPair { downstream, upstream, pipeline }, output)
    }
}

/// A ledger without operations takes every request that starts a cycle, a query, a
/// function call or termination, as long as it may hold one operation.
pub proof fn law_empty_ledger_takes_requests(limit: nat, message: FrontendView)
    requires
        limit > 0,
    ensures
        empty_ledger(limit).operations.len() == 0,
        empty_ledger(limit).request == RequestState::Ready,
        empty_ledger(limit).refusal(message) is None <==> message is Query
            || message is FunctionCall || message is Parse || message is Bind || message is Describe
            || message is Execute || message is Close || message is Terminate,
{
}

} // verus!
