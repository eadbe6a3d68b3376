use vstd::prelude::*;

verus! {

/// The running task(s) behind one rule: one for a single port, one per port
/// for a range.
pub enum ForwardRuleHandler<H> {
    Single(H),
    Multiple(Vec<H>),
}

impl<H> ForwardRuleHandler<H> {
    /// The task handles, in order of port.
    pub open spec fn handles(&self) -> Seq<H> {
        match self {
            ForwardRuleHandler::Single(h) => seq![*h],
            ForwardRuleHandler::Multiple(v) => v@,
        }
    }

    /// The handler of a single-port rule.
    pub fn single(handler: H) -> (r: Self)
        ensures
            r.handles() == seq![handler],
    {
        ForwardRuleHandler::Single(handler)
    }

    /// The handler of a port-range rule.
    pub fn multiple(handlers: Vec<H>) -> (r: Self)
        ensures
            r.handles() == handlers@,
    {
        ForwardRuleHandler::Multiple(handlers)
    }
}

/// tokio's handle of a spawned task, carried through opaquely.
#[verifier::external_type_specification]
#[verifier::external_body]
#[verifier::reject_recursive_types(T)]
pub struct ExJoinHandle<T>(tokio::task::JoinHandle<T>);

/// tokio's error of a failed task, which the handle's `Future` impl names.
#[verifier::external_type_specification]
#[verifier::external_body]
pub struct ExJoinError(tokio::task::JoinError);

/// Relies on tokio's `JoinHandle::abort`: it asks the runtime to cancel the
/// task and returns at once, without waiting for the task to end.
pub assume_specification<T>[ tokio::task::JoinHandle::<T>::abort ](handle: &tokio::task::JoinHandle<T>);

impl ForwardRuleHandler<tokio::task::JoinHandle<()>> {
    /// Asks the runtime to cancel every task of the rule.
    pub fn abort(self) {
        match self {
            ForwardRuleHandler::Single(handler) => {
                handler.abort();
            },
            ForwardRuleHandler::Multiple(handlers) => {
                let mut i: usize = 0;
                while i < handlers.len()
                    invariant
                        i <= handlers@.len(),
                    decreases handlers@.len() - i,
                {
                    handlers[i].abort();
                    i = i + 1;
                }
            },
        }
    }
}

} // verus!
