//! Lifecycle events of one operation invocation and the result of one
//! attempt of its work, together with their spec-level models.

use vstd::prelude::*;

verus! {

/// Result of one completed attempt of an operation's work: success or an
/// expected failure, each with an optional message.
pub enum OperationResult {
    Success(Option<String>),
    Error(Option<String>),
}

/// Spec model of an `OperationResult`: the tag and the optional message.
pub enum ResultModel {
    Success(Option<Seq<char>>),
    Error(Option<Seq<char>>),
}

impl View for OperationResult {
    type V = ResultModel;

    open spec fn view(&self) -> ResultModel {
        match self {
            OperationResult::Success(m) => ResultModel::Success(m.deep_view()),
            OperationResult::Error(m) => ResultModel::Error(m.deep_view()),
        }
    }
}

impl DeepView for OperationResult {
    type V = ResultModel;

    open spec fn deep_view(&self) -> ResultModel {
        self.view()
    }
}

impl ResultModel {
    /// True of a successful result.
    pub open spec fn is_ok(self) -> bool {
        match self {
            ResultModel::Success(_) => true,
            ResultModel::Error(_) => false,
        }
    }
}

impl Clone for OperationResult {
    fn clone(&self) -> (r: Self)
        ensures
            r@ == self@,
    {
        match self {
            OperationResult::Success(m) => OperationResult::Success(clone_opt_string(m)),
            OperationResult::Error(m) => OperationResult::Error(clone_opt_string(m)),
        }
    }
}

impl OperationResult {
    /// Successful result carrying a message.
    pub fn ok_str(m: &str) -> (r: OperationResult)
        ensures
            r@ == ResultModel::Success(Some(m@)),
    {
        OperationResult::Success(Some(m.to_owned()))
    }

    /// Failed result carrying a message.
    pub fn err_str(m: &str) -> (r: OperationResult)
        ensures
            r@ == ResultModel::Error(Some(m@)),
    {
        OperationResult::Error(Some(m.to_owned()))
    }

    /// True of a successful result.
    pub fn is_ok(&self) -> (b: bool)
        ensures
            b == self@.is_ok(),
    {
        match self {
            OperationResult::Success(_) => true,
            OperationResult::Error(_) => false,
        }
    }

    /// True of a failed result.
    pub fn is_err(&self) -> (b: bool)
        ensures
            b == !self@.is_ok(),
    {
        !self.is_ok()
    }
}

/// One externally observable lifecycle event of an invocation.
pub enum OpState {
    Started,
    Succeeded(Option<String>),
    Failed(Option<String>),
    Locked(Option<String>),
    Aborted,
    Panicked(String),
}

/// Spec model of an `OpState` event.
pub enum EventModel {
    Started,
    Succeeded(Option<Seq<char>>),
    Failed(Option<Seq<char>>),
    Locked(Option<Seq<char>>),
    Aborted,
    Panicked(Seq<char>),
}

impl View for OpState {
    type V = EventModel;

    open spec fn view(&self) -> EventModel {
        match self {
            OpState::Started => EventModel::Started,
            OpState::Succeeded(m) => EventModel::Succeeded(m.deep_view()),
            OpState::Failed(m) => EventModel::Failed(m.deep_view()),
            OpState::Locked(m) => EventModel::Locked(m.deep_view()),
            OpState::Aborted => EventModel::Aborted,
            OpState::Panicked(m) => EventModel::Panicked(m@),
        }
    }
}

impl DeepView for OpState {
    type V = EventModel;

    open spec fn deep_view(&self) -> EventModel {
        self.view()
    }
}

impl Clone for OpState {
    fn clone(&self) -> (r: Self)
        ensures
            r@ == self@,
    {
        match self {
            OpState::Started => OpState::Started,
            OpState::Succeeded(m) => OpState::Succeeded(clone_opt_string(m)),
            OpState::Failed(m) => OpState::Failed(clone_opt_string(m)),
            OpState::Locked(m) => OpState::Locked(clone_opt_string(m)),
            OpState::Aborted => OpState::Aborted,
            OpState::Panicked(m) => OpState::Panicked(m.clone()),
        }
    }
}

/// Clone of an optional message.
pub fn clone_opt_string(m: &Option<String>) -> (r: Option<String>)
    ensures
        r.deep_view() == m.deep_view(),
{
    match m {
        Some(s) => Some(s.clone()),
        None => None,
    }
}

impl EventModel {
    /// A terminal event ends the stream of its invocation; every event but
    /// `Started` is terminal.
    pub open spec fn is_terminal(self) -> bool {
        self != EventModel::Started
    }
}

/// A well-formed event stream of one invocation: at least one event, exactly
/// one terminal event standing last, and `Started` nowhere but first.
pub open spec fn wf_stream(s: Seq<EventModel>) -> bool {
    &&& s.len() >= 1
    &&& s.last().is_terminal()
    &&& forall|i: int| 0 <= i < s.len() - 1 ==> !(#[trigger] s[i]).is_terminal()
    &&& forall|i: int| 1 <= i < s.len() ==> #[trigger] s[i] != EventModel::Started
}

} // verus!
