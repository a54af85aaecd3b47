//! The participant's round state machine: it waits for new round parameters,
//! takes the role that it was selected for and, after its task, waits again.

use vstd::prelude::*;
use crate::chunking::{message_plan, send_plan};

verus! {

/// The round parameters that the coordinator publishes. The selection
/// fractions are kept as the bit patterns of their floating-point values.
pub struct RoundParams {
    /// The coordinator's public encryption key.
    pub pk: Vec<u8>,
    /// Bit pattern of the fraction of participants selected for the sum task.
    pub sum: u64,
    /// Bit pattern of the fraction of participants selected for the update task.
    pub update: u64,
    /// The random round seed.
    pub seed: Vec<u8>,
    /// The encoded masking configuration.
    pub mask_config: Vec<u8>,
    /// The length of the model.
    pub model_length: usize,
}

/// What round parameters are, as values.
pub struct RoundParamsView {
    pub pk: Seq<u8>,
    pub sum: u64,
    pub update: u64,
    pub seed: Seq<u8>,
    pub mask_config: Seq<u8>,
    pub model_length: usize,
}

impl View for RoundParams {
    type V = RoundParamsView;

    open spec fn view(&self) -> RoundParamsView {
        RoundParamsView {
            pk: self.pk@,
            sum: self.sum,
            update: self.update,
            seed: self.seed@,
            mask_config: self.mask_config@,
            model_length: self.model_length,
        }
    }
}

/// Byte-wise equality of two byte strings.
pub fn bytes_equal(a: &Vec<u8>, b: &Vec<u8>) -> (eq: bool)
    ensures
        eq == (a@ == b@),
{
    if a.len() != b.len() {
        return false;
    }
    let mut i: usize = 0;
    while i < a.len()
        invariant
            a@.len() == b@.len(),
            i <= a@.len(),
            forall|j: int| 0 <= j < i ==> a@[j] == b@[j],
        decreases a@.len() - i,
    {
        if a[i] != b[i] {
            return false;
        }
        i = i + 1;
    }
    assert(a@ =~= b@);
    true
}

/// `n` zero bytes.
pub fn zero_bytes(n: usize) -> (z: Vec<u8>)
    ensures
        z@ == Seq::new(n as nat, |i: int| 0u8),
{
    let mut z: Vec<u8> = Vec::new();
    let mut i: usize = 0;
    while i < n
        invariant
            i <= n,
            z@ == Seq::new(i as nat, |j: int| 0u8),
        decreases n - i,
    {
        z.push(0u8);
        i = i + 1;
        assert(z@ =~= Seq::new(i as nat, |j: int| 0u8));
    }
    z
}

/// A copy of a byte string.
pub fn copy_bytes(v: &Vec<u8>) -> (c: Vec<u8>)
    ensures
        c@ == v@,
{
    let mut c: Vec<u8> = Vec::new();
    let mut i: usize = 0;
    while i < v.len()
        invariant
            i <= v@.len(),
            c@ == v@.take(i as int),
        decreases v@.len() - i,
    {
        c.push(v[i]);
        i = i + 1;
        assert(c@ =~= v@.take(i as int));
    }
    assert(v@.take(v@.len() as int) =~= v@);
    c
}

impl RoundParams {
    /// A copy of these parameters.
    pub fn duplicate(&self) -> (p: RoundParams)
        ensures
            p@ == self@,
    {
        RoundParams {
            pk: copy_bytes(&self.pk),
            sum: self.sum,
            update: self.update,
            seed: copy_bytes(&self.seed),
            mask_config: copy_bytes(&self.mask_config),
            model_length: self.model_length,
        }
    }

    /// The default parameters a participant holds before it has seen any
    /// round: an all-zero 32-byte key and seed, zero fractions, an empty
    /// masking configuration and a zero model length.
    pub open spec fn unset_view() -> RoundParamsView {
        RoundParamsView {
            pk: Seq::new(32, |i: int| 0u8),
            sum: 0,
            update: 0,
            seed: Seq::new(32, |i: int| 0u8),
            mask_config: Seq::empty(),
            model_length: 0,
        }
    }

    /// See [`RoundParams::unset_view`].
    pub fn unset() -> (p: RoundParams)
        ensures
            p@ == Self::unset_view(),
    {
        let p = RoundParams {
            pk: zero_bytes(32),
            sum: 0,
            update: 0,
            seed: zero_bytes(32),
            mask_config: Vec::new(),
            model_length: 0,
        };
        assert(p@ =~= Self::unset_view());
        p
    }

    /// Whether these fetched parameters are those of the round `other`, given
    /// whether their fractions compare equal; see [`same_round`].
    pub fn same_round(&self, other: &RoundParams, fractions_equal: bool) -> (b: bool)
        ensures
            b == same_round(self@, other@, fractions_equal),
    {
        bytes_equal(&self.pk, &other.pk) && bytes_equal(&self.seed, &other.seed) && bytes_equal(
            &self.mask_config,
            &other.mask_config,
        ) && self.model_length == other.model_length && fractions_equal
    }

    /// Whether two sets of round parameters are equal in every field, the
    /// fractions by their bit patterns.
    pub fn equals(&self, other: &RoundParams) -> (eq: bool)
        ensures
            eq == (self@ == other@),
    {
        let r = bytes_equal(&self.pk, &other.pk) && self.sum == other.sum && self.update
            == other.update && bytes_equal(&self.seed, &other.seed) && bytes_equal(
            &self.mask_config,
            &other.mask_config,
        ) && self.model_length == other.model_length;
        proof {
            if self@ == other@ {
                assert(self.pk@ == other.pk@);
                assert(self.seed@ == other.seed@);
                assert(self.mask_config@ == other.mask_config@);
            }
        }
        r
    }
}

/// The states a participant can be in.
#[derive(Clone, Copy, Debug, PartialEq, Eq, Structural)]
pub enum ClientStateName {
    Awaiting,
    Sum,
    Update,
    Sum2,
}

/// The role a participant was selected for in a round.
#[derive(Clone, Copy, Debug, PartialEq, Eq, Structural)]
pub enum Role {
    Unselected,
    Summer,
    Updater,
}

/// Errors of the participant's protocol.
#[derive(Clone, Copy, Debug, PartialEq, Eq, Structural)]
pub enum PetError {
    InvalidMask,
    InvalidModel,
}

/// Error when the cryptography library cannot be initialised.
#[derive(Clone, Copy, Debug, PartialEq, Eq, Structural)]
pub struct InitError;

/// Why a participant's task did not complete.
#[derive(Debug)]
pub enum ClientError<E> {
    /// The coordinator moved on to another round.
    RoundOutdated,
    /// Something the task needs is not available yet.
    TooEarly(&'static str),
    /// The coordinator's API failed.
    Api(E),
    /// The participant could not compose its message.
    ParticipantErr(PetError),
}

/// How a task ended, as far as the state machine cares.
#[derive(Clone, Copy, Debug, PartialEq, Eq, Structural)]
pub enum TaskOutcome {
    Completed,
    Outdated,
    Failed,
}

/// The outcome of a task's result.
pub open spec fn outcome_of<E>(result: Result<(), ClientError<E>>) -> TaskOutcome {
    match result {
        Ok(()) => TaskOutcome::Completed,
        Err(ClientError::RoundOutdated) => TaskOutcome::Outdated,
        Err(_) => TaskOutcome::Failed,
    }
}

/// A participant's state: the round parameters it works with and the
/// participant's public signing key.
pub struct ClientState {
    pub round_params: RoundParams,
    pub participant_pk: Vec<u8>,
}

impl ClientState {
    /// Checks that the round parameters just fetched from the coordinator
    /// (`fetched`) belong to the round this state works in: a failed fetch
    /// is an API error, a different seed means the round is outdated.
    pub fn check_round_freshness<E>(&self, fetched: Result<RoundParams, E>) -> (r: Result<
        (),
        ClientError<E>,
    >)
        ensures
            match fetched {
                Err(e) => r == Err::<(), ClientError<E>>(ClientError::Api(e)),
                Ok(p) => if p.seed@ == self.round_params.seed@ {
                    r is Ok
                } else {
                    r matches Err(ClientError::RoundOutdated)
                },
            },
    {
        match fetched {
            Err(e) => Err(ClientError::Api(e)),
            Ok(p) => {
                if bytes_equal(&p.seed, &self.round_params.seed) {
                    Ok(())
                } else {
                    Err(ClientError::RoundOutdated)
                }
            },
        }
    }

    /// The messages in which a sealed message is sent to the coordinator.
    pub fn send_message_plan(&self, data: Vec<u8>) -> (messages: Vec<Vec<u8>>)
        ensures
            messages@.map_values(|m: Vec<u8>| m@) == send_plan(data@),
    {
        message_plan(data)
    }
}

/// A value that a task needs, or `TooEarly(what)` when it is not there yet.
pub fn require_available<T, E>(value: Option<T>, what: &'static str) -> (r: Result<
    T,
    ClientError<E>,
>)
    ensures
        match value {
            Some(v) => r == Ok::<T, ClientError<E>>(v),
            None => r == Err::<T, ClientError<E>>(ClientError::TooEarly(what)),
        },
{
    match value {
        Some(v) => Ok(v),
        None => Err(ClientError::TooEarly(what)),
    }
}

/// The mask length announced by the coordinator as a `usize`; a length that
/// does not fit is an invalid model.
pub fn mask_length<E>(length: u64) -> (r: Result<usize, ClientError<E>>)
    ensures
        length <= usize::MAX ==> r == Ok::<usize, ClientError<E>>(length as usize),
        length > usize::MAX ==> r == Err::<usize, ClientError<E>>(
            ClientError::ParticipantErr(PetError::InvalidModel),
        ),
{
    if length > usize::MAX as u64 {
        Err(ClientError::ParticipantErr(PetError::InvalidModel))
    } else {
        Ok(length as usize)
    }
}

/// What a participant's task asks for next.
#[derive(Debug)]
pub enum TaskRequest {
    /// Fetch the round parameters from the coordinator.
    FetchRoundParams,
    /// Poll for the local model to send.
    FetchLocalModel,
    /// Fetch the sum dictionary.
    FetchSums,
    /// Fetch the model and mask length.
    FetchMaskLength,
    /// Fetch the seeds addressed to the participant with this public key.
    FetchSeeds(Vec<u8>),
    /// Compose the sum message and seal it with this coordinator key.
    ComposeSum(Vec<u8>),
    /// Compose the update message from the local model and sums and seal it
    /// with this coordinator key.
    ComposeUpdate(Vec<u8>),
    /// Compose the sum2 message for masks of the given length and seal it
    /// with this coordinator key.
    ComposeSum2(Vec<u8>, usize),
    /// Send one message to the coordinator.
    SendMessage(Vec<u8>),
}

/// A request as a value.
pub enum TaskRequestView {
    FetchRoundParams,
    FetchLocalModel,
    FetchSums,
    FetchMaskLength,
    FetchSeeds(Seq<u8>),
    ComposeSum(Seq<u8>),
    ComposeUpdate(Seq<u8>),
    ComposeSum2(Seq<u8>, usize),
    SendMessage(Seq<u8>),
}

impl View for TaskRequest {
    type V = TaskRequestView;

    open spec fn view(&self) -> TaskRequestView {
        match self {
            TaskRequest::FetchRoundParams => TaskRequestView::FetchRoundParams,
            TaskRequest::FetchLocalModel => TaskRequestView::FetchLocalModel,
            TaskRequest::FetchSums => TaskRequestView::FetchSums,
            TaskRequest::FetchMaskLength => TaskRequestView::FetchMaskLength,
            TaskRequest::FetchSeeds(k) => TaskRequestView::FetchSeeds(k@),
            TaskRequest::ComposeSum(k) => TaskRequestView::ComposeSum(k@),
            TaskRequest::ComposeUpdate(k) => TaskRequestView::ComposeUpdate(k@),
            TaskRequest::ComposeSum2(k, l) => TaskRequestView::ComposeSum2(k@, *l),
            TaskRequest::SendMessage(m) => TaskRequestView::SendMessage(m@),
        }
    }
}

/// How far a task has come: what it waits for.
#[derive(Debug)]
pub enum TaskProgress {
    /// Nothing asked yet.
    Start,
    AwaitRoundParams,
    AwaitLocalModel,
    AwaitSums,
    AwaitMaskLength,
    /// Waiting for the seeds, with the mask length.
    AwaitSeeds(usize),
    ComposingSum,
    ComposingUpdate,
    /// Composing the sum2 message, with the mask length.
    ComposingSum2(usize),
    /// Sending the messages, the one at the index being sent.
    Sending(Vec<Vec<u8>>, usize),
}

/// Progress as a value.
pub enum TaskProgressView {
    Start,
    AwaitRoundParams,
    AwaitLocalModel,
    AwaitSums,
    AwaitMaskLength,
    AwaitSeeds(usize),
    ComposingSum,
    ComposingUpdate,
    ComposingSum2(usize),
    Sending(Seq<Seq<u8>>, int),
}

impl View for TaskProgress {
    type V = TaskProgressView;

    open spec fn view(&self) -> TaskProgressView {
        match self {
            TaskProgress::Start => TaskProgressView::Start,
            TaskProgress::AwaitRoundParams => TaskProgressView::AwaitRoundParams,
            TaskProgress::AwaitLocalModel => TaskProgressView::AwaitLocalModel,
            TaskProgress::AwaitSums => TaskProgressView::AwaitSums,
            TaskProgress::AwaitMaskLength => TaskProgressView::AwaitMaskLength,
            TaskProgress::AwaitSeeds(l) => TaskProgressView::AwaitSeeds(*l),
            TaskProgress::ComposingSum => TaskProgressView::ComposingSum,
            TaskProgress::ComposingUpdate => TaskProgressView::ComposingUpdate,
            TaskProgress::ComposingSum2(l) => TaskProgressView::ComposingSum2(*l),
            TaskProgress::Sending(plan, i) => TaskProgressView::Sending(
                plan@.map_values(|m: Vec<u8>| m@),
                *i as int,
            ),
        }
    }
}

impl TaskProgress {
    /// While sending, the index is that of a planned message.
    pub open spec fn well_formed(&self) -> bool {
        match self {
            TaskProgress::Sending(plan, i) => *i < plan@.len(),
            _ => true,
        }
    }
}

/// The answer to a task's request.
pub enum TaskReply<E> {
    /// No request was made yet.
    Begin,
    RoundParams(Result<RoundParams, E>),
    /// Whether a local model is available.
    LocalModel(bool),
    /// Whether the sum dictionary is available, or the API error.
    Sums(Result<bool, E>),
    MaskLength(Result<Option<u64>, E>),
    /// Whether seeds are available, or the API error.
    Seeds(Result<bool, E>),
    /// The sealed message, or why it could not be composed.
    Composed(Result<Vec<u8>, PetError>),
    Sent(Result<(), E>),
}

/// The request that `progress` waits on, in the round with parameters
/// `params` of the participant with public key `participant_pk`.
pub open spec fn pending_request(
    params: RoundParamsView,
    participant_pk: Seq<u8>,
    progress: TaskProgressView,
) -> TaskRequestView {
    match progress {
        TaskProgressView::Start => TaskRequestView::FetchRoundParams,
        TaskProgressView::AwaitRoundParams => TaskRequestView::FetchRoundParams,
        TaskProgressView::AwaitLocalModel => TaskRequestView::FetchLocalModel,
        TaskProgressView::AwaitSums => TaskRequestView::FetchSums,
        TaskProgressView::AwaitMaskLength => TaskRequestView::FetchMaskLength,
        TaskProgressView::AwaitSeeds(_) => TaskRequestView::FetchSeeds(participant_pk),
        TaskProgressView::ComposingSum => TaskRequestView::ComposeSum(params.pk),
        TaskProgressView::ComposingUpdate => TaskRequestView::ComposeUpdate(params.pk),
        TaskProgressView::ComposingSum2(l) => TaskRequestView::ComposeSum2(params.pk, l),
        TaskProgressView::Sending(plan, i) => TaskRequestView::SendMessage(plan[i]),
    }
}

/// A step of a task as a value: the next progress and request, or the
/// task's result.
pub type TaskStepView<E> = Result<(TaskProgressView, TaskRequestView), Result<(), ClientError<E>>>;

/// The value of a step's result.
pub open spec fn step_view<E>(r: Result<(TaskProgress, TaskRequest), Result<(), ClientError<E>>>) -> TaskStepView<E> {
    match r {
        Ok((p, q)) => Ok((p@, q@)),
        Err(x) => Err(x),
    }
}

/// Going on with `progress`, asking again for what it waits on.
pub open spec fn keep_waiting<E>(
    params: RoundParamsView,
    participant_pk: Seq<u8>,
    progress: TaskProgressView,
) -> TaskStepView<E> {
    Ok((progress, pending_request(params, participant_pk, progress)))
}

/// One step of the task of state `name` in the round with parameters
/// `params`, given the reply to the last request.
///
/// - Messages are composed and sealed with the round's coordinator key, and
///   seeds are fetched for the participant's own public key.
/// - A sum task checks that the round is current, composes the sum message
///   and sends it.
/// - An update task checks the round, polls for the local model (missing:
///   too early), fetches the sum dictionary (missing: too early), composes
///   the update message and sends it.
/// - A sum2 task checks the round, fetches the mask length (missing: too
///   early; beyond `usize`: an invalid model), fetches the seeds (missing:
///   too early), composes the sum2 message and sends it.
/// - The round is current when the fetched seed is the round's seed;
///   otherwise the task ends as outdated. API failures end the task with the
///   API error, composing failures with the participant's error.
/// - The sealed message is sent as [`send_plan`] cuts it, message by
///   message; the task completes when the last one is sent.
/// - An awaiting participant has no task. A reply that does not answer the
///   pending request is ignored and the request repeated. Progress that
///   belongs to another state's task (see [`progress_of`]) starts this
///   state's task afresh.
pub open spec fn task_step_spec<E>(
    params: RoundParamsView,
    participant_pk: Seq<u8>,
    name: ClientStateName,
    progress: TaskProgressView,
    reply: TaskReply<E>,
) -> TaskStepView<E> {
    if !progress_of(name, progress) {
        task_start(name)
    } else {
        task_step_own(params, participant_pk, name, progress, reply)
    }
}

/// The first step of the task of state `name`: fetching the round
/// parameters; an awaiting participant has no task.
pub open spec fn task_start<E>(name: ClientStateName) -> TaskStepView<E> {
    if name == ClientStateName::Awaiting {
        Err(Ok(()))
    } else {
        Ok((TaskProgressView::AwaitRoundParams, TaskRequestView::FetchRoundParams))
    }
}

/// A step of the task of state `name` from progress of that task.
pub open spec fn task_step_own<E>(
    params: RoundParamsView,
    participant_pk: Seq<u8>,
    name: ClientStateName,
    progress: TaskProgressView,
    reply: TaskReply<E>,
) -> TaskStepView<E> {
    match progress {
        TaskProgressView::Start => task_start(name),
        TaskProgressView::AwaitRoundParams => match reply {
            TaskReply::RoundParams(Err(e)) => Err(Err(ClientError::Api(e))),
            TaskReply::RoundParams(Ok(p)) => if p.seed@ != params.seed {
                Err(Err(ClientError::RoundOutdated))
            } else {
                match name {
                    ClientStateName::Sum => Ok(
                        (TaskProgressView::ComposingSum, TaskRequestView::ComposeSum(params.pk)),
                    ),
                    ClientStateName::Update => Ok(
                        (TaskProgressView::AwaitLocalModel, TaskRequestView::FetchLocalModel),
                    ),
                    ClientStateName::Sum2 => Ok(
                        (TaskProgressView::AwaitMaskLength, TaskRequestView::FetchMaskLength),
                    ),
                    ClientStateName::Awaiting => Err(Ok(())),
                }
            },
            _ => keep_waiting(params, participant_pk, progress),
        },
        TaskProgressView::AwaitLocalModel => match reply {
            TaskReply::LocalModel(available) => if available {
                Ok((TaskProgressView::AwaitSums, TaskRequestView::FetchSums))
            } else {
                Err(Err(ClientError::TooEarly("local model")))
            },
            _ => keep_waiting(params, participant_pk, progress),
        },
        TaskProgressView::AwaitSums => match reply {
            TaskReply::Sums(Err(e)) => Err(Err(ClientError::Api(e))),
            TaskReply::Sums(Ok(available)) => if available {
                Ok((TaskProgressView::ComposingUpdate, TaskRequestView::ComposeUpdate(params.pk)))
            } else {
                Err(Err(ClientError::TooEarly("sum dict")))
            },
            _ => keep_waiting(params, participant_pk, progress),
        },
        TaskProgressView::AwaitMaskLength => match reply {
            TaskReply::MaskLength(Err(e)) => Err(Err(ClientError::Api(e))),
            TaskReply::MaskLength(Ok(None)) => Err(Err(ClientError::TooEarly("length"))),
            TaskReply::MaskLength(Ok(Some(length))) => if length > usize::MAX {
                Err(Err(ClientError::ParticipantErr(PetError::InvalidModel)))
            } else {
                Ok(
                    (TaskProgressView::AwaitSeeds(length as usize), TaskRequestView::FetchSeeds(participant_pk)),
                )
            },
            _ => keep_waiting(params, participant_pk, progress),
        },
        TaskProgressView::AwaitSeeds(length) => match reply {
            TaskReply::Seeds(Err(e)) => Err(Err(ClientError::Api(e))),
            TaskReply::Seeds(Ok(available)) => if available {
                Ok(
                    (TaskProgressView::ComposingSum2(length), TaskRequestView::ComposeSum2(params.pk, length)),
                )
            } else {
                Err(Err(ClientError::TooEarly("seeds")))
            },
            _ => keep_waiting(params, participant_pk, progress),
        },
        TaskProgressView::Sending(plan, i) => match reply {
            TaskReply::Sent(Err(e)) => Err(Err(ClientError::Api(e))),
            TaskReply::Sent(Ok(())) => if i + 1 < plan.len() {
                Ok((TaskProgressView::Sending(plan, i + 1), TaskRequestView::SendMessage(plan[i + 1])))
            } else {
                Err(Ok(()))
            },
            _ => keep_waiting(params, participant_pk, progress),
        },
        _ => match reply {
            TaskReply::Composed(Err(p)) => Err(Err(ClientError::ParticipantErr(p))),
            TaskReply::Composed(Ok(sealed)) => Ok(
                (
                    TaskProgressView::Sending(send_plan(sealed@), 0),
                    TaskRequestView::SendMessage(send_plan(sealed@)[0]),
                ),
            ),
            _ => keep_waiting(params, participant_pk, progress),
        },
    }
}

impl TaskProgress {
    /// See [`progress_of`].
    pub fn belongs_to(&self, name: ClientStateName) -> (b: bool)
        ensures
            b == progress_of(name, self@),
    {
        match self {
            TaskProgress::AwaitLocalModel | TaskProgress::AwaitSums | TaskProgress::ComposingUpdate =>
                name == ClientStateName::Update,
            TaskProgress::AwaitMaskLength | TaskProgress::AwaitSeeds(_)
            | TaskProgress::ComposingSum2(_) => name == ClientStateName::Sum2,
            TaskProgress::ComposingSum => name == ClientStateName::Sum,
            _ => true,
        }
    }

    /// The request this progress waits on in the task of `state`.
    pub fn pending(&self, state: &ClientState) -> (q: TaskRequest)
        requires
            self.well_formed(),
        ensures
            q@ == pending_request(state.round_params@, state.participant_pk@, self@),
    {
        match self {
            TaskProgress::Start => TaskRequest::FetchRoundParams,
            TaskProgress::AwaitRoundParams => TaskRequest::FetchRoundParams,
            TaskProgress::AwaitLocalModel => TaskRequest::FetchLocalModel,
            TaskProgress::AwaitSums => TaskRequest::FetchSums,
            TaskProgress::AwaitMaskLength => TaskRequest::FetchMaskLength,
            TaskProgress::AwaitSeeds(_) => TaskRequest::FetchSeeds(copy_bytes(&state.participant_pk)),
            TaskProgress::ComposingSum => TaskRequest::ComposeSum(copy_bytes(&state.round_params.pk)),
            TaskProgress::ComposingUpdate => TaskRequest::ComposeUpdate(
                copy_bytes(&state.round_params.pk),
            ),
            TaskProgress::ComposingSum2(l) => TaskRequest::ComposeSum2(
                copy_bytes(&state.round_params.pk),
                *l,
            ),
            TaskProgress::Sending(plan, i) => TaskRequest::SendMessage(copy_bytes(&plan[*i])),
        }
    }
}

impl ClientState {
    /// One step of the task that the participant in state `name` runs in
    /// this state's round; see [`task_step_spec`]. `Err` holds the task's
    /// result once it has ended.
    pub fn task_step<E>(&self, name: ClientStateName, progress: TaskProgress, reply: TaskReply<E>) -> (r:
        Result<(TaskProgress, TaskRequest), Result<(), ClientError<E>>>)
        requires
            progress.well_formed(),
        ensures
            step_view(r) == task_step_spec(
                self.round_params@,
                self.participant_pk@,
                name,
                progress@,
                reply,
            ),
            r matches Ok((p, _)) ==> p.well_formed(),
    {
        if !progress.belongs_to(name) {
            return if name == ClientStateName::Awaiting {
                Err(Ok(()))
            } else {
                Ok((TaskProgress::AwaitRoundParams, TaskRequest::FetchRoundParams))
            };
        }
        match progress {
            TaskProgress::Start => {
                if name == ClientStateName::Awaiting {
                    Err(Ok(()))
                } else {
                    Ok((TaskProgress::AwaitRoundParams, TaskRequest::FetchRoundParams))
                }
            },
            TaskProgress::AwaitRoundParams => match reply {
                TaskReply::RoundParams(Err(e)) => Err(Err(ClientError::Api(e))),
                TaskReply::RoundParams(Ok(p)) => {
                    if !bytes_equal(&p.seed, &self.round_params.seed) {
                        Err(Err(ClientError::RoundOutdated))
                    } else {
                        match name {
                            ClientStateName::Sum => Ok(
                                (
                                    TaskProgress::ComposingSum,
                                    TaskRequest::ComposeSum(copy_bytes(&self.round_params.pk)),
                                ),
                            ),
                            ClientStateName::Update => Ok(
                                (TaskProgress::AwaitLocalModel, TaskRequest::FetchLocalModel),
                            ),
                            ClientStateName::Sum2 => Ok(
                                (TaskProgress::AwaitMaskLength, TaskRequest::FetchMaskLength),
                            ),
                            ClientStateName::Awaiting => Err(Ok(())),
                        }
                    }
                },
                _ => Ok((TaskProgress::AwaitRoundParams, TaskRequest::FetchRoundParams)),
            },
            TaskProgress::AwaitLocalModel => match reply {
                TaskReply::LocalModel(available) => {
                    if available {
                        Ok((TaskProgress::AwaitSums, TaskRequest::FetchSums))
                    } else {
                        Err(Err(ClientError::TooEarly("local model")))
                    }
                },
                _ => Ok((TaskProgress::AwaitLocalModel, TaskRequest::FetchLocalModel)),
            },
            TaskProgress::AwaitSums => match reply {
                TaskReply::Sums(Err(e)) => Err(Err(ClientError::Api(e))),
                TaskReply::Sums(Ok(available)) => {
                    if available {
                        Ok(
                            (
                                TaskProgress::ComposingUpdate,
                                TaskRequest::ComposeUpdate(copy_bytes(&self.round_params.pk)),
                            ),
                        )
                    } else {
                        Err(Err(ClientError::TooEarly("sum dict")))
                    }
                },
                _ => Ok((TaskProgress::AwaitSums, TaskRequest::FetchSums)),
            },
            TaskProgress::AwaitMaskLength => match reply {
                TaskReply::MaskLength(Err(e)) => Err(Err(ClientError::Api(e))),
                TaskReply::MaskLength(Ok(None)) => Err(Err(ClientError::TooEarly("length"))),
                TaskReply::MaskLength(Ok(Some(length))) => {
                    if length > usize::MAX as u64 {
                        Err(Err(ClientError::ParticipantErr(PetError::InvalidModel)))
                    } else {
                        let l = length as usize;
                        Ok(
                            (
                                TaskProgress::AwaitSeeds(l),
                                TaskRequest::FetchSeeds(copy_bytes(&self.participant_pk)),
                            ),
                        )
                    }
                },
                _ => Ok((TaskProgress::AwaitMaskLength, TaskRequest::FetchMaskLength)),
            },
            TaskProgress::AwaitSeeds(length) => match reply {
                TaskReply::Seeds(Err(e)) => Err(Err(ClientError::Api(e))),
                TaskReply::Seeds(Ok(available)) => {
                    if available {
                        Ok(
                            (
                                TaskProgress::ComposingSum2(length),
                                TaskRequest::ComposeSum2(copy_bytes(&self.round_params.pk), length),
                            ),
                        )
                    } else {
                        Err(Err(ClientError::TooEarly("seeds")))
                    }
                },
                _ => Ok(
                    (
                        TaskProgress::AwaitSeeds(length),
                        TaskRequest::FetchSeeds(copy_bytes(&self.participant_pk)),
                    ),
                ),
            },
            TaskProgress::Sending(plan, i) => match reply {
                TaskReply::Sent(Err(e)) => Err(Err(ClientError::Api(e))),
                TaskReply::Sent(Ok(())) => {
                    if i < plan.len() - 1 {
                        let next = copy_bytes(&plan[i + 1]);
                        let q = TaskRequest::SendMessage(next);
                        Ok((TaskProgress::Sending(plan, i + 1), q))
                    } else {
                        Err(Ok(()))
                    }
                },
                _ => {
                    let current = copy_bytes(&plan[i]);
                    Ok((TaskProgress::Sending(plan, i), TaskRequest::SendMessage(current)))
                },
            },
            composing => match reply {
                TaskReply::Composed(Err(p)) => Err(Err(ClientError::ParticipantErr(p))),
                TaskReply::Composed(Ok(sealed)) => {
                    let ghost sealed_view = sealed@;
                    proof {
                        crate::chunking::lemma_send_plan_properties(sealed_view);
                    }
                    let plan = message_plan(sealed);
                    assert(plan@.map_values(|m: Vec<u8>| m@)[0] == plan@[0]@);
                    let first = copy_bytes(&plan[0]);
                    Ok((TaskProgress::Sending(plan, 0), TaskRequest::SendMessage(first)))
                },
                _ => {
                    let q = composing.pending(self);
                    Ok((composing, q))
                },
            },
        }
    }
}

/// A participant's state as values: its state name, round parameters and
/// public signing key.
pub struct ClientView {
    pub name: ClientStateName,
    pub params: RoundParamsView,
    pub participant_pk: Seq<u8>,
}

/// Whether fetched parameters `a` are those of the round `b`: equal key,
/// seed, masking configuration and model length, and selection fractions
/// that compare equal as floating-point numbers (`fractions_equal`).
pub open spec fn same_round(a: RoundParamsView, b: RoundParamsView, fractions_equal: bool) -> bool {
    &&& a.pk == b.pk
    &&& a.seed == b.seed
    &&& a.mask_config == b.mask_config
    &&& a.model_length == b.model_length
    &&& fractions_equal
}

/// What an awaiting participant does with the result of fetching the round
/// parameters (`None` when the fetch failed, else the parameters, whether
/// their fractions equal the current ones, and the role the participant has
/// for them): on a failure it resets and keeps waiting; on the parameters
/// of the round it already has it keeps waiting; on new parameters it takes
/// them and moves to the state of its role.
pub open spec fn awaiting_next(s: ClientView, fetched: Option<(RoundParamsView, bool, Role)>) -> ClientView {
    match fetched {
        None => s,
        Some((p, fractions_equal, role)) => if same_round(p, s.params, fractions_equal) {
            s
        } else {
            ClientView {
                name: match role {
                    Role::Unselected => ClientStateName::Awaiting,
                    Role::Summer => ClientStateName::Sum,
                    Role::Updater => ClientStateName::Update,
                },
                params: p,
                participant_pk: s.participant_pk,
            }
        },
    }
}

/// What a participant does when its task ends: a completed sum task leads
/// to the sum2 state; a completed or outdated update or sum2 task, and an
/// outdated sum task, reset the participant to waiting; a failed task is
/// retried in the same state. An awaiting participant has no task.
pub open spec fn task_next(s: ClientView, outcome: TaskOutcome) -> ClientView {
    let name = match s.name {
        ClientStateName::Awaiting => ClientStateName::Awaiting,
        ClientStateName::Sum => match outcome {
            TaskOutcome::Completed => ClientStateName::Sum2,
            TaskOutcome::Outdated => ClientStateName::Awaiting,
            TaskOutcome::Failed => ClientStateName::Sum,
        },
        ClientStateName::Update => match outcome {
            TaskOutcome::Failed => ClientStateName::Update,
            _ => ClientStateName::Awaiting,
        },
        ClientStateName::Sum2 => match outcome {
            TaskOutcome::Failed => ClientStateName::Sum2,
            _ => ClientStateName::Awaiting,
        },
    };
    ClientView { name, params: s.params, participant_pk: s.participant_pk }
}

/// What happened since the state machine last moved.
pub enum ClientEvent<E> {
    /// The round parameters were fetched (with whether their selection
    /// fractions compare equal, as floating-point numbers, to those of the
    /// current round, and the role the participant has for them), or
    /// fetching them failed.
    RoundParamsFetched(Result<(RoundParams, bool, Role), E>),
    /// The task of the current state ended.
    TaskFinished(Result<(), ClientError<E>>),
}

/// The fetched parameters and role as values, `None` for a failed fetch.
pub open spec fn fetched_view<E>(fetched: Result<(RoundParams, bool, Role), E>) -> Option<
    (RoundParamsView, bool, Role),
> {
    match fetched {
        Ok((p, fractions_equal, role)) => Some((p@, fractions_equal, role)),
        Err(_) => None,
    }
}

/// The participant's state machine.
pub enum ClientStateMachine {
    Awaiting(ClientState),
    Sum(ClientState),
    Update(ClientState),
    Sum2(ClientState),
}

impl View for ClientStateMachine {
    type V = ClientView;

    open spec fn view(&self) -> ClientView {
        match self {
            ClientStateMachine::Awaiting(s) => ClientView {
                name: ClientStateName::Awaiting,
                params: s.round_params@,
                participant_pk: s.participant_pk@,
            },
            ClientStateMachine::Sum(s) => ClientView {
                name: ClientStateName::Sum,
                params: s.round_params@,
                participant_pk: s.participant_pk@,
            },
            ClientStateMachine::Update(s) => ClientView {
                name: ClientStateName::Update,
                params: s.round_params@,
                participant_pk: s.participant_pk@,
            },
            ClientStateMachine::Sum2(s) => ClientView {
                name: ClientStateName::Sum2,
                params: s.round_params@,
                participant_pk: s.participant_pk@,
            },
        }
    }
}

/// A new participant with public key `participant_pk`: waiting, with the
/// default round parameters.
pub open spec fn initial_view(participant_pk: Seq<u8>) -> ClientView {
    ClientView {
        name: ClientStateName::Awaiting,
        params: RoundParams::unset_view(),
        participant_pk,
    }
}

/// The state machine moved by one event.
pub open spec fn client_next<E>(s: ClientView, event: ClientEvent<E>) -> ClientView {
    match event {
        ClientEvent::RoundParamsFetched(fetched) => if s.name == ClientStateName::Awaiting {
            awaiting_next(s, fetched_view(fetched))
        } else {
            s
        },
        ClientEvent::TaskFinished(result) => task_next(s, outcome_of(result)),
    }
}

impl ClientStateMachine {
    /// Initialises the cryptography library, then does what
    /// [`Self::new_with`] says with its result.
    pub fn new(participant_pk: Vec<u8>) -> (r: Result<ClientStateMachine, InitError>)
        ensures
            r matches Ok(m) ==> m@ == initial_view(participant_pk@),
    {
        let crypto = sodiumoxide::init();
        Self::new_with(participant_pk, crypto)
    }

    /// The participant with public key `participant_pk` once the
    /// cryptography library was initialised (`crypto`): `InitError` when
    /// that failed, else waiting with the default round parameters.
    pub fn new_with(participant_pk: Vec<u8>, crypto: Result<(), ()>) -> (r: Result<
        ClientStateMachine,
        InitError,
    >)
        ensures
            crypto is Err ==> r == Err::<ClientStateMachine, InitError>(InitError),
            crypto is Ok ==> (r matches Ok(m) && m@ == initial_view(participant_pk@)),
    {
        match crypto {
            Ok(()) => Ok(
                ClientStateMachine::Awaiting(
                    ClientState { round_params: RoundParams::unset(), participant_pk },
                ),
            ),
            Err(()) => Err(InitError),
        }
    }

    /// The name of the current state.
    pub fn state_name(&self) -> (n: ClientStateName)
        ensures
            n == self@.name,
    {
        match self {
            ClientStateMachine::Awaiting(_) => ClientStateName::Awaiting,
            ClientStateMachine::Sum(_) => ClientStateName::Sum,
            ClientStateMachine::Update(_) => ClientStateName::Update,
            ClientStateMachine::Sum2(_) => ClientStateName::Sum2,
        }
    }

    /// The round parameters the participant works with.
    pub fn round_params(&self) -> (p: &RoundParams)
        ensures
            p@ == self@.params,
    {
        match self {
            ClientStateMachine::Awaiting(s) => &s.round_params,
            ClientStateMachine::Sum(s) => &s.round_params,
            ClientStateMachine::Update(s) => &s.round_params,
            ClientStateMachine::Sum2(s) => &s.round_params,
        }
    }

    /// Moves the state machine by one event. An event that does not belong
    /// to the current state (a fetch outside the awaiting state, a task end
    /// in it) leaves it unchanged.
    pub fn next<E>(self, event: ClientEvent<E>) -> (r: ClientStateMachine)
        ensures
            r@ == client_next(self@, event),
    {
        match event {
            ClientEvent::RoundParamsFetched(fetched) => match self {
                ClientStateMachine::Awaiting(state) => match fetched {
                    Err(_) => ClientStateMachine::Awaiting(state),
                    Ok((params, fractions_equal, role)) => {
                        if params.same_round(&state.round_params, fractions_equal) {
                            ClientStateMachine::Awaiting(state)
                        } else {
                            let next_state = ClientState {
                                round_params: params,
                                participant_pk: state.participant_pk,
                            };
                            match role {
                                Role::Unselected => ClientStateMachine::Awaiting(next_state),
                                Role::Summer => ClientStateMachine::Sum(next_state),
                                Role::Updater => ClientStateMachine::Update(next_state),
                            }
                        }
                    },
                },
                other => other,
            },
            ClientEvent::TaskFinished(result) => {
                let outdated = match &result {
                    Err(ClientError::RoundOutdated) => true,
                    _ => false,
                };
                match self {
                    ClientStateMachine::Awaiting(state) => ClientStateMachine::Awaiting(state),
                    ClientStateMachine::Sum(state) => {
                        if result.is_ok() {
                            ClientStateMachine::Sum2(state)
                        } else if outdated {
                            ClientStateMachine::Awaiting(state)
                        } else {
                            ClientStateMachine::Sum(state)
                        }
                    },
                    ClientStateMachine::Update(state) => {
                        if result.is_ok() || outdated {
                            ClientStateMachine::Awaiting(state)
                        } else {
                            ClientStateMachine::Update(state)
                        }
                    },
                    ClientStateMachine::Sum2(state) => {
                        if result.is_ok() || outdated {
                            ClientStateMachine::Awaiting(state)
                        } else {
                            ClientStateMachine::Sum2(state)
                        }
                    },
                }
            },
        }
    }
}


/// A participant selected for the sum task in a new round goes through the
/// sum and sum2 states and, when both tasks complete, waits again with the
/// round's parameters.
pub proof fn lemma_sum_participant_round(s: ClientView, p: RoundParamsView, fractions_equal: bool)
    requires
        s.name == ClientStateName::Awaiting,
        !same_round(p, s.params, fractions_equal),
    ensures
        ({
            let s1 = awaiting_next(s, Some((p, fractions_equal, Role::Summer)));
            let s2 = task_next(s1, TaskOutcome::Completed);
            let s3 = task_next(s2, TaskOutcome::Completed);
            &&& s1 == ClientView { name: ClientStateName::Sum, params: p, participant_pk: s.participant_pk }
            &&& s2 == ClientView { name: ClientStateName::Sum2, params: p, participant_pk: s.participant_pk }
            &&& s3 == ClientView { name: ClientStateName::Awaiting, params: p, participant_pk: s.participant_pk }
        }),
{
}

/// A participant selected for the update task in a new round goes to the
/// update state and, when the task completes, waits again with the round's
/// parameters.
pub proof fn lemma_update_participant_round(s: ClientView, p: RoundParamsView, fractions_equal: bool)
    requires
        s.name == ClientStateName::Awaiting,
        !same_round(p, s.params, fractions_equal),
    ensures
        ({
            let s1 = awaiting_next(s, Some((p, fractions_equal, Role::Updater)));
            let s2 = task_next(s1, TaskOutcome::Completed);
            &&& s1 == ClientView { name: ClientStateName::Update, params: p, participant_pk: s.participant_pk }
            &&& s2 == ClientView { name: ClientStateName::Awaiting, params: p, participant_pk: s.participant_pk }
        }),
{
}

/// A waiting participant stays as it is when fetching the round parameters
/// fails or gives the parameters it already has, whatever its role.
pub proof fn lemma_known_round_keeps_waiting(s: ClientView, role: Role)
    ensures
        awaiting_next(s, None) == s,
        awaiting_next(s, Some((s.params, true, role))) == s,
{
}

/// A task that ends with any error but an outdated round leaves the
/// participant as it was, in the same state with the same round
/// parameters, so that the task is retried.
pub proof fn lemma_errors_keep_state<E>(s: ClientView, e: ClientError<E>)
    requires
        !(e is RoundOutdated),
    ensures
        outcome_of(Err::<(), ClientError<E>>(e)) == TaskOutcome::Failed,
        client_next(s, ClientEvent::TaskFinished(Err(e))) == s,
{
}

/// The end of a task never changes the round parameters, and a failed task
/// leaves the state as it was, to be retried.
pub proof fn lemma_task_keeps_round(s: ClientView, outcome: TaskOutcome)
    ensures
        task_next(s, outcome).params == s.params,
        task_next(s, TaskOutcome::Failed) == s,
{
}

/// Whatever its state, a participant waits again after at most two tasks
/// that did not fail.
pub proof fn lemma_back_to_waiting(s: ClientView, first: TaskOutcome, second: TaskOutcome)
    requires
        first != TaskOutcome::Failed,
        second != TaskOutcome::Failed,
    ensures
        task_next(task_next(s, first), second).name == ClientStateName::Awaiting,
{
}


/// An update task whose replies all succeed fetches the round parameters,
/// polls for the local model, fetches the sum dictionary, composes the
/// update message and then sends its first planned message.
pub proof fn lemma_update_task_requests<E>(
    params: RoundParamsView,
    pk: Seq<u8>,
    fetched: RoundParams,
    sealed: Vec<u8>,
)
    requires
        fetched@.seed == params.seed,
    ensures
        task_step_spec::<E>(params, pk, ClientStateName::Update, TaskProgressView::Start, TaskReply::Begin)
            == Ok::<(TaskProgressView, TaskRequestView), Result<(), ClientError<E>>>(
            (TaskProgressView::AwaitRoundParams, TaskRequestView::FetchRoundParams),
        ),
        task_step_spec::<E>(
            params,
            pk,
            ClientStateName::Update,
            TaskProgressView::AwaitRoundParams,
            TaskReply::RoundParams(Ok(fetched)),
        ) == Ok::<(TaskProgressView, TaskRequestView), Result<(), ClientError<E>>>(
            (TaskProgressView::AwaitLocalModel, TaskRequestView::FetchLocalModel),
        ),
        task_step_spec::<E>(
            params,
            pk,
            ClientStateName::Update,
            TaskProgressView::AwaitLocalModel,
            TaskReply::LocalModel(true),
        ) == Ok::<(TaskProgressView, TaskRequestView), Result<(), ClientError<E>>>(
            (TaskProgressView::AwaitSums, TaskRequestView::FetchSums),
        ),
        task_step_spec::<E>(
            params,
            pk,
            ClientStateName::Update,
            TaskProgressView::AwaitSums,
            TaskReply::Sums(Ok(true)),
        ) == Ok::<(TaskProgressView, TaskRequestView), Result<(), ClientError<E>>>(
            (TaskProgressView::ComposingUpdate, TaskRequestView::ComposeUpdate(params.pk)),
        ),
        task_step_spec::<E>(
            params,
            pk,
            ClientStateName::Update,
            TaskProgressView::ComposingUpdate,
            TaskReply::Composed(Ok(sealed)),
        ) == Ok::<(TaskProgressView, TaskRequestView), Result<(), ClientError<E>>>(
            (
                TaskProgressView::Sending(send_plan(sealed@), 0),
                TaskRequestView::SendMessage(send_plan(sealed@)[0]),
            ),
        ),
{
}

/// A sum task in a current round (the fetched seed is the round's seed)
/// fetches the round parameters, then composes the sum message sealed with
/// the round's coordinator key and sends its first planned message; it does
/// not end before that.
pub proof fn lemma_sum_task_requests<E>(
    params: RoundParamsView,
    pk: Seq<u8>,
    fetched: RoundParams,
    sealed: Vec<u8>,
)
    requires
        fetched@.seed == params.seed,
    ensures
        task_step_spec::<E>(params, pk, ClientStateName::Sum, TaskProgressView::Start, TaskReply::Begin)
            == Ok::<(TaskProgressView, TaskRequestView), Result<(), ClientError<E>>>(
            (TaskProgressView::AwaitRoundParams, TaskRequestView::FetchRoundParams),
        ),
        task_step_spec::<E>(
            params,
            pk,
            ClientStateName::Sum,
            TaskProgressView::AwaitRoundParams,
            TaskReply::RoundParams(Ok(fetched)),
        ) == Ok::<(TaskProgressView, TaskRequestView), Result<(), ClientError<E>>>(
            (TaskProgressView::ComposingSum, TaskRequestView::ComposeSum(params.pk)),
        ),
        task_step_spec::<E>(
            params,
            pk,
            ClientStateName::Sum,
            TaskProgressView::ComposingSum,
            TaskReply::Composed(Ok(sealed)),
        ) == Ok::<(TaskProgressView, TaskRequestView), Result<(), ClientError<E>>>(
            (
                TaskProgressView::Sending(send_plan(sealed@), 0),
                TaskRequestView::SendMessage(send_plan(sealed@)[0]),
            ),
        ),
{
}

/// A task of a participant that is not waiting completes only when the last
/// of its planned messages was sent: a step that ends the task as completed
/// is one from sending the message at the end of the plan, on the reply that
/// it was sent.
pub proof fn lemma_completes_only_after_sending<E>(
    params: RoundParamsView,
    pk: Seq<u8>,
    name: ClientStateName,
    progress: TaskProgressView,
    reply: TaskReply<E>,
)
    requires
        name != ClientStateName::Awaiting,
    ensures
        task_step_spec(params, pk, name, progress, reply) == Err::<
            (TaskProgressView, TaskRequestView),
            Result<(), ClientError<E>>,
        >(Ok(())) ==> {
            &&& progress matches TaskProgressView::Sending(plan, i) && i + 1 >= plan.len()
            &&& reply matches TaskReply::Sent(Ok(()))
        },
{
}

/// A sum2 task whose replies all succeed fetches the round parameters and
/// the mask length, fetches the seeds for the participant's own public key,
/// and composes and seals the sum2 message with the round's coordinator key
/// for that mask length.
pub proof fn lemma_sum2_task_requests<E>(
    params: RoundParamsView,
    pk: Seq<u8>,
    fetched: RoundParams,
    length: u64,
)
    requires
        fetched@.seed == params.seed,
        length <= usize::MAX,
    ensures
        task_step_spec::<E>(
            params,
            pk,
            ClientStateName::Sum2,
            TaskProgressView::AwaitRoundParams,
            TaskReply::RoundParams(Ok(fetched)),
        ) == Ok::<(TaskProgressView, TaskRequestView), Result<(), ClientError<E>>>(
            (TaskProgressView::AwaitMaskLength, TaskRequestView::FetchMaskLength),
        ),
        task_step_spec::<E>(
            params,
            pk,
            ClientStateName::Sum2,
            TaskProgressView::AwaitMaskLength,
            TaskReply::MaskLength(Ok(Some(length))),
        ) == Ok::<(TaskProgressView, TaskRequestView), Result<(), ClientError<E>>>(
            (TaskProgressView::AwaitSeeds(length as usize), TaskRequestView::FetchSeeds(pk)),
        ),
        task_step_spec::<E>(
            params,
            pk,
            ClientStateName::Sum2,
            TaskProgressView::AwaitSeeds(length as usize),
            TaskReply::Seeds(Ok(true)),
        ) == Ok::<(TaskProgressView, TaskRequestView), Result<(), ClientError<E>>>(
            (
                TaskProgressView::ComposingSum2(length as usize),
                TaskRequestView::ComposeSum2(params.pk, length as usize),
            ),
        ),
{
}

/// Sending goes through the planned messages in order and completes the
/// task after the last one was sent; a failed send ends the task with the
/// API error.
pub proof fn lemma_sending_in_order<E>(
    params: RoundParamsView,
    pk: Seq<u8>,
    name: ClientStateName,
    plan: Seq<Seq<u8>>,
    i: int,
    e: E,
)
    requires
        0 <= i < plan.len(),
    ensures
        task_step_spec::<E>(params, pk, name, TaskProgressView::Sending(plan, i), TaskReply::Sent(Ok(())))
            == if i + 1 < plan.len() {
            Ok::<(TaskProgressView, TaskRequestView), Result<(), ClientError<E>>>(
                (TaskProgressView::Sending(plan, i + 1), TaskRequestView::SendMessage(plan[i + 1])),
            )
        } else {
            Err::<(TaskProgressView, TaskRequestView), Result<(), ClientError<E>>>(Ok(()))
        },
        task_step_spec::<E>(params, pk, name, TaskProgressView::Sending(plan, i), TaskReply::Sent(Err(e)))
            == Err::<(TaskProgressView, TaskRequestView), Result<(), ClientError<E>>>(
            Err(ClientError::Api(e)),
        ),
{
}

/// Whether `progress` can belong to the task of state `name`: waiting for
/// the local model or the sums and composing the update message belong to
/// the update task; waiting for the mask length or seeds and composing the
/// sum2 message to the sum2 task; composing the sum message to the sum task.
pub open spec fn progress_of(name: ClientStateName, progress: TaskProgressView) -> bool {
    match progress {
        TaskProgressView::AwaitLocalModel | TaskProgressView::AwaitSums
        | TaskProgressView::ComposingUpdate => name == ClientStateName::Update,
        TaskProgressView::AwaitMaskLength | TaskProgressView::AwaitSeeds(_)
        | TaskProgressView::ComposingSum2(_) => name == ClientStateName::Sum2,
        TaskProgressView::ComposingSum => name == ClientStateName::Sum,
        _ => true,
    }
}

/// A task keeps to its own steps, and the local model is asked for only in
/// the update state's task: whatever the progress and reply, a step of the
/// task of `name` leads to progress of that task, and asks for the local
/// model only when `name` is the update state.
pub proof fn lemma_local_model_only_for_update<E>(
    params: RoundParamsView,
    pk: Seq<u8>,
    name: ClientStateName,
    progress: TaskProgressView,
    reply: TaskReply<E>,
)
    ensures
        task_step_spec(params, pk, name, progress, reply) matches Ok((next, request)) ==> {
            &&& progress_of(name, next)
            &&& request == TaskRequestView::FetchLocalModel ==> name == ClientStateName::Update
        },
{
}

} // verus!
