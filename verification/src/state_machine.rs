//! The coordinator's state machine that runs the phases of the PET protocol:
//! Idle, Sum, Update, Sum2 and Unmask in a cycle, an Error phase that
//! restarts the round or shuts down, and Shutdown.

use vstd::prelude::*;
use crate::client::{copy_bytes, RoundParams, RoundParamsView};
use crate::text::{decimal, push_decimal};

verus! {

/// The names of the coordinator's phases.
#[derive(Clone, Copy, Debug, PartialEq, Eq, Structural)]
pub enum PhaseName {
    Idle,
    Sum,
    Update,
    Sum2,
    Unmask,
    Error,
    Shutdown,
}

/// An error that ends a phase.
#[derive(Clone, Copy, Debug, PartialEq, Eq, Structural)]
pub enum PhaseStateError {
    /// The request channel failed; the coordinator cannot go on.
    Channel,
    /// The named phase failed; the round can be restarted.
    Phase(PhaseName),
}

/// The coordinator's encryption key pair.
pub struct EncryptKeyPair {
    pub public: Vec<u8>,
    pub secret: Vec<u8>,
}

/// The coordinator's state that the phases share.
pub struct CoordinatorState {
    /// The number of the current round.
    pub round_id: u64,
    /// The coordinator's key pair for the round.
    pub keys: EncryptKeyPair,
    /// The parameters published for the round.
    pub round_params: RoundParams,
    /// The length of the global model, as configured.
    pub model_size: usize,
}

/// The coordinator's state as values.
pub struct CoordinatorStateView {
    pub round_id: u64,
    pub public_key: Seq<u8>,
    pub secret_key: Seq<u8>,
    pub round_params: RoundParamsView,
    pub model_size: usize,
}

impl View for CoordinatorState {
    type V = CoordinatorStateView;

    open spec fn view(&self) -> CoordinatorStateView {
        CoordinatorStateView {
            round_id: self.round_id,
            public_key: self.keys.public@,
            secret_key: self.keys.secret@,
            round_params: self.round_params@,
            model_size: self.model_size,
        }
    }
}

/// What the phases share: the coordinator state and the redis handle.
pub struct Shared<R> {
    pub state: CoordinatorState,
    pub redis_handle: R,
}

/// The state machine in one of its phases, with what the phases share; the
/// Error phase also holds the error it handles.
pub enum StateMachine<R> {
    Idle(Shared<R>),
    Sum(Shared<R>),
    Update(Shared<R>),
    Sum2(Shared<R>),
    Unmask(Shared<R>),
    Error(Shared<R>, PhaseStateError),
    Shutdown(Shared<R>),
}

/// The state machine as values: the phase, the shared state and, in the
/// Error phase, the error.
pub struct StateMachineView {
    pub phase: PhaseName,
    pub state: CoordinatorStateView,
    pub error: Option<PhaseStateError>,
}

impl<R> View for StateMachine<R> {
    type V = StateMachineView;

    open spec fn view(&self) -> StateMachineView {
        match self {
            StateMachine::Idle(s) => StateMachineView { phase: PhaseName::Idle, state: s.state@, error: None },
            StateMachine::Sum(s) => StateMachineView { phase: PhaseName::Sum, state: s.state@, error: None },
            StateMachine::Update(s) => StateMachineView {
                phase: PhaseName::Update,
                state: s.state@,
                error: None,
            },
            StateMachine::Sum2(s) => StateMachineView { phase: PhaseName::Sum2, state: s.state@, error: None },
            StateMachine::Unmask(s) => StateMachineView {
                phase: PhaseName::Unmask,
                state: s.state@,
                error: None,
            },
            StateMachine::Error(s, e) => StateMachineView {
                phase: PhaseName::Error,
                state: s.state@,
                error: Some(*e),
            },
            StateMachine::Shutdown(s) => StateMachineView {
                phase: PhaseName::Shutdown,
                state: s.state@,
                error: None,
            },
        }
    }
}

impl<R> StateMachine<R> {
    /// The redis handle the phases use.
    pub open spec fn redis_handle(&self) -> R {
        match self {
            StateMachine::Idle(s) => s.redis_handle,
            StateMachine::Sum(s) => s.redis_handle,
            StateMachine::Update(s) => s.redis_handle,
            StateMachine::Sum2(s) => s.redis_handle,
            StateMachine::Unmask(s) => s.redis_handle,
            StateMachine::Error(s, _) => s.redis_handle,
            StateMachine::Shutdown(s) => s.redis_handle,
        }
    }
}

/// How running the current phase ended, with the shared state it left.
pub enum PhaseOutcome {
    Done(CoordinatorState),
    Failed(CoordinatorState, PhaseStateError),
}

/// The phase that follows a phase that completed: Idle, Sum, Update, Sum2
/// and Unmask follow each other in a cycle; the Error phase restarts the
/// round, or shuts down when its error is a channel error.
pub open spec fn successor(phase: PhaseName, error: Option<PhaseStateError>) -> PhaseName {
    match phase {
        PhaseName::Idle => PhaseName::Sum,
        PhaseName::Sum => PhaseName::Update,
        PhaseName::Update => PhaseName::Sum2,
        PhaseName::Sum2 => PhaseName::Unmask,
        PhaseName::Unmask => PhaseName::Idle,
        PhaseName::Error => match error {
            Some(PhaseStateError::Channel) => PhaseName::Shutdown,
            _ => PhaseName::Idle,
        },
        PhaseName::Shutdown => PhaseName::Shutdown,
    }
}

/// Whether a failure of `phase` is handed to the Error phase: Sum, Update,
/// Sum2 and Unmask can fail; Idle always moves on to Sum, and the Error
/// phase moves on as its own error says.
pub open spec fn fails_to_error(phase: PhaseName) -> bool {
    phase == PhaseName::Sum || phase == PhaseName::Update || phase == PhaseName::Sum2
        || phase == PhaseName::Unmask
}

/// The state machine after the current phase ended with `outcome`
/// (`None` once it has shut down): a failing Sum, Update, Sum2 or Unmask
/// phase moves to Error with the failure; otherwise the successor phase
/// runs next with the state the phase left.
pub open spec fn machine_next(s: StateMachineView, outcome: PhaseOutcome) -> Option<StateMachineView> {
    if s.phase == PhaseName::Shutdown {
        None
    } else {
        match outcome {
            PhaseOutcome::Failed(st, e) if fails_to_error(s.phase) => Some(
                StateMachineView { phase: PhaseName::Error, state: st@, error: Some(e) },
            ),
            PhaseOutcome::Failed(st, _) => Some(
                StateMachineView { phase: successor(s.phase, s.error), state: st@, error: None },
            ),
            PhaseOutcome::Done(st) => Some(
                StateMachineView { phase: successor(s.phase, s.error), state: st@, error: None },
            ),
        }
    }
}

impl<R> StateMachine<R> {
    /// The name of the current phase.
    pub fn phase_name(&self) -> (p: PhaseName)
        ensures
            p == self@.phase,
    {
        match self {
            StateMachine::Idle(_) => PhaseName::Idle,
            StateMachine::Sum(_) => PhaseName::Sum,
            StateMachine::Update(_) => PhaseName::Update,
            StateMachine::Sum2(_) => PhaseName::Sum2,
            StateMachine::Unmask(_) => PhaseName::Unmask,
            StateMachine::Error(_, _) => PhaseName::Error,
            StateMachine::Shutdown(_) => PhaseName::Shutdown,
        }
    }

    /// Moves the state machine to the next phase once the current one has
    /// run and ended with `outcome` (the Idle phase moves on to Sum with the
    /// state it left whatever its outcome), keeping the redis handle.
    /// Returns `None` when the machine has reached Shutdown.
    pub fn next(self, outcome: PhaseOutcome) -> (r: Option<StateMachine<R>>)
        ensures
            r is None <==> self@.phase == PhaseName::Shutdown,
            r matches Some(m) ==> machine_next(self@, outcome) == Some(m@)
                && m.redis_handle() == self.redis_handle(),
    {
        let (state, failure) = match outcome {
            PhaseOutcome::Done(st) => (st, None),
            PhaseOutcome::Failed(st, e) => (st, Some(e)),
        };
        match self {
            StateMachine::Shutdown(_) => None,
            StateMachine::Error(s, error) => {
                let shared = Shared { state, redis_handle: s.redis_handle };
                match error {
                    PhaseStateError::Channel => Some(StateMachine::Shutdown(shared)),
                    _ => Some(StateMachine::Idle(shared)),
                }
            },
            StateMachine::Idle(s) => Some(
                StateMachine::Sum(Shared { state, redis_handle: s.redis_handle }),
            ),
            StateMachine::Sum(s) => {
                let shared = Shared { state, redis_handle: s.redis_handle };
                match failure {
                    Some(e) => Some(StateMachine::Error(shared, e)),
                    None => Some(StateMachine::Update(shared)),
                }
            },
            StateMachine::Update(s) => {
                let shared = Shared { state, redis_handle: s.redis_handle };
                match failure {
                    Some(e) => Some(StateMachine::Error(shared, e)),
                    None => Some(StateMachine::Sum2(shared)),
                }
            },
            StateMachine::Sum2(s) => {
                let shared = Shared { state, redis_handle: s.redis_handle };
                match failure {
                    Some(e) => Some(StateMachine::Error(shared, e)),
                    None => Some(StateMachine::Unmask(shared)),
                }
            },
            StateMachine::Unmask(s) => {
                let shared = Shared { state, redis_handle: s.redis_handle };
                match failure {
                    Some(e) => Some(StateMachine::Error(shared, e)),
                    None => Some(StateMachine::Idle(shared)),
                }
            },
        }
    }
}

/// The state machine stops exactly when it is in the Shutdown phase.
pub proof fn lemma_shutdown_is_final(s: StateMachineView, outcome: PhaseOutcome)
    ensures
        machine_next(s, outcome) is None <==> s.phase == PhaseName::Shutdown,
{
}

/// A round in which every phase completes runs Sum, Update, Sum2 and
/// Unmask after Idle and then starts over at Idle.
pub proof fn lemma_round_cycle(
    s: StateMachineView,
    a: CoordinatorState,
    b: CoordinatorState,
    c: CoordinatorState,
    d: CoordinatorState,
    e: CoordinatorState,
)
    requires
        s.phase == PhaseName::Idle,
    ensures
        ({
            let s1 = machine_next(s, PhaseOutcome::Done(a));
            let s2 = machine_next(s1->Some_0, PhaseOutcome::Done(b));
            let s3 = machine_next(s2->Some_0, PhaseOutcome::Done(c));
            let s4 = machine_next(s3->Some_0, PhaseOutcome::Done(d));
            let s5 = machine_next(s4->Some_0, PhaseOutcome::Done(e));
            &&& s1 == Some(StateMachineView { phase: PhaseName::Sum, state: a@, error: None })
            &&& s2 == Some(StateMachineView { phase: PhaseName::Update, state: b@, error: None })
            &&& s3 == Some(StateMachineView { phase: PhaseName::Sum2, state: c@, error: None })
            &&& s4 == Some(StateMachineView { phase: PhaseName::Unmask, state: d@, error: None })
            &&& s5 == Some(StateMachineView { phase: PhaseName::Idle, state: e@, error: None })
        }),
{
}

/// A failing Sum, Update, Sum2 or Unmask phase hands its error to the Error phase, which then restarts
/// the round at Idle, or shuts down when the error is a channel error;
/// after Shutdown the machine stops.
pub proof fn lemma_failure_handling(
    s: StateMachineView,
    failed: CoordinatorState,
    error: PhaseStateError,
    handled: PhaseOutcome,
    last: PhaseOutcome,
)
    requires
        fails_to_error(s.phase),
    ensures
        ({
            let s1 = machine_next(s, PhaseOutcome::Failed(failed, error));
            let s2 = machine_next(s1->Some_0, handled);
            &&& s1 == Some(
                StateMachineView { phase: PhaseName::Error, state: failed@, error: Some(error) },
            )
            &&& s2 is Some
            &&& s2->Some_0.phase == (if error == PhaseStateError::Channel {
                PhaseName::Shutdown
            } else {
                PhaseName::Idle
            })
            &&& error == PhaseStateError::Channel ==> machine_next(s2->Some_0, last) is None
        }),
{
}

/// The machine only makes the transitions of the protocol: Idle to Sum;
/// Sum to Update, Update to Sum2, Sum2 to Unmask and Unmask to Idle, or any
/// of these four to Error; Error to Idle or Shutdown; Shutdown stops.
pub proof fn lemma_only_protocol_transitions(s: StateMachineView, outcome: PhaseOutcome)
    ensures
        machine_next(s, outcome) matches Some(n) ==> {
            let (a, b) = (s.phase, n.phase);
            ||| a == PhaseName::Idle && b == PhaseName::Sum
            ||| a == PhaseName::Sum && (b == PhaseName::Update || b == PhaseName::Error)
            ||| a == PhaseName::Update && (b == PhaseName::Sum2 || b == PhaseName::Error)
            ||| a == PhaseName::Sum2 && (b == PhaseName::Unmask || b == PhaseName::Error)
            ||| a == PhaseName::Unmask && (b == PhaseName::Idle || b == PhaseName::Error)
            ||| a == PhaseName::Error && (b == PhaseName::Idle || b == PhaseName::Shutdown)
        },
{
}

/// The machine shuts down only from the Error phase handling a channel
/// error.
pub proof fn lemma_shutdown_only_on_channel_error(s: StateMachineView, outcome: PhaseOutcome)
    requires
        s.phase != PhaseName::Shutdown,
        machine_next(s, outcome)->Some_0.phase == PhaseName::Shutdown,
    ensures
        s.phase == PhaseName::Error,
        s.error == Some(PhaseStateError::Channel),
{
}

/// Error returned when the state machine fails to handle a request.
#[derive(Debug)]
pub enum RequestError {
    MessageRejected,
    AggregationFailed,
    InternalError(&'static str),
    /// A request to redis failed, with redis' message.
    Redis(String),
    /// Updating the seed dictionary failed, with the reason.
    SeedDictUpdate(String),
    /// Adding to the sum dictionary failed, with the reason.
    SumDictAdd(String),
    /// Incrementing the mask dictionary failed, with the reason.
    MaskDictIncr(String),
}

impl RequestError {
    /// The text that describes the error.
    pub open spec fn description(&self) -> Seq<char> {
        match self {
            RequestError::MessageRejected => "the message was rejected"@,
            RequestError::AggregationFailed =>
                "invalid update: the model or scalar sent by the participant could not be aggregated"@,
            RequestError::InternalError(what) =>
                "the request could not be processed due to an internal error: "@ + what@,
            RequestError::Redis(e) => "redis request failed: "@ + e@,
            RequestError::SeedDictUpdate(e) => e@,
            RequestError::SumDictAdd(e) => e@,
            RequestError::MaskDictIncr(e) => e@,
        }
    }

    /// See [`RequestError::description`].
    pub fn message(&self) -> (m: String)
        ensures
            m@ == self.description(),
    {
        match self {
            RequestError::MessageRejected => String::from_str("the message was rejected"),
            RequestError::AggregationFailed => String::from_str(
                "invalid update: the model or scalar sent by the participant could not be aggregated",
            ),
            RequestError::InternalError(what) => {
                let mut m = String::from_str(
                    "the request could not be processed due to an internal error: ",
                );
                m.append(what);
                m
            },
            RequestError::Redis(e) => {
                let mut m = String::from_str("redis request failed: ");
                m.append(e.as_str());
                m
            },
            RequestError::SeedDictUpdate(e) => String::from_str(e.as_str()),
            RequestError::SumDictAdd(e) => String::from_str(e.as_str()),
            RequestError::MaskDictIncr(e) => String::from_str(e.as_str()),
        }
    }
}

/// Error that occurs when unmasking of the global model fails.
#[derive(Debug)]
pub enum UnmaskGlobalModelError {
    AmbiguousMasks,
    NoMask,
    /// Unmasking failed, with the reason.
    Unmasking(String),
}

impl UnmaskGlobalModelError {
    /// The text that describes the error.
    pub open spec fn description(&self) -> Seq<char> {
        match self {
            UnmaskGlobalModelError::AmbiguousMasks =>
                "ambiguous masks were computed by the sum participants"@,
            UnmaskGlobalModelError::NoMask => "no mask found"@,
            UnmaskGlobalModelError::Unmasking(e) => "unmasking error: "@ + e@,
        }
    }

    /// See [`UnmaskGlobalModelError::description`].
    pub fn message(&self) -> (m: String)
        ensures
            m@ == self.description(),
    {
        match self {
            UnmaskGlobalModelError::AmbiguousMasks => String::from_str(
                "ambiguous masks were computed by the sum participants",
            ),
            UnmaskGlobalModelError::NoMask => String::from_str("no mask found"),
            UnmaskGlobalModelError::Unmasking(e) => {
                let mut m = String::from_str("unmasking error: ");
                m.append(e.as_str());
                m
            },
        }
    }
}

/// Error when the state machine cannot be initialised.
#[derive(Debug)]
pub enum StateMachineInitializationError {
    /// A request to redis failed, with redis' message.
    Redis(String),
    Crypto,
    GlobalModelUnavailable,
    /// The stored global model does not fit the settings, with the details.
    GlobalModelInvalid(String),
}

impl StateMachineInitializationError {
    /// The text that describes the error.
    pub open spec fn description(&self) -> Seq<char> {
        match self {
            StateMachineInitializationError::Redis(e) => "redis request failed: "@ + e@,
            StateMachineInitializationError::Crypto => "failed to initialize crypto library"@,
            StateMachineInitializationError::GlobalModelUnavailable => "GlobalModelUnavailable"@,
            StateMachineInitializationError::GlobalModelInvalid(_) => "GlobalModelInvalid"@,
        }
    }

    /// See [`StateMachineInitializationError::description`].
    pub fn message(&self) -> (m: String)
        ensures
            m@ == self.description(),
    {
        match self {
            StateMachineInitializationError::Redis(e) => {
                let mut m = String::from_str("redis request failed: ");
                m.append(e.as_str());
                m
            },
            StateMachineInitializationError::Crypto => String::from_str(
                "failed to initialize crypto library",
            ),
            StateMachineInitializationError::GlobalModelUnavailable => String::from_str(
                "GlobalModelUnavailable",
            ),
            StateMachineInitializationError::GlobalModelInvalid(_) => String::from_str(
                "GlobalModelInvalid",
            ),
        }
    }
}

/// What the published global model becomes.
pub enum ModelUpdate<M> {
    /// No global model is available.
    Invalidate,
    /// A new global model.
    New(M),
}

/// The values the event publisher starts with.
pub struct InitialEvents<M> {
    pub round_id: u64,
    pub keys: EncryptKeyPair,
    pub round_params: RoundParams,
    pub phase: PhaseName,
    pub model: ModelUpdate<M>,
}

/// The text of the error for a stored global model whose length `len`
/// differs from the configured model size `size`.
pub open spec fn invalid_model_text(id: Seq<char>, len: nat, size: nat) -> Seq<char> {
    "the size of global model with the id "@ + id
        + " does not match with the value of the model size setting "@ + decimal(len) + " != "@
        + decimal(size)
}

/// What an initialised coordinator is: the machine in the Idle phase over
/// the state `st`, holding the redis handle `redis`, and the event
/// publisher's first values taken from that state with the Idle phase and
/// the model `model`.
pub open spec fn initialized_as<M, R>(
    out: (StateMachine<R>, InitialEvents<M>),
    st: CoordinatorStateView,
    model: ModelUpdate<M>,
    redis: R,
) -> bool {
    let (m, ev) = out;
    &&& m@ == (StateMachineView { phase: PhaseName::Idle, state: st, error: None })
    &&& m.redis_handle() == redis
    &&& ev.round_id == st.round_id
    &&& ev.keys.public@ == st.public_key
    &&& ev.keys.secret@ == st.secret_key
    &&& ev.round_params@ == st.round_params
    &&& ev.phase == PhaseName::Idle
    &&& ev.model == model
}

/// Whether `out` is the coordinator initialised, as [`initialized_as`] says,
/// from the state and global model that `start` holds.
pub open spec fn started_from<M, R>(
    out: (StateMachine<R>, InitialEvents<M>),
    start: Result<(CoordinatorState, ModelUpdate<M>), StateMachineInitializationError>,
    redis: R,
) -> bool {
    match start {
        Ok((st, model)) => initialized_as(out, st@, model, redis),
        Err(_) => false,
    }
}

/// Whether `r` is what starting the coordinator from `start` gives: the
/// error of `start` passed on unchanged, or the machine initialised, as
/// [`initialized_as`] says, over the state and global model that `start`
/// holds.
pub open spec fn follows_start<M, R>(
    r: Result<(StateMachine<R>, InitialEvents<M>), StateMachineInitializationError>,
    start: Result<(CoordinatorState, ModelUpdate<M>), StateMachineInitializationError>,
    redis: R,
) -> bool {
    match start {
        Err(e) => r == Err::<(StateMachine<R>, InitialEvents<M>), StateMachineInitializationError>(e),
        Ok((st, model)) => r matches Ok(out) && initialized_as(out, st@, model, redis),
    }
}

/// Starting afresh from the state made from the settings (`fresh`): that
/// state with no global model, or the error met making it.
pub open spec fn fresh_start<M>(
    fresh: Result<CoordinatorState, StateMachineInitializationError>,
) -> Result<(CoordinatorState, ModelUpdate<M>), StateMachineInitializationError> {
    match fresh {
        Ok(st) => Ok((st, ModelUpdate::Invalidate)),
        Err(e) => Err(e),
    }
}

/// Initialises the coordinator's state machine from its settings.
pub struct StateMachineInitializer<P, K, D, R> {
    pub pet_settings: P,
    pub mask_settings: K,
    pub model_settings: D,
    pub redis_handle: R,
}

impl<P, K, D, R> StateMachineInitializer<P, K, D, R> {
    /// Holds the settings and the redis handle.
    pub fn new(pet_settings: P, mask_settings: K, model_settings: D, redis_handle: R) -> (i: Self)
        ensures
            i.pet_settings == pet_settings,
            i.mask_settings == mask_settings,
            i.model_settings == model_settings,
            i.redis_handle == redis_handle,
    {
        StateMachineInitializer { pet_settings, mask_settings, model_settings, redis_handle }
    }

    /// Initialises the cryptography library and, only when that succeeded,
    /// makes the coordinator state afresh from the settings with
    /// `from_settings` (which resets the database); then does what
    /// [`Self::init_with`] says with both results.
    pub fn init<M, F>(self, from_settings: F) -> (r: Result<
        (StateMachine<R>, InitialEvents<M>),
        StateMachineInitializationError,
    >) where F: FnOnce() -> Result<CoordinatorState, StateMachineInitializationError>
        requires
            from_settings.requires(()),
        ensures
            r matches Err(e) ==> (e is Crypto || from_settings.ensures(
                (),
                Err::<CoordinatorState, StateMachineInitializationError>(e),
            )),
            r matches Ok(out) ==> exists|st: CoordinatorState|
                from_settings.ensures((), Ok::<CoordinatorState, StateMachineInitializationError>(st))
                    && #[trigger] initialized_as(out, st@, ModelUpdate::Invalidate, self.redis_handle),
    {
        let ghost redis = self.redis_handle;
        let crypto = sodiumoxide::init();
        let r = self.init_after(crypto, from_settings);
        proof {
            if crypto is Ok {
                let fresh = choose|fresh: Result<CoordinatorState, StateMachineInitializationError>|
                    from_settings.ensures((), fresh) && #[trigger] follows_start(
                        r,
                        fresh_start::<M>(fresh),
                        redis,
                    );
                if r is Ok {
                    assert(initialized_as(r->Ok_0, fresh->Ok_0@, ModelUpdate::Invalidate, redis));
                }
            }
        }
        r
    }

    /// Does what [`Self::init`] does once the cryptography library was
    /// initialised (`crypto`): when that failed, the error is `Crypto` and
    /// `from_settings` is not called; otherwise it is called once, and the
    /// result follows what it gave: its error passed on unchanged, or the
    /// machine started over its state with no global model.
    pub fn init_after<M, F>(self, crypto: Result<(), ()>, from_settings: F) -> (r: Result<
        (StateMachine<R>, InitialEvents<M>),
        StateMachineInitializationError,
    >) where F: FnOnce() -> Result<CoordinatorState, StateMachineInitializationError>
        requires
            from_settings.requires(()),
        ensures
            crypto is Err ==> r matches Err(StateMachineInitializationError::Crypto),
            crypto is Ok ==> exists|fresh: Result<CoordinatorState, StateMachineInitializationError>|
                from_settings.ensures((), fresh) && #[trigger] follows_start(
                    r,
                    fresh_start::<M>(fresh),
                    self.redis_handle,
                ),
    {
        match crypto {
            Err(()) => Err(StateMachineInitializationError::Crypto),
            Ok(()) => {
                let fresh = from_settings();
                let ghost fresh_copy = fresh;
                let r = self.init_with(Ok(()), fresh);
                assert(follows_start(r, fresh_start::<M>(fresh_copy), self.redis_handle));
                r
            },
        }
    }

    /// With the model-persistence store: initialises the cryptography
    /// library and, only when that succeeded, starts from the settings
    /// (`from_settings`, when `no_restore`) or from the previous state
    /// (`from_previous_state`, see [`Self::from_previous_state`]); their
    /// errors are passed on, and their state and global model start the
    /// machine as [`Self::init_state_machine`] builds it.
    pub fn init_restoring<M, F, G>(self, no_restore: bool, from_settings: F, from_previous_state: G) -> (r:
        Result<(StateMachine<R>, InitialEvents<M>), StateMachineInitializationError>) where
        F: FnOnce() -> Result<(CoordinatorState, ModelUpdate<M>), StateMachineInitializationError>,
        G: FnOnce() -> Result<(CoordinatorState, ModelUpdate<M>), StateMachineInitializationError>,

        requires
            from_settings.requires(()),
            from_previous_state.requires(()),
        ensures
            r matches Err(e) ==> (e is Crypto || (no_restore && from_settings.ensures(
                (),
                Err::<(CoordinatorState, ModelUpdate<M>), StateMachineInitializationError>(e),
            )) || (!no_restore && from_previous_state.ensures(
                (),
                Err::<(CoordinatorState, ModelUpdate<M>), StateMachineInitializationError>(e),
            ))),
            r matches Ok(out) ==> exists|start: Result<
                (CoordinatorState, ModelUpdate<M>),
                StateMachineInitializationError,
            >|
                #[trigger] started_from(out, start, self.redis_handle) && (if no_restore {
                    from_settings.ensures((), start)
                } else {
                    from_previous_state.ensures((), start)
                }),
    {
        let ghost redis = self.redis_handle;
        let crypto = sodiumoxide::init();
        let r = self.init_restoring_after(crypto, no_restore, from_settings, from_previous_state);
        proof {
            if crypto is Ok {
                let start = choose|start: Result<
                    (CoordinatorState, ModelUpdate<M>),
                    StateMachineInitializationError,
                >|
                    (if no_restore {
                        from_settings.ensures((), start)
                    } else {
                        from_previous_state.ensures((), start)
                    }) && #[trigger] follows_start(r, start, redis);
                if r is Ok {
                    assert(started_from(r->Ok_0, start, redis));
                }
            }
        }
        r
    }

    /// Does what [`Self::init_restoring`] does once the cryptography library
    /// was initialised (`crypto`): when that failed, the error is `Crypto`
    /// and neither closure is called; otherwise the chosen closure
    /// (`from_settings` when `no_restore`, else `from_previous_state`) is
    /// called once, and the result follows what it gave: its error passed on
    /// unchanged, or the machine started over its state and global model.
    pub fn init_restoring_after<M, F, G>(
        self,
        crypto: Result<(), ()>,
        no_restore: bool,
        from_settings: F,
        from_previous_state: G,
    ) -> (r: Result<(StateMachine<R>, InitialEvents<M>), StateMachineInitializationError>) where
        F: FnOnce() -> Result<(CoordinatorState, ModelUpdate<M>), StateMachineInitializationError>,
        G: FnOnce() -> Result<(CoordinatorState, ModelUpdate<M>), StateMachineInitializationError>,

        requires
            from_settings.requires(()),
            from_previous_state.requires(()),
        ensures
            crypto is Err ==> r matches Err(StateMachineInitializationError::Crypto),
            crypto is Ok ==> exists|start: Result<
                (CoordinatorState, ModelUpdate<M>),
                StateMachineInitializationError,
            >|
                (if no_restore {
                    from_settings.ensures((), start)
                } else {
                    from_previous_state.ensures((), start)
                }) && #[trigger] follows_start(r, start, self.redis_handle),
    {
        match crypto {
            Err(()) => Err(StateMachineInitializationError::Crypto),
            Ok(()) => {
                let start = if no_restore {
                    from_settings()
                } else {
                    from_previous_state()
                };
                let ghost start_copy = start;
                let r = self.init_restoring_with(Ok(()), start);
                assert(follows_start(r, start_copy, self.redis_handle));
                r
            },
        }
    }

    /// Builds the state machine once the cryptography library was
    /// initialised (`crypto`), from the chosen start (`start`: the state and
    /// global model from the settings or from the previous state, or the
    /// error met making them): when the library failed, the error is
    /// `Crypto` and `start` is not read; otherwise an error of `start` is
    /// passed on unchanged, or its state and model start the machine as
    /// [`Self::init_state_machine`] builds it.
    pub fn init_restoring_with<M>(
        self,
        crypto: Result<(), ()>,
        start: Result<(CoordinatorState, ModelUpdate<M>), StateMachineInitializationError>,
    ) -> (r: Result<(StateMachine<R>, InitialEvents<M>), StateMachineInitializationError>)
        ensures
            crypto is Err ==> r matches Err(StateMachineInitializationError::Crypto),
            crypto is Ok ==> match start {
                Err(e) => r == Err::<
                    (StateMachine<R>, InitialEvents<M>),
                    StateMachineInitializationError,
                >(e),
                Ok((st, model)) => r matches Ok(out) && initialized_as(
                    out,
                    st@,
                    model,
                    self.redis_handle,
                ),
            },
            r matches Ok(out) ==> started_from(out, start, self.redis_handle),
    {
        match crypto {
            Err(()) => Err(StateMachineInitializationError::Crypto),
            Ok(()) => match start {
                Err(e) => Err(e),
                Ok((st, model)) => {
                    let ghost st_copy = st;
                    let ghost model_copy = model;
                    let out = self.init_state_machine(st, model);
                    assert(initialized_as(out, st_copy@, model_copy, self.redis_handle));
                    let r: Result<(StateMachine<R>, InitialEvents<M>), StateMachineInitializationError> = Ok(out);
                    r
                },
            },
        }
    }

    /// Where a restart begins, given what asking redis for the stored
    /// coordinator state gave (`stored`): a failed request is a redis error
    /// and nothing else is done; a stored state is restored with `restore`
    /// (see [`Self::try_restore_state`]); without one, the coordinator starts
    /// afresh from the settings with `from_settings`.
    pub fn from_previous_state<M, F, G>(
        stored: Result<Option<CoordinatorState>, String>,
        restore: F,
        from_settings: G,
    ) -> (r: Result<(CoordinatorState, ModelUpdate<M>), StateMachineInitializationError>) where
        F: FnOnce(CoordinatorState) -> Result<
            (CoordinatorState, ModelUpdate<M>),
            StateMachineInitializationError,
        >,
        G: FnOnce() -> Result<(CoordinatorState, ModelUpdate<M>), StateMachineInitializationError>,

        requires
            forall|cs: CoordinatorState| #[trigger] restore.requires((cs,)),
            from_settings.requires(()),
        ensures
            match stored {
                Err(e) => r matches Err(StateMachineInitializationError::Redis(m)) && m == e,
                Ok(Some(cs)) => restore.ensures((cs,), r),
                Ok(None) => from_settings.ensures((), r),
            },
    {
        match stored {
            Err(e) => Err(StateMachineInitializationError::Redis(e)),
            Ok(Some(cs)) => restore(cs),
            Ok(None) => from_settings(),
        }
    }

    /// Builds the state machine once the cryptography library was
    /// initialised (`crypto`): when that failed, the error is `Crypto`;
    /// otherwise the error met while making the coordinator state afresh from
    /// the settings is passed on, or the machine starts in the Idle phase over
    /// that state (`fresh`), with no global model, as
    /// [`Self::init_state_machine`] builds it. `fresh` is not read when the
    /// library failed, so a caller resets the database only once `crypto`
    /// is known to be `Ok`.
    pub fn init_with<M>(
        self,
        crypto: Result<(), ()>,
        fresh: Result<CoordinatorState, StateMachineInitializationError>,
    ) -> (r: Result<(StateMachine<R>, InitialEvents<M>), StateMachineInitializationError>)
        ensures
            crypto is Err ==> r matches Err(StateMachineInitializationError::Crypto),
            crypto is Ok ==> match fresh {
                Err(e) => r == Err::<
                    (StateMachine<R>, InitialEvents<M>),
                    StateMachineInitializationError,
                >(e),
                Ok(st) => r matches Ok(out) && initialized_as(
                    out,
                    st@,
                    ModelUpdate::Invalidate,
                    self.redis_handle,
                ),
            },
    {
        match crypto {
            Err(()) => Err(StateMachineInitializationError::Crypto),
            Ok(()) => match fresh {
                Err(e) => Err(e),
                Ok(st) => Ok(self.init_state_machine(st, ModelUpdate::Invalidate)),
            },
        }
    }

    /// Builds the state machine in the Idle phase over `coordinator_state`,
    /// the values the event publisher starts with (the round id, keys and
    /// round parameters of that state, the Idle phase and `global_model`);
    /// the machine holds the redis handle for the phases.
    pub fn init_state_machine<M>(self, coordinator_state: CoordinatorState, global_model: ModelUpdate<
        M,
    >) -> (r: (StateMachine<R>, InitialEvents<M>))
        ensures
            initialized_as(r, coordinator_state@, global_model, self.redis_handle),
    {
        let events = InitialEvents {
            round_id: coordinator_state.round_id,
            keys: EncryptKeyPair {
                public: copy_bytes(&coordinator_state.keys.public),
                secret: copy_bytes(&coordinator_state.keys.secret),
            },
            round_params: coordinator_state.round_params.duplicate(),
            phase: PhaseName::Idle,
            model: global_model,
        };
        (
            StateMachine::Idle(
                Shared { state: coordinator_state, redis_handle: self.redis_handle },
            ),
            events,
        )
    }

    /// Whether a global model of length `global_model_len` fits the
    /// configured model size.
    pub fn model_properties_matches_settings(
        coordinator_state: &CoordinatorState,
        global_model_len: usize,
    ) -> (b: bool)
        ensures
            b == (coordinator_state.model_size == global_model_len),
    {
        coordinator_state.model_size == global_model_len
    }

    /// Accepts the global model with id `global_model_id` that was fetched
    /// from the model store (`downloaded`: the model and its length, or
    /// `Err` when it could not be fetched): a missing model is unavailable, a
    /// model whose length differs from the model size is invalid.
    pub fn download_global_model<M>(
        coordinator_state: &CoordinatorState,
        global_model_id: &str,
        downloaded: Result<(M, usize), ()>,
    ) -> (r: Result<M, StateMachineInitializationError>)
        ensures
            match downloaded {
                Err(()) => r matches Err(StateMachineInitializationError::GlobalModelUnavailable),
                Ok((model, len)) => if len == coordinator_state.model_size {
                    r == Ok::<M, StateMachineInitializationError>(model)
                } else {
                    r matches Err(StateMachineInitializationError::GlobalModelInvalid(text))
                        && text@ == invalid_model_text(
                        global_model_id@,
                        len as nat,
                        coordinator_state.model_size as nat,
                    )
                },
            },
    {
        match downloaded {
            Err(()) => Err(StateMachineInitializationError::GlobalModelUnavailable),
            Ok((model, len)) => {
                if Self::model_properties_matches_settings(coordinator_state, len) {
                    Ok(model)
                } else {
                    let mut text = String::from_str("the size of global model with the id ");
                    text.append(global_model_id);
                    text.append(" does not match with the value of the model size setting ");
                    push_decimal(&mut text, len as u64);
                    text.append(" != ");
                    push_decimal(&mut text, coordinator_state.model_size as u64);
                    Err(StateMachineInitializationError::GlobalModelInvalid(text))
                }
            },
        }
    }

    /// Restores a stored coordinator state. `latest` is what asking redis for
    /// the id of the latest global model gave: a failed request is a redis
    /// error; when no round has completed yet (`Ok(None)`) there is no global
    /// model; otherwise it holds the id and what fetching that model gave,
    /// and the model is accepted as [`Self::download_global_model`] says.
    pub fn try_restore_state<M>(
        coordinator_state: CoordinatorState,
        latest: Result<Option<(String, Result<(M, usize), ()>)>, String>,
    ) -> (r: Result<(CoordinatorState, ModelUpdate<M>), StateMachineInitializationError>)
        ensures
            match latest {
                Err(e) => r matches Err(StateMachineInitializationError::Redis(m)) && m == e,
                Ok(None) => r matches Ok((st, ModelUpdate::Invalidate)) && st == coordinator_state,
                Ok(Some((id, Err(())))) => r matches Err(
                    StateMachineInitializationError::GlobalModelUnavailable,
                ),
                Ok(Some((id, Ok((model, len))))) => if len == coordinator_state.model_size {
                    r matches Ok((st, ModelUpdate::New(m))) && st == coordinator_state && m == model
                } else {
                    r matches Err(StateMachineInitializationError::GlobalModelInvalid(text))
                        && text@ == invalid_model_text(
                        id@,
                        len as nat,
                        coordinator_state.model_size as nat,
                    )
                },
            },
    {
        match latest {
            Err(e) => Err(StateMachineInitializationError::Redis(e)),
            Ok(None) => Ok((coordinator_state, ModelUpdate::Invalidate)),
            Ok(Some((id, downloaded))) => {
                match Self::download_global_model(&coordinator_state, id.as_str(), downloaded) {
                    Ok(model) => Ok((coordinator_state, ModelUpdate::New(model))),
                    Err(e) => Err(e),
                }
            },
        }
    }
}

} // verus!
