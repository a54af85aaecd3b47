//! The end-to-end test driver's own logic: how it configures and builds its
//! test participants, how it runs them phase by phase, and how it reads the
//! coordinator's phase from the metrics.

use vstd::prelude::*;
use vstd::utf8::encode_utf8;
use crate::client::{
    copy_bytes, client_next, initial_view, ClientEvent, ClientStateMachine, ClientStateName, InitError,
};
use crate::json::append_bytes;
use crate::text::{decimal, push_decimal};

verus! {

/// The largest message a participant sends, `None` for no limit.
pub struct MaxMessageSize {
    pub limit: Option<usize>,
}

impl MaxMessageSize {
    /// No limit on the message size.
    pub fn unlimited() -> (m: MaxMessageSize)
        ensures
            m.limit is None,
    {
        MaxMessageSize { limit: None }
    }
}

/// What a participant is configured with: its secret key, its aggregation
/// configuration and the largest message it sends.
pub struct ParticipantSettings<C, K> {
    pub secret_key: K,
    pub aggregation_config: C,
    pub max_message_size: MaxMessageSize,
}

/// The settings every test participant shares.
pub struct TestClientSettings<C> {
    pub aggregation_config: C,
    pub max_message_size: MaxMessageSize,
}

impl<C> TestClientSettings<C> {
    /// The settings of one participant with the given secret key.
    pub fn into_participant_settings<K>(self, secret_key: K) -> (p: ParticipantSettings<C, K>)
        ensures
            p.secret_key == secret_key,
            p.aggregation_config == self.aggregation_config,
            p.max_message_size == self.max_message_size,
    {
        ParticipantSettings {
            secret_key,
            aggregation_config: self.aggregation_config,
            max_message_size: self.max_message_size,
        }
    }
}

/// How many participants of each kind the driver builds, and the length of
/// the models the update participants send.
pub struct TestClientBuilderSettings<C> {
    pub test_client_settings: TestClientSettings<C>,
    pub number_of_sum: u64,
    pub number_of_update: u64,
    pub model_size: usize,
}

impl<C> TestClientBuilderSettings<C> {
    /// Takes the numbers from the coordinator's settings: as many sum and
    /// update participants as the coordinator needs at least, and its model
    /// length.
    pub fn from_coordinator_settings(
        min_sum_count: u64,
        min_update_count: u64,
        model_size: usize,
        aggregation_config: C,
        max_message_size: MaxMessageSize,
    ) -> (s: Self)
        ensures
            s.number_of_sum == min_sum_count,
            s.number_of_update == min_update_count,
            s.model_size == model_size,
            s.test_client_settings.aggregation_config == aggregation_config,
            s.test_client_settings.max_message_size == max_message_size,
    {
        TestClientBuilderSettings {
            test_client_settings: TestClientSettings { aggregation_config, max_message_size },
            number_of_sum: min_sum_count,
            number_of_update: min_update_count,
            model_size,
        }
    }
}

/// Builds the test participants, talking to the coordinator through `A`.
pub struct TestClientBuilder<A, C> {
    pub settings: TestClientBuilderSettings<C>,
    pub api_client: A,
}

impl<A, C> TestClientBuilder<A, C> {
    /// Holds the settings and the API client.
    pub fn new(settings: TestClientBuilderSettings<C>, api_client: A) -> (b: Self)
        ensures
            b.settings == settings,
            b.api_client == api_client,
    {
        TestClientBuilder { settings, api_client }
    }
}

/// The role of a participant given whether its sum signature and its update
/// signature are eligible: sum takes precedence over update.
pub open spec fn role_for(sum_eligible: bool, update_eligible: bool) -> ClientStateName {
    if sum_eligible {
        ClientStateName::Sum
    } else if update_eligible {
        ClientStateName::Update
    } else {
        ClientStateName::Awaiting
    }
}

/// See [`role_for`].
pub fn determine_role(sum_eligible: bool, update_eligible: bool) -> (r: ClientStateName)
    ensures
        r == role_for(sum_eligible, update_eligible),
{
    if sum_eligible {
        ClientStateName::Sum
    } else if update_eligible {
        ClientStateName::Update
    } else {
        ClientStateName::Awaiting
    }
}

/// The messages a participant signs to learn its role in a round: the
/// round seed followed by `sum`, and the round seed followed by `update`.
pub fn signature_messages(round_seed: &[u8]) -> (m: (Vec<u8>, Vec<u8>))
    ensures
        m.0@ == round_seed@ + encode_utf8("sum"@),
        m.1@ == round_seed@ + encode_utf8("update"@),
{
    let mut sum: Vec<u8> = Vec::new();
    append_bytes(&mut sum, round_seed);
    append_bytes(&mut sum, "sum".as_bytes());
    let mut update: Vec<u8> = Vec::new();
    append_bytes(&mut update, round_seed);
    append_bytes(&mut update, "update".as_bytes());
    (sum, update)
}

/// A test participant: its API client, the local model it sends when it
/// updates, its participant settings and its state machine.
pub struct TestClient<A, M, S> {
    pub api: A,
    pub local_model: Option<M>,
    pub participant_settings: S,
    pub client_state: ClientStateMachine,
}

impl<A, M, S> TestClient<A, M, S> {
    /// A participant with the given settings and public signing key,
    /// waiting with the default round parameters and without a local model;
    /// fails when the cryptography library cannot be initialised.
    pub fn new(api_client: A, participant_settings: S, participant_pk: Vec<u8>) -> (r: Result<
        Self,
        InitError,
    >)
        ensures
            r matches Ok(c) ==> c.api == api_client && c.local_model is None
                && c.participant_settings == participant_settings && c.client_state@
                == initial_view(participant_pk@),
    {
        match ClientStateMachine::new(participant_pk) {
            Ok(client_state) => Ok(
                TestClient { api: api_client, local_model: None, participant_settings, client_state },
            ),
            Err(e) => Err(e),
        }
    }

    /// The name of the participant's current state.
    pub fn get_current_state(&self) -> (n: ClientStateName)
        ensures
            n == self.client_state@.name,
    {
        self.client_state.state_name()
    }

    /// Sets the model the participant sends when it updates.
    pub fn set_local_model(&mut self, model: M)
        ensures
            final(self).local_model == Some(model),
            final(self).api == old(self).api,
            final(self).participant_settings == old(self).participant_settings,
            final(self).client_state == old(self).client_state,
    {
        self.local_model = Some(model);
    }

    /// Moves the participant's state machine by one event, keeping the rest.
    pub fn proceed<E>(self, event: ClientEvent<E>) -> (c: Self)
        ensures
            c.client_state@ == client_next(self.client_state@, event),
            c.api == self.api,
            c.local_model == self.local_model,
            c.participant_settings == self.participant_settings,
    {
        let TestClient { api, local_model, participant_settings, client_state } = self;
        TestClient { api, local_model, participant_settings, client_state: client_state.next(event) }
    }
}

/// The batch of test participants made of the API clients, participant
/// settings, local models and state machines at the same positions.
pub fn assemble_test_clients<A, M, S>(
    apis: Vec<A>,
    participants: Vec<S>,
    models: Vec<Option<M>>,
    states: Vec<ClientStateMachine>,
) -> (c: Vec<TestClient<A, M, S>>)
    requires
        participants@.len() == apis@.len(),
        models@.len() == apis@.len(),
        states@.len() == apis@.len(),
    ensures
        c@.len() == apis@.len(),
        forall|i: int|
            0 <= i < c@.len() ==> {
                &&& #[trigger] c@[i].api == apis@[i]
                &&& c@[i].participant_settings == participants@[i]
                &&& c@[i].local_model == models@[i]
                &&& c@[i].client_state == states@[i]
            },
{
    let ghost apis0 = apis@;
    let ghost participants0 = participants@;
    let ghost models0 = models@;
    let ghost states0 = states@;
    let mut rest_apis = apis;
    let mut rest_participants = participants;
    let mut rest_models = models;
    let mut rest_states = states;
    let mut clients: Vec<TestClient<A, M, S>> = Vec::new();
    let n = rest_apis.len();
    let mut k: usize = 0;
    while k < n
        invariant
            n == apis0.len(),
            participants0.len() == n,
            models0.len() == n,
            states0.len() == n,
            k <= n,
            rest_apis@ == apis0.skip(k as int),
            rest_participants@ == participants0.skip(k as int),
            rest_models@ == models0.skip(k as int),
            rest_states@ == states0.skip(k as int),
            clients@.len() == k,
            forall|i: int|
                0 <= i < k ==> {
                    &&& #[trigger] clients@[i].api == apis0[i]
                    &&& clients@[i].participant_settings == participants0[i]
                    &&& clients@[i].local_model == models0[i]
                    &&& clients@[i].client_state == states0[i]
                },
        decreases n - k,
    {
        let api = rest_apis.remove(0);
        let participant_settings = rest_participants.remove(0);
        let local_model = rest_models.remove(0);
        let client_state = rest_states.remove(0);
        assert(rest_apis@ =~= apis0.skip(k + 1));
        assert(rest_participants@ =~= participants0.skip(k + 1));
        assert(rest_models@ =~= models0.skip(k + 1));
        assert(rest_states@ =~= states0.skip(k + 1));
        clients.push(TestClient { api, local_model, participant_settings, client_state });
        k = k + 1;
    }
    clients
}

/// Builds one waiting participant per API client, with the participant
/// settings, public key and local model at the same position (`None` for
/// participants that send no model); fails when the cryptography library
/// cannot be initialised. An empty batch is built without initialising it.
pub fn build_test_clients<A, M, S>(
    apis: Vec<A>,
    participants: Vec<S>,
    participant_pks: Vec<Vec<u8>>,
    models: Vec<Option<M>>,
) -> (r: Result<Vec<TestClient<A, M, S>>, InitError>)
    requires
        participants@.len() == apis@.len(),
        participant_pks@.len() == apis@.len(),
        models@.len() == apis@.len(),
    ensures
        apis@.len() == 0 ==> (r matches Ok(clients) && clients@.len() == 0),
        r matches Ok(clients) ==> {
            &&& clients@.len() == apis@.len()
            &&& forall|i: int|
                0 <= i < clients@.len() ==> {
                    &&& #[trigger] clients@[i].api == apis@[i]
                    &&& clients@[i].participant_settings == participants@[i]
                    &&& clients@[i].local_model == models@[i]
                    &&& clients@[i].client_state@ == initial_view(participant_pks@[i]@)
                }
        },
{
    let mut states: Vec<ClientStateMachine> = Vec::new();
    let mut k: usize = 0;
    while k < participant_pks.len()
        invariant
            k <= participant_pks@.len(),
            participant_pks@.len() == apis@.len(),
            states@.len() == k,
            forall|i: int|
                0 <= i < k ==> (#[trigger] states@[i])@ == initial_view(participant_pks@[i]@),
        decreases participant_pks@.len() - k,
    {
        let state = match ClientStateMachine::new(copy_bytes(&participant_pks[k])) {
            Ok(m) => m,
            Err(e) => return Err(e),
        };
        states.push(state);
        k = k + 1;
    }
    let ghost states0 = states@;
    let clients = assemble_test_clients(apis, participants, models, states);
    assert forall|i: int| 0 <= i < clients@.len() implies (#[trigger] clients@[i]).client_state@
        == initial_view(participant_pks@[i]@) by {
        assert(clients@[i].api == apis@[i]);
        assert(clients@[i].client_state == states0[i]);
    }
    Ok(clients)
}

/// The steps of the driver in one round.
#[derive(Clone, Copy, Debug, PartialEq, Eq, Structural)]
pub enum DriverStep {
    BuildClients,
    WaitForSum,
    RunSumClients,
    WaitForUpdate,
    RunUpdateClients,
    WaitForSum2,
    RunSum2Clients,
    WaitForIdle,
}

/// The number of rounds the driver runs.
pub const ROUNDS: u8 = 10;

/// The phase number a waiting step waits for in the metrics: 1 for sum
/// (and for the start of the next round), 2 for update, 3 for sum2.
pub open spec fn awaited_phase(step: DriverStep) -> Option<u8> {
    match step {
        DriverStep::WaitForSum => Some(1),
        DriverStep::WaitForUpdate => Some(2),
        DriverStep::WaitForSum2 => Some(3),
        DriverStep::WaitForIdle => Some(1),
        _ => None,
    }
}

/// See [`awaited_phase`].
pub fn phase_to_wait_for(step: DriverStep) -> (p: Option<u8>)
    ensures
        p == awaited_phase(step),
{
    match step {
        DriverStep::WaitForSum => Some(1),
        DriverStep::WaitForUpdate => Some(2),
        DriverStep::WaitForSum2 => Some(3),
        DriverStep::WaitForIdle => Some(1),
        _ => None,
    }
}

/// The driver's step after `step` of round `round` ended (`ok` when it
/// succeeded): each round builds the clients, waits for sum, runs the sum
/// clients, waits for update, runs the update clients, waits for sum2, runs
/// the sum2 clients and waits for the next sum phase; after [`ROUNDS`]
/// rounds, or at the first failure, the driver stops (`None`).
pub open spec fn next_driver_step(round: u8, step: DriverStep, ok: bool) -> Option<(u8, DriverStep)> {
    if !ok {
        None
    } else {
        match step {
            DriverStep::BuildClients => Some((round, DriverStep::WaitForSum)),
            DriverStep::WaitForSum => Some((round, DriverStep::RunSumClients)),
            DriverStep::RunSumClients => Some((round, DriverStep::WaitForUpdate)),
            DriverStep::WaitForUpdate => Some((round, DriverStep::RunUpdateClients)),
            DriverStep::RunUpdateClients => Some((round, DriverStep::WaitForSum2)),
            DriverStep::WaitForSum2 => Some((round, DriverStep::RunSum2Clients)),
            DriverStep::RunSum2Clients => Some((round, DriverStep::WaitForIdle)),
            DriverStep::WaitForIdle => if round + 1 < ROUNDS {
                Some(((round + 1) as u8, DriverStep::BuildClients))
            } else {
                None
            },
        }
    }
}

/// See [`next_driver_step`].
pub fn driver_step(round: u8, step: DriverStep, ok: bool) -> (r: Option<(u8, DriverStep)>)
    ensures
        r == next_driver_step(round, step, ok),
{
    if !ok {
        return None;
    }
    match step {
        DriverStep::BuildClients => Some((round, DriverStep::WaitForSum)),
        DriverStep::WaitForSum => Some((round, DriverStep::RunSumClients)),
        DriverStep::RunSumClients => Some((round, DriverStep::WaitForUpdate)),
        DriverStep::WaitForUpdate => Some((round, DriverStep::RunUpdateClients)),
        DriverStep::RunUpdateClients => Some((round, DriverStep::WaitForSum2)),
        DriverStep::WaitForSum2 => Some((round, DriverStep::RunSum2Clients)),
        DriverStep::RunSum2Clients => Some((round, DriverStep::WaitForIdle)),
        DriverStep::WaitForIdle => {
            if round < ROUNDS - 1 {
                Some((round + 1, DriverStep::BuildClients))
            } else {
                None
            }
        },
    }
}

/// A round in which every step succeeds runs the eight steps in order and
/// then starts the next round, until the last round, after which the driver
/// stops.
pub proof fn lemma_driver_round(round: u8)
    ensures
        ({
            let s1 = next_driver_step(round, DriverStep::BuildClients, true);
            let s2 = next_driver_step(round, DriverStep::WaitForSum, true);
            let s3 = next_driver_step(round, DriverStep::RunSumClients, true);
            let s4 = next_driver_step(round, DriverStep::WaitForUpdate, true);
            let s5 = next_driver_step(round, DriverStep::RunUpdateClients, true);
            let s6 = next_driver_step(round, DriverStep::WaitForSum2, true);
            let s7 = next_driver_step(round, DriverStep::RunSum2Clients, true);
            let s8 = next_driver_step(round, DriverStep::WaitForIdle, true);
            &&& s1 == Some((round, DriverStep::WaitForSum))
            &&& s2 == Some((round, DriverStep::RunSumClients))
            &&& s3 == Some((round, DriverStep::WaitForUpdate))
            &&& s4 == Some((round, DriverStep::RunUpdateClients))
            &&& s5 == Some((round, DriverStep::WaitForSum2))
            &&& s6 == Some((round, DriverStep::RunSum2Clients))
            &&& s7 == Some((round, DriverStep::WaitForIdle))
            &&& round + 1 < ROUNDS ==> s8 == Some(((round + 1) as u8, DriverStep::BuildClients))
            &&& round + 1 >= ROUNDS ==> s8 is None
        }),
{
}

/// A step that failed ends the driver, whatever the round and the step.
pub proof fn lemma_failed_step_stops(round: u8, step: DriverStep)
    ensures
        next_driver_step(round, step, false) is None,
{
}

/// Why a batch of participants cannot run.
#[derive(Clone, Copy, Debug, PartialEq, Eq, Structural)]
pub enum RunnerError {
    NoSumClients,
    NoUpdateClients,
    NoSum2Clients,
}

impl RunnerError {
    /// The text that describes the error.
    pub open spec fn description(self) -> Seq<char> {
        match self {
            RunnerError::NoSumClients => "No sum clients available"@,
            RunnerError::NoUpdateClients => "No update clients available"@,
            RunnerError::NoSum2Clients => "No sum2 clients available"@,
        }
    }

    /// See [`RunnerError::description`].
    pub fn message(&self) -> (m: String)
        ensures
            m@ == self.description(),
    {
        match self {
            RunnerError::NoSumClients => String::from_str("No sum clients available"),
            RunnerError::NoUpdateClients => String::from_str("No update clients available"),
            RunnerError::NoSum2Clients => String::from_str("No sum2 clients available"),
        }
    }
}

/// Runs the participants of a round batch by batch: the sum participants,
/// whose continuations become the sum2 participants, the update
/// participants, then the sum2 participants. Each batch runs once.
pub struct ClientRunner<F, H> {
    pub sum_clients: Option<F>,
    pub update_clients: Option<F>,
    pub sum2_clients: Option<F>,
    pub filter_handle: H,
}

impl<F, H> ClientRunner<F, H> {
    /// A runner with the sum and update batches and no sum2 batch yet.
    pub fn new(filter_handle: H, sum_clients: F, update_clients: F) -> (r: Self)
        ensures
            r.sum_clients == Some(sum_clients),
            r.update_clients == Some(update_clients),
            r.sum2_clients is None,
            r.filter_handle == filter_handle,
    {
        ClientRunner {
            sum_clients: Some(sum_clients),
            update_clients: Some(update_clients),
            sum2_clients: None,
            filter_handle,
        }
    }

    /// Takes the sum batch to run it; fails when it was taken already.
    pub fn take_sum_clients(&mut self) -> (r: Result<F, RunnerError>)
        ensures
            match old(self).sum_clients {
                Some(b) => r == Ok::<F, RunnerError>(b),
                None => r == Err::<F, RunnerError>(RunnerError::NoSumClients),
            },
            final(self).sum_clients is None,
            final(self).update_clients == old(self).update_clients,
            final(self).sum2_clients == old(self).sum2_clients,
            final(self).filter_handle == old(self).filter_handle,
    {
        match self.sum_clients.take() {
            Some(b) => Ok(b),
            None => Err(RunnerError::NoSumClients),
        }
    }

    /// Keeps the continuations of the sum participants as the sum2 batch.
    pub fn set_sum2_clients(&mut self, sum2_clients: F)
        ensures
            final(self).sum2_clients == Some(sum2_clients),
            final(self).sum_clients == old(self).sum_clients,
            final(self).update_clients == old(self).update_clients,
            final(self).filter_handle == old(self).filter_handle,
    {
        self.sum2_clients = Some(sum2_clients);
    }

    /// Takes the update batch to run it; fails when it was taken already.
    pub fn take_update_clients(&mut self) -> (r: Result<F, RunnerError>)
        ensures
            match old(self).update_clients {
                Some(b) => r == Ok::<F, RunnerError>(b),
                None => r == Err::<F, RunnerError>(RunnerError::NoUpdateClients),
            },
            final(self).update_clients is None,
            final(self).sum_clients == old(self).sum_clients,
            final(self).sum2_clients == old(self).sum2_clients,
            final(self).filter_handle == old(self).filter_handle,
    {
        match self.update_clients.take() {
            Some(b) => Ok(b),
            None => Err(RunnerError::NoUpdateClients),
        }
    }

    /// Takes the sum2 batch to run it; fails when the sum batch has not run
    /// yet or the sum2 batch was taken already.
    pub fn take_sum2_clients(&mut self) -> (r: Result<F, RunnerError>)
        ensures
            match old(self).sum2_clients {
                Some(b) => r == Ok::<F, RunnerError>(b),
                None => r == Err::<F, RunnerError>(RunnerError::NoSum2Clients),
            },
            final(self).sum2_clients is None,
            final(self).sum_clients == old(self).sum_clients,
            final(self).update_clients == old(self).update_clients,
            final(self).filter_handle == old(self).filter_handle,
    {
        match self.sum2_clients.take() {
            Some(b) => Ok(b),
            None => Err(RunnerError::NoSum2Clients),
        }
    }
}

/// One point of the phase metric.
pub struct PhaseReading {
    pub value: u8,
}

/// One series of the phase metric.
pub struct PhaseSeries {
    pub values: Vec<PhaseReading>,
}

/// The metrics hold no phase.
#[derive(Clone, Copy, Debug, PartialEq, Eq, Structural)]
pub struct NoPhase;

impl NoPhase {
    /// The text that describes the error.
    pub open spec fn description(self) -> Seq<char> {
        "no phase"@
    }

    /// See [`NoPhase::description`].
    pub fn message(&self) -> (m: String)
        ensures
            m@ == self.description(),
    {
        String::from_str("no phase")
    }
}

/// The coordinator's phase as the metrics report it: the first value of
/// the first series of what the query returned (`None` when the result
/// could not be read).
pub open spec fn reported_phase(series: Option<Seq<PhaseSeries>>) -> Option<u8> {
    match series {
        None => None,
        Some(s) => if s.len() > 0 && s[0].values@.len() > 0 {
            Some(s[0].values@[0].value)
        } else {
            None
        },
    }
}

/// See [`reported_phase`]; `NoPhase` when there is none.
pub fn deserialize_phase(series: Option<Vec<PhaseSeries>>) -> (r: Result<u8, NoPhase>)
    ensures
        match reported_phase(
            match series {
                Some(v) => Some(v@),
                None => None,
            },
        ) {
            Some(p) => r == Ok::<u8, NoPhase>(p),
            None => r == Err::<u8, NoPhase>(NoPhase),
        },
{
    match series {
        None => Err(NoPhase),
        Some(s) => {
            if s.len() > 0 && s[0].values.len() > 0 {
                Ok(s[0].values[0].value)
            } else {
                Err(NoPhase)
            }
        },
    }
}

/// What waiting for a phase does after one reading of the metrics.
pub enum PhaseWait {
    /// The wanted phase is reached.
    Reached,
    /// Still waiting; the text tells what was read.
    Waiting(String),
}

/// The text shown while the coordinator is in another phase.
pub open spec fn current_phase_text(phase: u8) -> Seq<char> {
    "current phase: "@ + decimal(phase as nat)
}

/// The text shown while the metrics hold no phase.
pub open spec fn no_phase_text() -> Seq<char> {
    "No phase metrics available! If you use docker-compose, try to restart the coordinator via `docker restart docker_coordinator_1`"@
}

/// The text shown when waiting for a phase starts.
pub open spec fn wait_for_phase_text(phase: u8) -> Seq<char> {
    "Wait for phase "@ + decimal(phase as nat)
}

/// See [`wait_for_phase_text`].
pub fn wait_for_phase_message(phase: u8) -> (m: String)
    ensures
        m@ == wait_for_phase_text(phase),
{
    let mut m = String::from_str("Wait for phase ");
    push_decimal(&mut m, phase as u64);
    m
}

/// Waiting for phase `wanted` after one reading of the metrics: it ends
/// when the reading is the wanted phase; otherwise it goes on, reporting
/// the phase read or that none was.
pub fn phase_wait_step(reading: Result<u8, NoPhase>, wanted: u8) -> (w: PhaseWait)
    ensures
        match reading {
            Ok(p) => if p == wanted {
                w is Reached
            } else {
                w matches PhaseWait::Waiting(t) && t@ == current_phase_text(p)
            },
            Err(_) => w matches PhaseWait::Waiting(t) && t@ == no_phase_text(),
        },
{
    match reading {
        Ok(p) => {
            if p == wanted {
                PhaseWait::Reached
            } else {
                let mut t = String::from_str("current phase: ");
                push_decimal(&mut t, p as u64);
                PhaseWait::Waiting(t)
            }
        },
        Err(_) => PhaseWait::Waiting(
            String::from_str(
                "No phase metrics available! If you use docker-compose, try to restart the coordinator via `docker restart docker_coordinator_1`",
            ),
        ),
    }
}

} // verus!
