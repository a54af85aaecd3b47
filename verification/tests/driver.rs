use xaynet_e2e::client::{ClientState, ClientStateMachine, ClientStateName, RoundParams};
use xaynet_e2e::e2e::{
    assemble_test_clients, build_test_clients, driver_step, phase_to_wait_for, DriverStep, ROUNDS,
    deserialize_phase, determine_role, phase_wait_step, signature_messages,
    wait_for_phase_message, ClientRunner, MaxMessageSize, NoPhase, PhaseReading, PhaseSeries,
    PhaseWait, RunnerError, TestClient, TestClientBuilder, TestClientBuilderSettings,
    TestClientSettings,
};

#[test]
fn builder_settings_from_coordinator() {
    let s = TestClientBuilderSettings::from_coordinator_settings(3, 5, 100, "cfg", MaxMessageSize::unlimited());
    assert_eq!(s.number_of_sum, 3);
    assert_eq!(s.number_of_update, 5);
    assert_eq!(s.model_size, 100);
    assert_eq!(s.test_client_settings.aggregation_config, "cfg");
    assert!(s.test_client_settings.max_message_size.limit.is_none());
    let b = TestClientBuilder::new(s, "http://localhost:8081");
    assert_eq!(b.api_client, "http://localhost:8081");
    assert_eq!(b.settings.number_of_update, 5);
}

#[test]
fn participant_settings_take_the_key() {
    let t = TestClientSettings { aggregation_config: 1u8, max_message_size: MaxMessageSize { limit: Some(10) } };
    let p = t.into_participant_settings("secret");
    assert_eq!(p.secret_key, "secret");
    assert_eq!(p.aggregation_config, 1);
    assert_eq!(p.max_message_size.limit, Some(10));
}

#[test]
fn role_precedence() {
    assert_eq!(determine_role(true, true), ClientStateName::Sum);
    assert_eq!(determine_role(true, false), ClientStateName::Sum);
    assert_eq!(determine_role(false, true), ClientStateName::Update);
    assert_eq!(determine_role(false, false), ClientStateName::Awaiting);
}

#[test]
fn messages_to_sign() {
    let (sum, update) = signature_messages(&[1, 2]);
    assert_eq!(sum, b"\x01\x02sum".to_vec());
    assert_eq!(update, b"\x01\x02update".to_vec());
}

#[test]
fn test_client_state_and_model() {
    let mut c: TestClient<&str, Vec<u8>, u8> = TestClient::new("api", 7, vec![9; 32]).expect("crypto initialises");
    assert_eq!(c.participant_settings, 7);
    assert_eq!(c.client_state.round_params().seed, vec![0; 32]);
    assert_eq!(c.get_current_state(), ClientStateName::Awaiting);
    assert!(c.local_model.is_none());
    c.set_local_model(vec![1; 3]);
    assert_eq!(c.local_model, Some(vec![1; 3]));
}

#[test]
fn runner_batches_run_once_in_order() {
    let mut r = ClientRunner::new((), "sum", "update");
    assert_eq!(r.take_sum2_clients(), Err(RunnerError::NoSum2Clients));
    assert_eq!(r.take_sum_clients(), Ok("sum"));
    assert_eq!(r.take_sum_clients(), Err(RunnerError::NoSumClients));
    r.set_sum2_clients("sum2");
    assert_eq!(r.take_update_clients(), Ok("update"));
    assert_eq!(r.take_update_clients(), Err(RunnerError::NoUpdateClients));
    assert_eq!(r.take_sum2_clients(), Ok("sum2"));
    assert_eq!(r.take_sum2_clients(), Err(RunnerError::NoSum2Clients));
    assert_eq!(RunnerError::NoSumClients.message(), "No sum clients available");
    assert_eq!(RunnerError::NoSum2Clients.message(), "No sum2 clients available");
}

#[test]
fn phase_from_metrics() {
    let series = vec![
        PhaseSeries { values: vec![PhaseReading { value: 2 }, PhaseReading { value: 3 }] },
        PhaseSeries { values: vec![PhaseReading { value: 4 }] },
    ];
    assert_eq!(deserialize_phase(Some(series)), Ok(2));
    assert_eq!(deserialize_phase(None), Err(NoPhase));
    assert_eq!(deserialize_phase(Some(vec![])), Err(NoPhase));
    assert_eq!(deserialize_phase(Some(vec![PhaseSeries { values: vec![] }])), Err(NoPhase));
}

#[test]
fn waiting_for_phase() {
    assert!(matches!(phase_wait_step(Ok(1), 1), PhaseWait::Reached));
    assert!(matches!(phase_wait_step(Ok(3), 1), PhaseWait::Waiting(t) if t == "current phase: 3"));
    assert!(matches!(
        phase_wait_step(Err(NoPhase), 1),
        PhaseWait::Waiting(t) if t.starts_with("No phase metrics available!")
    ));
    assert_eq!(wait_for_phase_message(2), "Wait for phase 2");
}

#[test]
fn no_phase_text() {
    assert_eq!(NoPhase.message(), "no phase");
}

#[test]
fn clients_are_built_with_their_models() {
    let clients = build_test_clients(vec!["a", "b"], vec![1u8, 2], vec![vec![1], vec![2]], vec![Some(vec![1u8; 3]), None]).unwrap();
    assert_eq!(clients.len(), 2);
    assert_eq!(clients[0].api, "a");
    assert_eq!(clients[1].participant_settings, 2);
    assert_eq!(clients[0].local_model, Some(vec![1; 3]));
    assert!(clients[1].local_model.is_none());
    assert_eq!(clients[1].get_current_state(), ClientStateName::Awaiting);
    let none: Vec<TestClient<&str, u8, u8>> =
        build_test_clients(Vec::<&str>::new(), Vec::new(), Vec::new(), Vec::new()).unwrap();
    assert!(none.is_empty());
}

#[test]
fn driver_runs_ten_rounds_of_eight_steps() {
    let mut state = Some((0u8, DriverStep::BuildClients));
    let mut steps = 0;
    let mut waits = Vec::new();
    while let Some((round, step)) = state {
        steps += 1;
        if let Some(p) = phase_to_wait_for(step) {
            if round == 0 {
                waits.push(p);
            }
        }
        state = driver_step(round, step, true);
    }
    assert_eq!(steps, 8 * ROUNDS as usize);
    assert_eq!(waits, vec![1, 2, 3, 1]);
    assert_eq!(driver_step(3, DriverStep::RunSumClients, false), None);
}

#[test]
fn assembled_batch_keeps_positions() {
    let state = |seed: u8| {
        let mut p = RoundParams::unset();
        p.seed = vec![seed; 2];
        ClientStateMachine::Sum(ClientState { round_params: p, participant_pk: vec![seed] })
    };
    let c = assemble_test_clients(vec!["a", "b"], vec![1u8, 2], vec![None, Some(5u8)], vec![state(1), state(2)]);
    assert_eq!(c.len(), 2);
    assert_eq!(c[1].api, "b");
    assert_eq!(c[1].local_model, Some(5));
    assert_eq!(c[0].get_current_state(), ClientStateName::Sum);
    assert_eq!(c[1].client_state.round_params().seed, vec![2, 2]);
}
