use xaynet_e2e::client::{
    TaskProgress, TaskReply, TaskRequest,
    bytes_equal, copy_bytes, InitError, mask_length, require_available, ClientError, ClientEvent,
    ClientState, ClientStateMachine, ClientStateName, PetError, Role, RoundParams,
};

fn params(seed: u8) -> RoundParams {
    RoundParams {
        pk: vec![1, 2, 3],
        sum: 0.5f64.to_bits(),
        update: 0.9f64.to_bits(),
        seed: vec![seed; 4],
        mask_config: vec![0, 1],
        model_length: 10,
    }
}

fn fetched(seed: u8, role: Role) -> ClientEvent<String> {
    ClientEvent::RoundParamsFetched(Ok((params(seed), true, role)))
}

fn done() -> ClientEvent<String> {
    ClientEvent::TaskFinished(Ok(()))
}

fn failed(e: ClientError<String>) -> ClientEvent<String> {
    ClientEvent::TaskFinished(Err(e))
}

fn awaiting(seed: u8) -> ClientStateMachine {
    ClientStateMachine::Awaiting(ClientState { round_params: params(seed), participant_pk: vec![9; 32] })
}

#[test]
fn new_machine_awaits_with_default_params() {
    let m = ClientStateMachine::new(vec![9; 32]).expect("crypto library initialises");
    assert_eq!(m.state_name(), ClientStateName::Awaiting);
    let p = m.round_params();
    assert!(p.pk == vec![0; 32] && p.seed == vec![0; 32] && p.model_length == 0);
    assert!(matches!(ClientStateMachine::new_with(vec![1], Err(())), Err(InitError)));
    let m = ClientStateMachine::new_with(vec![1], Ok(())).unwrap();
    assert_eq!(m.state_name(), ClientStateName::Awaiting);
}

#[test]
fn summer_goes_through_sum_and_sum2() {
    let m = awaiting(0).next(fetched(1, Role::Summer));
    assert_eq!(m.state_name(), ClientStateName::Sum);
    assert_eq!(m.round_params().seed, vec![1; 4]);
    let m = m.next(done());
    assert_eq!(m.state_name(), ClientStateName::Sum2);
    let m = m.next(done());
    assert_eq!(m.state_name(), ClientStateName::Awaiting);
    assert_eq!(m.round_params().seed, vec![1; 4]);
}

#[test]
fn updater_goes_to_update_then_waits() {
    let m = awaiting(0).next(fetched(2, Role::Updater));
    assert_eq!(m.state_name(), ClientStateName::Update);
    let m = m.next(done());
    assert_eq!(m.state_name(), ClientStateName::Awaiting);
}

#[test]
fn unselected_takes_params_and_waits() {
    let m = awaiting(0).next(fetched(3, Role::Unselected));
    assert_eq!(m.state_name(), ClientStateName::Awaiting);
    assert_eq!(m.round_params().seed, vec![3; 4]);
}

#[test]
fn same_round_keeps_waiting_whatever_the_role() {
    let m = awaiting(4).next(fetched(4, Role::Summer));
    assert_eq!(m.state_name(), ClientStateName::Awaiting);
}

#[test]
fn unequal_fractions_make_a_new_round() {
    let m = awaiting(4).next(ClientEvent::<String>::RoundParamsFetched(Ok((params(4), false, Role::Summer))));
    assert_eq!(m.state_name(), ClientStateName::Sum);
}

#[test]
fn failed_fetch_keeps_waiting() {
    let m = awaiting(4).next(ClientEvent::RoundParamsFetched(Err("down".to_string())));
    assert_eq!(m.state_name(), ClientStateName::Awaiting);
    assert_eq!(m.round_params().seed, vec![4; 4]);
}

#[test]
fn failed_sum_task_is_retried_and_outdated_resets() {
    let m = awaiting(0).next(fetched(1, Role::Summer));
    let m = m.next(failed(ClientError::Api("timeout".to_string())));
    assert_eq!(m.state_name(), ClientStateName::Sum);
    let m = m.next(failed(ClientError::TooEarly("sum dict")));
    assert_eq!(m.state_name(), ClientStateName::Sum);
    let m = m.next(failed(ClientError::RoundOutdated));
    assert_eq!(m.state_name(), ClientStateName::Awaiting);
}

#[test]
fn update_and_sum2_reset_on_outdated_and_retry_on_failure() {
    let m = awaiting(0).next(fetched(1, Role::Updater));
    let m = m.next(failed(ClientError::ParticipantErr(PetError::InvalidModel)));
    assert_eq!(m.state_name(), ClientStateName::Update);
    let m = m.next(failed(ClientError::RoundOutdated));
    assert_eq!(m.state_name(), ClientStateName::Awaiting);

    let m = ClientStateMachine::Sum2(ClientState { round_params: params(1), participant_pk: vec![9; 32] });
    let m = m.next(failed(ClientError::TooEarly("seeds")));
    assert_eq!(m.state_name(), ClientStateName::Sum2);
    let m = m.next(failed(ClientError::RoundOutdated));
    assert_eq!(m.state_name(), ClientStateName::Awaiting);
}

#[test]
fn events_of_other_states_change_nothing() {
    let m = awaiting(0).next(done());
    assert_eq!(m.state_name(), ClientStateName::Awaiting);
    let m = ClientStateMachine::Sum(ClientState { round_params: params(1), participant_pk: vec![9; 32] });
    let m = m.next(fetched(2, Role::Updater));
    assert_eq!(m.state_name(), ClientStateName::Sum);
    assert_eq!(m.round_params().seed, vec![1; 4]);
}

#[test]
fn freshness_compares_seeds() {
    let state = ClientState { round_params: params(1), participant_pk: vec![9; 32] };
    assert!(state.check_round_freshness::<String>(Ok(params(1))).is_ok());
    let mut other = params(1);
    other.sum = 0.1f64.to_bits();
    assert!(state.check_round_freshness::<String>(Ok(other)).is_ok());
    assert!(matches!(
        state.check_round_freshness::<String>(Ok(params(2))),
        Err(ClientError::RoundOutdated)
    ));
    assert!(matches!(
        state.check_round_freshness(Err("net".to_string())),
        Err(ClientError::Api(e)) if e == "net"
    ));
}

#[test]
fn send_plan_of_state() {
    let state = ClientState { round_params: params(1), participant_pk: vec![9; 32] };
    let plan = state.send_message_plan(vec![0u8; 5000]);
    assert_eq!(plan.iter().map(|m| m.len()).collect::<Vec<_>>(), vec![2048, 2048, 904]);
}

#[test]
fn missing_inputs_are_too_early() {
    assert!(matches!(require_available::<u8, ()>(None, "local model"), Err(ClientError::TooEarly("local model"))));
    assert!(matches!(require_available::<u8, ()>(Some(3), "sum dict"), Ok(3)));
}

#[test]
fn mask_length_fits_usize() {
    assert!(matches!(mask_length::<()>(12), Ok(12)));
    assert!(matches!(mask_length::<()>(u64::MAX), Ok(n) if n as u64 == u64::MAX));
}

#[test]
fn byte_helpers() {
    assert!(bytes_equal(&vec![1, 2], &vec![1, 2]));
    assert!(!bytes_equal(&vec![1, 2], &vec![1, 3]));
    assert!(!bytes_equal(&vec![1, 2], &vec![1]));
    assert_eq!(copy_bytes(&vec![4, 5, 6]), vec![4, 5, 6]);
    let p = params(7);
    let q = p.duplicate();
    assert!(p.equals(&q));
    let mut r = params(7);
    r.model_length = 11;
    assert!(!p.equals(&r));
    let u = RoundParams::unset();
    assert!(!p.equals(&u));
}

fn step(
    state: &ClientState,
    name: ClientStateName,
    progress: TaskProgress,
    reply: TaskReply<String>,
) -> Result<(TaskProgress, TaskRequest), Result<(), ClientError<String>>> {
    state.task_step(name, progress, reply)
}

#[test]
fn update_task_runs_to_completion() {
    let state = ClientState { round_params: params(1), participant_pk: vec![9; 32] };
    let name = ClientStateName::Update;
    let (p, q) = step(&state, name, TaskProgress::Start, TaskReply::Begin).unwrap();
    assert!(matches!(q, TaskRequest::FetchRoundParams));
    let (p, q) = step(&state, name, p, TaskReply::RoundParams(Ok(params(1)))).unwrap();
    assert!(matches!(q, TaskRequest::FetchLocalModel));
    let (p, q) = step(&state, name, p, TaskReply::LocalModel(true)).unwrap();
    assert!(matches!(q, TaskRequest::FetchSums));
    let (p, q) = step(&state, name, p, TaskReply::Sums(Ok(true))).unwrap();
    assert!(matches!(q, TaskRequest::ComposeUpdate(ref k) if *k == vec![1, 2, 3]));
    let sealed: Vec<u8> = (0..5000u32).map(|i| i as u8).collect();
    let (p, q) = step(&state, name, p, TaskReply::Composed(Ok(sealed.clone()))).unwrap();
    let mut sent = Vec::new();
    let TaskRequest::SendMessage(m) = q else { panic!("expected a send") };
    sent.push(m);
    let (p, q) = step(&state, name, p, TaskReply::Sent(Ok(()))).unwrap();
    let TaskRequest::SendMessage(m) = q else { panic!("expected a send") };
    sent.push(m);
    let (p, q) = step(&state, name, p, TaskReply::Sent(Ok(()))).unwrap();
    let TaskRequest::SendMessage(m) = q else { panic!("expected a send") };
    sent.push(m);
    assert!(matches!(step(&state, name, p, TaskReply::Sent(Ok(()))), Err(Ok(()))));
    assert_eq!(sent.iter().map(|m| m.len()).collect::<Vec<_>>(), vec![2048, 2048, 904]);
    assert_eq!(sent.concat(), sealed);
}

#[test]
fn task_errors() {
    let state = ClientState { round_params: params(1), participant_pk: vec![9; 32] };
    let r = step(&state, ClientStateName::Sum, TaskProgress::AwaitRoundParams, TaskReply::RoundParams(Ok(params(2))));
    assert!(matches!(r, Err(Err(ClientError::RoundOutdated))));
    let r = step(&state, ClientStateName::Update, TaskProgress::AwaitLocalModel, TaskReply::LocalModel(false));
    assert!(matches!(r, Err(Err(ClientError::TooEarly("local model")))));
    let r = step(&state, ClientStateName::Update, TaskProgress::AwaitSums, TaskReply::Sums(Ok(false)));
    assert!(matches!(r, Err(Err(ClientError::TooEarly("sum dict")))));
    let r = step(&state, ClientStateName::Sum2, TaskProgress::AwaitMaskLength, TaskReply::MaskLength(Ok(None)));
    assert!(matches!(r, Err(Err(ClientError::TooEarly("length")))));
    let r = step(&state, ClientStateName::Sum2, TaskProgress::AwaitMaskLength, TaskReply::MaskLength(Ok(Some(7))));
    assert!(matches!(r, Ok((TaskProgress::AwaitSeeds(7), TaskRequest::FetchSeeds(ref k))) if *k == vec![9; 32]));
    let r = step(&state, ClientStateName::Sum2, TaskProgress::AwaitSeeds(7), TaskReply::Seeds(Ok(false)));
    assert!(matches!(r, Err(Err(ClientError::TooEarly("seeds")))));
    let r = step(&state, ClientStateName::Sum2, TaskProgress::AwaitSeeds(7), TaskReply::Seeds(Ok(true)));
    assert!(matches!(r, Ok((TaskProgress::ComposingSum2(7), TaskRequest::ComposeSum2(ref k, 7))) if *k == vec![1, 2, 3]));
    let r = step(&state, ClientStateName::Sum2, TaskProgress::ComposingSum2(7), TaskReply::Composed(Err(PetError::InvalidMask)));
    assert!(matches!(r, Err(Err(ClientError::ParticipantErr(PetError::InvalidMask)))));
    let r = step(&state, ClientStateName::Sum, TaskProgress::AwaitRoundParams, TaskReply::RoundParams(Err("net".to_string())));
    assert!(matches!(r, Err(Err(ClientError::Api(e))) if e == "net"));
    let r = step(&state, ClientStateName::Update, TaskProgress::AwaitSums, TaskReply::Begin);
    assert!(matches!(r, Ok((TaskProgress::AwaitSums, TaskRequest::FetchSums))));
    assert!(matches!(step(&state, ClientStateName::Awaiting, TaskProgress::Start, TaskReply::Begin), Err(Ok(()))));
}

#[test]
fn foreign_progress_restarts_the_task() {
    let state = ClientState { round_params: params(1), participant_pk: vec![9; 32] };
    let r = step(&state, ClientStateName::Sum, TaskProgress::AwaitLocalModel, TaskReply::LocalModel(true));
    assert!(matches!(r, Ok((TaskProgress::AwaitRoundParams, TaskRequest::FetchRoundParams))));
    let r = step(&state, ClientStateName::Awaiting, TaskProgress::AwaitSeeds(3), TaskReply::Seeds(Ok(true)));
    assert!(matches!(r, Err(Ok(()))));
}
