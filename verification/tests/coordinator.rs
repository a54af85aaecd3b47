use xaynet_e2e::client::RoundParams;
use xaynet_e2e::state_machine::{
    Shared,
    CoordinatorState, EncryptKeyPair, ModelUpdate, PhaseName, PhaseOutcome, PhaseStateError,
    RequestError, StateMachine, StateMachineInitializationError, StateMachineInitializer,
    UnmaskGlobalModelError,
};

fn state(round_id: u64) -> CoordinatorState {
    CoordinatorState {
        round_id,
        keys: EncryptKeyPair { public: vec![1; 32], secret: vec![2; 32] },
        round_params: RoundParams {
            pk: vec![1; 32],
            sum: 0.01f64.to_bits(),
            update: 0.1f64.to_bits(),
            seed: vec![3; 32],
            mask_config: vec![],
            model_length: 4,
        },
        model_size: 4,
    }
}

fn initializer() -> StateMachineInitializer<(), (), (), ()> {
    StateMachineInitializer::new((), (), (), ())
}

fn shared(round_id: u64) -> Shared<()> {
    Shared { state: state(round_id), redis_handle: () }
}

#[test]
fn phases_cycle_when_all_complete() {
    let mut m = StateMachine::Idle(shared(0));
    let expected = [PhaseName::Sum, PhaseName::Update, PhaseName::Sum2, PhaseName::Unmask, PhaseName::Idle];
    for (i, phase) in expected.iter().enumerate() {
        m = m.next(PhaseOutcome::Done(state(i as u64 + 1))).unwrap();
        assert_eq!(m.phase_name(), *phase);
    }
}

#[test]
fn failure_goes_to_error_then_idle() {
    let m = StateMachine::Update(shared(1));
    let m = m.next(PhaseOutcome::Failed(state(1), PhaseStateError::Phase(PhaseName::Update))).unwrap();
    assert_eq!(m.phase_name(), PhaseName::Error);
    assert!(matches!(m, StateMachine::Error(_, PhaseStateError::Phase(PhaseName::Update))));
    let m = m.next(PhaseOutcome::Done(state(1))).unwrap();
    assert_eq!(m.phase_name(), PhaseName::Idle);
}

#[test]
fn channel_error_shuts_down_and_stops() {
    let m = StateMachine::Sum(shared(1));
    let m = m.next(PhaseOutcome::Failed(state(1), PhaseStateError::Channel)).unwrap();
    let m = m.next(PhaseOutcome::Done(state(1))).unwrap();
    assert_eq!(m.phase_name(), PhaseName::Shutdown);
    assert!(m.next(PhaseOutcome::Done(state(1))).is_none());
}

#[test]
fn request_error_messages() {
    assert_eq!(RequestError::MessageRejected.message(), "the message was rejected");
    assert_eq!(
        RequestError::AggregationFailed.message(),
        "invalid update: the model or scalar sent by the participant could not be aggregated"
    );
    assert_eq!(
        RequestError::InternalError("no seed").message(),
        "the request could not be processed due to an internal error: no seed"
    );
    assert_eq!(RequestError::Redis("gone".to_string()).message(), "redis request failed: gone");
    assert_eq!(RequestError::SumDictAdd("dup".to_string()).message(), "dup");
    assert_eq!(UnmaskGlobalModelError::NoMask.message(), "no mask found");
    assert_eq!(
        UnmaskGlobalModelError::Unmasking("bad".to_string()).message(),
        "unmasking error: bad"
    );
    assert_eq!(StateMachineInitializationError::Crypto.message(), "failed to initialize crypto library");
    assert_eq!(
        StateMachineInitializationError::GlobalModelInvalid("x".to_string()).message(),
        "GlobalModelInvalid"
    );
}

#[test]
fn init_builds_idle_machine_and_events() {
    let (m, ev) = initializer().init::<Vec<u8>, _>(|| Ok(state(5))).expect("initialised");
    assert_eq!(m.phase_name(), PhaseName::Idle);
    assert_eq!(ev.round_id, 5);
    assert_eq!(ev.keys.public, vec![1; 32]);
    assert_eq!(ev.keys.secret, vec![2; 32]);
    assert_eq!(ev.round_params.seed, vec![3; 32]);
    assert_eq!(ev.phase, PhaseName::Idle);
    assert!(matches!(ev.model, ModelUpdate::Invalidate));
}

#[test]
fn init_passes_on_redis_error() {
    let r = initializer().init::<Vec<u8>, _>(|| Err(StateMachineInitializationError::Redis("flush".to_string())));
    assert!(matches!(r, Err(StateMachineInitializationError::Redis(m)) if m == "flush"));
}

#[test]
fn init_state_machine_keeps_model() {
    let init = StateMachineInitializer::new((), (), (), "redis");
    let (m, ev) = init.init_state_machine(state(2), ModelUpdate::New(vec![1u8, 2]));
    assert!(matches!(m, StateMachine::Idle(ref s) if s.state.round_id == 2 && s.redis_handle == "redis"));
    assert!(matches!(ev.model, ModelUpdate::New(v) if v == vec![1, 2]));
}

type Init = StateMachineInitializer<(), (), (), ()>;

#[test]
fn global_model_checks() {
    let st = state(1);
    assert!(Init::model_properties_matches_settings(&st, 4));
    assert!(!Init::model_properties_matches_settings(&st, 5));
    assert_eq!(Init::download_global_model(&st, "m1", Ok(("model", 4))).unwrap(), "model");
    assert!(matches!(
        Init::download_global_model::<&str>(&st, "m1", Err(())),
        Err(StateMachineInitializationError::GlobalModelUnavailable)
    ));
    match Init::download_global_model(&st, "m1", Ok(("model", 7))) {
        Err(StateMachineInitializationError::GlobalModelInvalid(text)) => assert_eq!(
            text,
            "the size of global model with the id m1 does not match with the value of the model size setting 7 != 4"
        ),
        _ => panic!("expected an invalid model"),
    }
}

#[test]
fn restore_state() {
    let r = Init::try_restore_state::<&str>(state(9), Ok(None)).unwrap();
    assert_eq!(r.0.round_id, 9);
    assert!(matches!(r.1, ModelUpdate::Invalidate));
    let r = Init::try_restore_state(state(9), Ok(Some(("g".to_string(), Ok(("m", 4)))))).unwrap();
    assert!(matches!(r.1, ModelUpdate::New("m")));
    assert!(Init::try_restore_state::<&str>(state(9), Ok(Some(("g".to_string(), Err(()))))).is_err());
    assert!(Init::try_restore_state(state(9), Ok(Some(("g".to_string(), Ok(("m", 3)))))).is_err());
}

#[test]
fn restore_passes_on_redis_error() {
    let r = Init::try_restore_state::<&str>(state(9), Err("conn".to_string()));
    assert!(matches!(r, Err(StateMachineInitializationError::Redis(m)) if m == "conn"));
}

#[test]
fn init_with_decides_on_crypto_first() {
    let r = initializer().init_with::<u8>(Err(()), Ok(state(1)));
    assert!(matches!(r, Err(StateMachineInitializationError::Crypto)));
    let r = initializer().init_with::<u8>(Err(()), Err(StateMachineInitializationError::Redis("x".into())));
    assert!(matches!(r, Err(StateMachineInitializationError::Crypto)));
    let r = initializer().init_with::<u8>(Ok(()), Err(StateMachineInitializationError::Redis("x".into())));
    assert!(matches!(r, Err(StateMachineInitializationError::Redis(m)) if m == "x"));
    let (m, ev) = initializer().init_with::<u8>(Ok(()), Ok(state(3))).unwrap();
    assert_eq!(m.phase_name(), PhaseName::Idle);
    assert_eq!(ev.round_id, 3);
}

#[test]
fn idle_always_moves_on_to_sum() {
    let m = StateMachine::Idle(shared(0));
    let m = m.next(PhaseOutcome::Failed(state(1), PhaseStateError::Phase(PhaseName::Idle))).unwrap();
    assert_eq!(m.phase_name(), PhaseName::Sum);
}

#[test]
fn restore_or_start_fresh() {
    type Start = Result<(CoordinatorState, ModelUpdate<u8>), StateMachineInitializationError>;
    let restore = |cs: CoordinatorState| -> Start { Ok((cs, ModelUpdate::New(1))) };
    let fresh = || -> Start { Ok((state(0), ModelUpdate::Invalidate)) };
    let r = Init::from_previous_state(Ok(Some(state(7))), restore, fresh).unwrap();
    assert_eq!(r.0.round_id, 7);
    assert!(matches!(r.1, ModelUpdate::New(1)));
    let r = Init::from_previous_state(Ok(None), restore, fresh).unwrap();
    assert_eq!(r.0.round_id, 0);
    assert!(matches!(r.1, ModelUpdate::Invalidate));
    let r = Init::from_previous_state(Err("down".to_string()), restore, fresh);
    assert!(matches!(r, Err(StateMachineInitializationError::Redis(m)) if m == "down"));

    let (m, ev) = initializer().init_restoring(true, fresh, || -> Start { Ok((state(9), ModelUpdate::New(2))) }).unwrap();
    assert_eq!(m.phase_name(), PhaseName::Idle);
    assert!(matches!(ev.model, ModelUpdate::Invalidate));
    let (_, ev) = initializer().init_restoring(false, fresh, || -> Start { Ok((state(9), ModelUpdate::New(2))) }).unwrap();
    assert_eq!(ev.round_id, 9);
    assert!(matches!(ev.model, ModelUpdate::New(2)));
}

#[test]
fn init_restoring_with_decides_on_crypto_first() {
    let r = initializer().init_restoring_with::<u8>(Err(()), Ok((state(1), ModelUpdate::New(3))));
    assert!(matches!(r, Err(StateMachineInitializationError::Crypto)));
    let r = initializer().init_restoring_with::<u8>(Ok(()), Err(StateMachineInitializationError::GlobalModelUnavailable));
    assert!(matches!(r, Err(StateMachineInitializationError::GlobalModelUnavailable)));
    let (m, ev) = initializer().init_restoring_with::<u8>(Ok(()), Ok((state(4), ModelUpdate::New(3)))).unwrap();
    assert_eq!(m.phase_name(), PhaseName::Idle);
    assert_eq!(ev.round_id, 4);
    assert!(matches!(ev.model, ModelUpdate::New(3)));
}
