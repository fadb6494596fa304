use aux7::broker::{AcquireError, Bundle, ResourceBroker};
use aux7::hardware::{RegisterBlock, DIAGNOSTICS_BASE, TRACE_UNIT_BASE};
use aux7::init;
use aux7::startup::{advance, first_action, Action};

const SCRIPT: [Action; 7] = [
    Action::AcquireCore,
    Action::AcquireDevice,
    Action::ConstrainClock,
    Action::SplitIndicatorBank,
    Action::DelegateIndicators,
    Action::ExposeDiagnostics,
    Action::Finish,
];

#[test]
fn fresh_process_starts_up() {
    let mut broker = ResourceBroker::new();
    let run = init(&mut broker);
    let (unit, block) = run.outcome.unwrap();
    assert_ne!(unit.base(), 0);
    assert_eq!(unit.base(), TRACE_UNIT_BASE);
    assert_eq!(block.base(), DIAGNOSTICS_BASE);
    assert_eq!(block, RegisterBlock::diagnostics());
    assert_eq!(run.steps, SCRIPT.to_vec());
    assert!(broker.is_taken(Bundle::Core));
    assert!(broker.is_taken(Bundle::Device));
}

#[test]
fn core_bundle_is_gone_after_start_up() {
    let mut broker = ResourceBroker::new();
    assert!(init(&mut broker).outcome.is_ok());
    assert_eq!(broker.acquire_core().err(), Some(AcquireError::AlreadyAcquired));
    assert_eq!(broker.acquire_device().err(), Some(AcquireError::AlreadyAcquired));
}

#[test]
fn forced_double_acquisition_traps_once() {
    let mut broker = ResourceBroker::new();
    assert!(broker.acquire_core().is_ok());
    let run = init(&mut broker);
    assert_eq!(run.outcome, Err(AcquireError::AlreadyAcquired));
    assert_eq!(run.steps, vec![Action::AcquireCore, Action::Trap]);
    assert_eq!(run.steps.iter().filter(|step| **step == Action::Trap).count(), 1);
    assert_eq!(run.steps.last(), Some(&Action::Trap));
    assert_eq!(advance(Action::Trap, Ok(())), None);
    assert_eq!(advance(Action::Trap, Err(AcquireError::AlreadyAcquired)), None);
    assert!(!broker.is_taken(Bundle::Device));
}

#[test]
fn taken_device_bundle_traps_after_the_core_is_acquired() {
    let mut broker = ResourceBroker::new();
    assert!(broker.acquire_device().is_ok());
    let run = init(&mut broker);
    assert_eq!(run.outcome, Err(AcquireError::AlreadyAcquired));
    assert_eq!(run.steps, vec![Action::AcquireCore, Action::AcquireDevice, Action::Trap]);
    assert!(broker.is_taken(Bundle::Core));
    assert!(broker.is_taken(Bundle::Device));
}

#[test]
fn both_bundles_taken_traps_at_the_core() {
    let mut broker = ResourceBroker::new();
    assert!(broker.acquire_device().is_ok());
    assert!(broker.acquire_core().is_ok());
    let run = init(&mut broker);
    assert_eq!(run.outcome, Err(AcquireError::AlreadyAcquired));
    assert_eq!(run.steps, vec![Action::AcquireCore, Action::Trap]);
}

#[test]
fn second_start_up_fails() {
    let mut broker = ResourceBroker::new();
    let first = init(&mut broker);
    let second = init(&mut broker);
    assert!(first.outcome.is_ok());
    assert_eq!(second.outcome, Err(AcquireError::AlreadyAcquired));
    assert_eq!(second.steps, vec![Action::AcquireCore, Action::Trap]);
}

#[test]
fn diagnostics_reference_is_the_same_in_every_process() {
    let (_, one) = init(&mut ResourceBroker::new()).outcome.unwrap();
    let (_, other) = init(&mut ResourceBroker::new()).outcome.unwrap();
    assert_eq!(one, other);
    assert_eq!(one.base(), 0x4800_1000);
}

#[test]
fn start_up_begins_with_the_core_bundle() {
    assert_eq!(first_action(), Action::AcquireCore);
}

#[test]
fn each_step_leads_to_the_next_of_the_script() {
    for pair in SCRIPT.windows(2) {
        assert_eq!(advance(pair[0], Ok(())), Some(pair[1]));
    }
    assert_eq!(advance(Action::Finish, Ok(())), None);
}

#[test]
fn a_failed_step_leads_to_the_trap() {
    let refused = Err(AcquireError::AlreadyAcquired);
    for step in &SCRIPT[..6] {
        assert_eq!(advance(*step, refused), Some(Action::Trap));
    }
    assert_eq!(advance(Action::Finish, refused), None);
}

#[test]
fn driving_the_steps_by_hand_follows_the_script() {
    let mut steps = vec![first_action()];
    while let Some(next) = advance(*steps.last().unwrap(), Ok(())) {
        steps.push(next);
    }
    assert_eq!(steps, SCRIPT.to_vec());
}
