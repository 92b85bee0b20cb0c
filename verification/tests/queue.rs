use gpsami::actionqueue::{
    check, dispatch, prepare, ActionQueue, ActionQueueSource, MgAction, SourceControl, NO_TIMEOUT,
};
use gpsami::devices::Manager;
use gpsami::drivers::Error;
use gpsami::mgapplication::{Effect, MgApplication, UIState};
use gpsami::settings::Prefs;

fn empty_source() -> ActionQueueSource {
    ActionQueueSource::new_source(MgApplication::new(Manager::new(vec![], vec![]), Prefs::new()))
}

#[test]
fn it_works() {}

#[test]
fn pops_come_in_push_order() {
    let mut q = ActionQueue::new();
    q.push(MgAction::ModelChanged("m".to_string()));
    q.push(MgAction::PortChanged("p".to_string()));
    q.push(MgAction::StartErase);
    q.push(MgAction::DoneErase(Error::Success));
    assert_eq!(q.len(), 4);
    assert_eq!(q.try_pop(), Some(MgAction::ModelChanged("m".to_string())));
    assert_eq!(q.try_pop(), Some(MgAction::PortChanged("p".to_string())));
    assert_eq!(q.try_pop(), Some(MgAction::StartErase));
    assert_eq!(q.try_pop(), Some(MgAction::DoneErase(Error::Success)));
    assert_eq!(q.try_pop(), None);
    assert!(q.is_empty());
}

#[test]
fn equal_actions_are_not_merged() {
    let mut q = ActionQueue::default();
    q.push(MgAction::RescanDevices);
    q.push(MgAction::RescanDevices);
    assert_eq!(q.len(), 2);
    assert_eq!(q.try_pop(), Some(MgAction::RescanDevices));
    assert_eq!(q.try_pop(), Some(MgAction::RescanDevices));
    assert_eq!(q.try_pop(), None);
}

#[test]
fn pushes_and_pops_interleave() {
    let mut q = ActionQueue::new();
    q.push(MgAction::StartErase);
    q.push(MgAction::StartDownload);
    assert_eq!(q.try_pop(), Some(MgAction::StartErase));
    q.push(MgAction::RescanDevices);
    assert_eq!(q.try_pop(), Some(MgAction::StartDownload));
    assert_eq!(q.try_pop(), Some(MgAction::RescanDevices));
    assert_eq!(q.try_pop(), None);
}

#[test]
fn draining_the_empty_queue_reports_no_work() {
    let mut q = ActionQueue::new();
    for _ in 0..5 {
        assert_eq!(q.try_pop(), None);
        assert!(q.is_empty());
        assert_eq!(q.len(), 0);
    }
    let mut source = empty_source();
    for _ in 0..5 {
        assert!(!check(Some(&q)));
        let (control, effects) = dispatch(&mut source, Some(&mut q));
        assert_eq!(control, SourceControl::Continue);
        assert!(effects.is_empty());
        assert_eq!(source.app().state(), UIState::Idle);
    }
}

#[test]
fn readiness_follows_the_queue() {
    let mut q = ActionQueue::new();
    assert_eq!(prepare(Some(&q)), (false, -1));
    assert!(!check(Some(&q)));
    q.push(MgAction::StartErase);
    assert_eq!(prepare(Some(&q)), (true, NO_TIMEOUT));
    assert!(check(Some(&q)));
    assert_eq!(q.len(), 1);
    assert_eq!(NO_TIMEOUT, -1);
}

#[test]
fn readiness_without_the_lock() {
    assert_eq!(prepare(None), (false, -1));
    assert!(!check(None));
}

#[test]
fn dispatch_drains_one_action_per_cycle() {
    let mut q = ActionQueue::new();
    q.push(MgAction::StartErase);
    q.push(MgAction::DoneErase(Error::Failed("x".to_string())));
    q.push(MgAction::RescanDevices);
    let mut source = empty_source();

    let (control, effects) = dispatch(&mut source, Some(&mut q));
    assert_eq!(control, SourceControl::Continue);
    assert_eq!(effects, vec![Effect::Post(MgAction::DoneErase(Error::NoDriver))]);
    assert_eq!(source.app().state(), UIState::InProgress);
    assert_eq!(q.len(), 2);

    let (control, effects) = dispatch(&mut source, Some(&mut q));
    assert_eq!(control, SourceControl::Continue);
    assert_eq!(
        effects,
        vec![Effect::ReportError {
            message: "Error erasing GPS data.".to_string(),
            reason: "x".to_string(),
        }]
    );
    assert_eq!(source.app().state(), UIState::Idle);
    assert_eq!(q.len(), 1);

    let (control, effects) = dispatch(&mut source, Some(&mut q));
    assert_eq!(control, SourceControl::Continue);
    assert!(effects.is_empty());
    assert!(q.is_empty());
}

#[test]
fn a_source_starts_its_application() {
    let catalog = vec![gpsami::devices::Device {
        desc: gpsami::drivers::Desc {
            id: "m241".to_string(),
            label: "Holux M-241".to_string(),
            ports: vec![],
        },
        capability: gpsami::devices::Capability { can_erase: true, can_erase_only: false },
    }];
    let prefs = Prefs { model: Some("m241".to_string()), port: None, output_dir: None };
    let mut source =
        ActionQueueSource::new_source(MgApplication::new(Manager::new(catalog, vec![]), prefs));
    let effects = source.start();
    assert_eq!(effects, vec![Effect::Post(MgAction::ModelChanged("m241".to_string()))]);
    assert_eq!(source.app().models().len(), 1);
    assert_eq!(source.app().state(), UIState::Idle);
}

#[test]
fn dispatch_without_the_lock_asks_to_be_removed() {
    let mut source = empty_source();
    let (control, effects) = dispatch(&mut source, None);
    assert_eq!(control, SourceControl::Remove);
    assert!(effects.is_empty());
    assert_eq!(source.app().state(), UIState::Idle);
    let app = source.into_app();
    assert_eq!(app.state(), UIState::Idle);
}
