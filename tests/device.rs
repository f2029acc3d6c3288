use slidershim::controller_state::FullState;
use slidershim::device::{HidDeviceJob, JobPhase};
use slidershim::protocol::HardwareSpec;

fn active_job(hw: HardwareSpec) -> (FullState, HidDeviceJob) {
    let state = FullState::new();
    let mut job = HidDeviceJob::from_config(&state, &hw);
    assert!(job.setup_finished(true));
    (state, job)
}

fn yuancon_report(fill: u8) -> Vec<u8> {
    let mut r = vec![0x05u8, 0x03];
    r.extend(std::iter::repeat(fill).take(32));
    r
}

#[test]
fn same_report_twice_decodes_once() {
    let (state, mut job) = active_job(HardwareSpec::Yuancon);
    let report = yuancon_report(10);
    let cs = state.clone_controller();

    assert!(job.input_arrived(&report));
    job.apply_input(&mut cs.lock().unwrap());
    assert_eq!(cs.lock().unwrap().ground_state, [10u8; 32]);

    assert!(!job.input_arrived(&report));

    let other = yuancon_report(20);
    assert!(job.input_arrived(&other));
    job.apply_input(&mut cs.lock().unwrap());
    assert_eq!(cs.lock().unwrap().ground_state, [20u8; 32]);
}

#[test]
fn empty_read_is_no_work() {
    let (_state, mut job) = active_job(HardwareSpec::TasollerTwo);
    assert!(!job.input_arrived(&[]));
}

#[test]
fn dirty_cleared_even_when_write_fails() {
    let (state, mut job) = active_job(HardwareSpec::TasollerOne);
    let led = state.clone_led();
    {
        let mut l = led.lock().unwrap();
        l.led_state[0] = 7;
        l.dirty = true;
        job.take_led(&mut l);
        assert!(!l.dirty);
    }
    let frame = job.pending_led().unwrap();
    assert_eq!(frame.len(), 240);
    assert_eq!(&frame[0..3], b"BL\0");
    // a failed write reports zero bytes: the frame stays for the next tick
    job.led_written(0);
    assert!(!led.lock().unwrap().dirty);
    assert_eq!(job.pending_led().unwrap(), frame);
    // the acknowledged write clears it
    job.led_written(241);
    assert!(job.pending_led().is_none());
}

#[test]
fn clean_led_state_encodes_nothing() {
    let (state, mut job) = active_job(HardwareSpec::Yuancon);
    let led = state.clone_led();
    job.take_led(&mut led.lock().unwrap());
    assert!(job.pending_led().is_none());
}

#[test]
fn failed_setup_never_ticks() {
    let state = FullState::new();
    let mut job = HidDeviceJob::from_config(&state, &HardwareSpec::Yuancon);
    assert_eq!(job.phase(), JobPhase::Uninitialized);
    assert!(!job.setup_finished(false));
    assert_eq!(job.phase(), JobPhase::Failed);
    assert!(!job.can_tick());
    assert!(!job.setup_finished(true));
    assert!(!job.can_tick());
}

#[test]
fn teardown_twice_releases_once() {
    let (_state, mut job) = active_job(HardwareSpec::Yuancon);
    assert!(job.can_tick());
    assert!(job.teardown());
    assert!(!job.teardown());
    assert_eq!(job.phase(), JobPhase::Terminated);

    let state = FullState::new();
    let mut failed = HidDeviceJob::from_config(&state, &HardwareSpec::TasollerOne);
    failed.setup_finished(false);
    assert!(!failed.teardown());
    assert!(!failed.teardown());
}

#[test]
fn job_shares_state() {
    let state = FullState::new();
    let job = HidDeviceJob::from_config(&state, &HardwareSpec::TasollerTwo);
    assert!(std::sync::Arc::ptr_eq(&job.state().controller_state, &state.controller_state));
    assert!(std::sync::Arc::ptr_eq(&job.state().clone_led(), &state.led_state));
    assert_eq!(job.hardware(), HardwareSpec::TasollerTwo);
}
