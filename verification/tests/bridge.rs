use audio_bridge::Error;
use audio_bridge::Request;
use audio_bridge::Response;
use audio_bridge::bridged;
use audio_bridge::dispatch;
use audio_bridge::finish_input_devices;
use audio_bridge::finish_output_devices;
use audio_bridge::finish_playback;
use audio_bridge::finish_record;
use audio_bridge::interpret_record_reply;

#[test]
fn record_roundtrip_with_live_worker() {
    let (bridge, worker) = bridged();
    let rx = bridge.submit(Request::Record(vec![])).ok().unwrap();
    assert!(worker.serve_one());
    assert!(matches!(finish_record(rx), Ok(())));
}

#[test]
fn record_carries_its_samples() {
    let (bridge, worker) = bridged();
    let rx = bridge.submit(Request::Record(vec![1, -2, 3])).ok().unwrap();
    assert!(worker.serve_one());
    assert!(matches!(finish_record(rx), Ok(())));
}

#[test]
fn record_fails_once_worker_is_gone() {
    let (bridge, worker) = bridged();
    let rx = bridge.submit(Request::Record(vec![])).ok().unwrap();
    assert!(worker.serve_one());
    assert!(matches!(finish_record(rx), Ok(())));
    drop(worker);
    assert!(matches!(bridge.record(&[]), Err(Error::WorkerStopped)));
}

#[test]
fn every_operation_reports_worker_stopped() {
    let (bridge, worker) = bridged();
    drop(worker);
    assert!(matches!(bridge.record(&[]), Err(Error::WorkerStopped)));
    assert!(matches!(bridge.playback(&[0]), Err(Error::WorkerStopped)));
    assert!(matches!(bridge.get_input_devices(), Err(Error::WorkerStopped)));
    assert!(matches!(bridge.get_output_devices(), Err(Error::WorkerStopped)));
    assert!(matches!(
        bridge.submit(Request::GetInputDevices),
        Err(Error::WorkerStopped)
    ));
}

#[test]
fn worker_stops_once_handles_are_dropped() {
    let (bridge, worker) = bridged();
    drop(bridge);
    assert!(!worker.serve_one());
    assert!(matches!(worker.exit(), Ok(())));
}

#[test]
fn worker_drains_queue_before_stopping() {
    let (bridge, worker) = bridged();
    let rx = bridge.submit(Request::Record(vec![])).ok().unwrap();
    drop(bridge);
    assert!(worker.serve_one());
    assert!(matches!(finish_record(rx), Ok(())));
    assert!(!worker.serve_one());
    assert!(matches!(worker.exit(), Ok(())));
}

#[test]
fn dropped_reply_receiver_is_harmless() {
    let (bridge, worker) = bridged();
    let rx = bridge.submit(Request::Record(vec![4, 5])).ok().unwrap();
    drop(rx);
    assert!(worker.serve_one());
    let rx2 = bridge.submit(Request::Record(vec![])).ok().unwrap();
    assert!(worker.serve_one());
    assert!(matches!(finish_record(rx2), Ok(())));
}

#[test]
fn two_records_each_get_their_own_reply() {
    let (bridge, worker) = bridged();
    let rx_a = bridge.submit(Request::Record(vec![])).ok().unwrap();
    let rx_b = bridge.submit(Request::Record(vec![])).ok().unwrap();
    assert!(worker.serve_one());
    assert!(worker.serve_one());
    assert!(matches!(finish_record(rx_a), Ok(())));
    assert!(matches!(finish_record(rx_b), Ok(())));
}

#[test]
fn replies_are_not_crossed_between_operations() {
    let (bridge, worker) = bridged();
    let rx_rec = bridge.submit(Request::Record(vec![])).ok().unwrap();
    let rx_dev = bridge.submit(Request::GetInputDevices).ok().unwrap();
    assert!(worker.serve_one());
    assert!(worker.serve_one());
    assert!(matches!(finish_input_devices(rx_dev), Err(Error::NotImplemented)));
    assert!(matches!(finish_record(rx_rec), Ok(())));
}

#[test]
fn playback_reports_not_implemented() {
    let (bridge, worker) = bridged();
    let rx = bridge.submit(Request::Playback(vec![7])).ok().unwrap();
    assert!(worker.serve_one());
    assert!(matches!(finish_playback(rx), Err(Error::NotImplemented)));
}

#[test]
fn device_listings_report_not_implemented() {
    let (bridge, worker) = bridged();
    let rx_in = bridge.submit(Request::GetInputDevices).ok().unwrap();
    let rx_out = bridge.submit(Request::GetOutputDevices).ok().unwrap();
    assert!(worker.serve_one());
    assert!(worker.serve_one());
    assert!(matches!(finish_input_devices(rx_in), Err(Error::NotImplemented)));
    assert!(matches!(finish_output_devices(rx_out), Err(Error::NotImplemented)));
}

#[test]
fn dispatch_answers_each_request() {
    assert!(matches!(
        dispatch(Request::Record(vec![])),
        Ok(Response::Record)
    ));
    assert!(matches!(
        dispatch(Request::Playback(vec![1])),
        Err(Error::NotImplemented)
    ));
    assert!(matches!(
        dispatch(Request::GetInputDevices),
        Err(Error::NotImplemented)
    ));
    assert!(matches!(
        dispatch(Request::GetOutputDevices),
        Err(Error::NotImplemented)
    ));
}

#[test]
fn record_reply_interpretation() {
    assert!(matches!(interpret_record_reply(Ok(Response::Record)), Ok(())));
    assert!(matches!(
        interpret_record_reply(Ok(Response::Playback)),
        Err(Error::WorkerStopped)
    ));
    assert!(matches!(
        interpret_record_reply(Ok(Response::GetInputDevices(vec![]))),
        Err(Error::WorkerStopped)
    ));
    let passed = interpret_record_reply(Err(Error::DevicesError("no such device".to_string())));
    match passed {
        Err(Error::DevicesError(msg)) => assert_eq!(msg, "no such device"),
        _ => panic!("a worker-reported error must pass through unchanged"),
    }
    assert!(matches!(
        interpret_record_reply(Err(Error::WorkerStopped)),
        Err(Error::WorkerStopped)
    ));
}
