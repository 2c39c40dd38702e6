use libwinit::platform::NativeWindow;
use libwinit::{
    ApplicationAction, ApplicationBuilder, CreateWindowAction, Float64, FunctionCallAction,
    HostCall, PhysicalSize, WakeUpStep, WindowAttributes,
};

/// A fixed interleaving of four producers: which of them queues next.
fn schedule(step: usize) -> usize {
    (step * 7 + step / 3) % 4
}

#[test]
fn interleaved_producers_each_keep_their_order() {
    let (application, mut handle) = ApplicationBuilder::new().build(Ok(())).unwrap();
    let mut running = application.run();
    let mut queued = [0usize; 4];
    let mut arrival = Vec::new();
    for step in 0..400 {
        let producer = schedule(step);
        handle.enqueue_action(ApplicationAction::FunctionCall(FunctionCallAction {
            callback: producer,
            thunk: queued[producer],
        }));
        arrival.push((producer, queued[producer]));
        queued[producer] += 1;
    }
    let mut handled = Vec::new();
    loop {
        match running.proxy_wake_up(&mut handle) {
            WakeUpStep::Handled(Some(HostCall::InvokeFunction { callback, thunk })) => {
                handled.push((callback, thunk));
            }
            WakeUpStep::Handled(other) => panic!("not a function call: {:?}", other),
            WakeUpStep::Drained(_) => break,
        }
    }
    assert_eq!(handled, arrival);
}

#[test]
fn windows_of_interleaved_producers_are_all_registered() {
    let (application, mut handle) = ApplicationBuilder::new().build(Ok(())).unwrap();
    let mut running = application.run();
    let requests = 100usize;
    for step in 0..requests {
        let callback = schedule(step) * requests + step;
        handle.enqueue_action(ApplicationAction::CreateWindow(CreateWindowAction {
            window_attributes: WindowAttributes::new().with_title(format!("window {}", callback)),
            callback,
        }));
    }
    let mut completed = Vec::new();
    loop {
        match running.proxy_wake_up(&mut handle) {
            WakeUpStep::Handled(Some(HostCall::CreateWindow { window_attributes, callback })) => {
                assert_eq!(window_attributes.title, Some(format!("window {}", callback)));
                let native = NativeWindow {
                    id: 1000 + callback,
                    outer_position: None,
                    surface_size: PhysicalSize::new(1, 1),
                    scale_factor: Float64::from_bits(1.0f64.to_bits()),
                };
                match running.finish_create_window(callback, Some(native)) {
                    Some(HostCall::WindowCreated { callback: told, window_id }) => {
                        assert_eq!(told, callback);
                        assert_eq!(window_id, 1000 + callback);
                        completed.push(window_id);
                    }
                    other => panic!("not a completion: {:?}", other),
                }
            }
            WakeUpStep::Handled(other) => panic!("not a window request: {:?}", other),
            WakeUpStep::Drained(_) => break,
        }
    }
    assert_eq!(completed.len(), requests);
    let mut distinct = completed.clone();
    distinct.sort();
    distinct.dedup();
    assert_eq!(distinct.len(), requests);
    for window_id in completed {
        assert_eq!(running.window(window_id).unwrap().id(), window_id);
    }
}
