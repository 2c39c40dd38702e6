use libwinit::platform::{NativeWindow, WindowEvent};
use libwinit::{
    ApplicationBuilder, Float64, HostCall, NormalizedEvent, PhysicalSize, WinitWindowEvent,
    WinitWindowScaleFactorChangedEvent,
};
use winit::dpi::validate_scale_factor;

#[test]
fn scale_factors_are_what_the_windowing_layer_accepts() {
    let values = [
        0.0f64,
        -0.0,
        0.5,
        1.0,
        -1.0,
        1.25,
        1.5,
        2.0,
        3.0,
        1e-300,
        1e300,
        f64::MIN_POSITIVE,
        f64::MAX,
        f64::MIN,
        5e-324,
        2.2250738585072009e-308,
        f64::EPSILON,
        f64::INFINITY,
        f64::NEG_INFINITY,
        f64::NAN,
        -f64::NAN,
    ];
    for value in values {
        assert_eq!(
            Float64::from_bits(value.to_bits()).is_scale_factor(),
            validate_scale_factor(value),
            "{}",
            value
        );
    }
    let mut bits: u64 = 0x9E37_79B9_7F4A_7C15;
    for _ in 0..10_000 {
        bits = bits.wrapping_mul(6364136223846793005).wrapping_add(1442695040888963407);
        assert_eq!(
            Float64::from_bits(bits).is_scale_factor(),
            validate_scale_factor(f64::from_bits(bits)),
            "{:#x}",
            bits
        );
    }
}

#[test]
fn rescale_by_the_windowing_layer_reaches_the_consumers() {
    let (application, mut handle) = ApplicationBuilder::new().build(Ok(())).unwrap();
    let mut running = application.run();
    running.finish_create_window(
        0,
        Some(NativeWindow {
            id: 2,
            outer_position: None,
            surface_size: PhysicalSize::new(640, 480),
            scale_factor: Float64::from_bits(1.0f64.to_bits()),
        }),
    );
    let new_scale_factor = Float64::from_bits(1.5f64.to_bits());
    let rescale = running.window(2).unwrap().surface_rescale(new_scale_factor).unwrap();
    let logical: winit::dpi::LogicalSize<f64> =
        winit::dpi::PhysicalSize::new(rescale.surface_size.width, rescale.surface_size.height)
            .to_logical(f64::from_bits(rescale.scale_factor.to_bits()));
    let physical: winit::dpi::PhysicalSize<u32> =
        logical.to_physical(f64::from_bits(rescale.new_scale_factor.to_bits()));
    let event = WindowEvent::ScaleFactorChanged {
        scale_factor: new_scale_factor,
        surface_size: PhysicalSize::new(physical.width, physical.height),
    };
    assert_eq!(running.window_event(2, &event), vec![]);
    let calls = running.enqueue_event(&mut handle, event, 2);
    assert_eq!(
        calls,
        vec![HostCall::WriteSurfaceSize { new_surface_size: PhysicalSize::new(960, 720) }]
    );
    assert_eq!(
        handle.pop_event(),
        Some(WinitWindowEvent {
            window_id: 2,
            event: NormalizedEvent::ScaleFactorChanged(WinitWindowScaleFactorChangedEvent {
                scale_factor: new_scale_factor,
                width: 960,
                height: 720,
            }),
        })
    );
}
