use audio_reactive::bands::{BandAggregator, BandSet, SampleBuffer, CAPTURE_SIZE};
use audio_reactive::driver::{
    DriverState, Frame, FrameDriver, PipelineError, HIGH_BANDS, LOW_BANDS, TIME,
};
use audio_reactive::graph::{Frequency, SignalGraph};
use audio_reactive::params::{ParameterPublisher, ParameterValue};

fn mean(block: &[f32]) -> f32 {
    block.iter().sum::<f32>() / block.len() as f32
}

fn running_driver() -> FrameDriver<f32> {
    let mut driver = FrameDriver::new(SignalGraph::build(), ParameterPublisher::new());
    driver.start();
    driver
}

fn frame(time: f32, bands: [f32; 8]) -> Frame<f32> {
    Frame { time, bands: BandSet::new(bands), sweep_step: 0, modulator_hz: 2.0 }
}

#[test]
fn parameter_names() {
    assert_eq!(TIME, "time");
    assert_eq!(LOW_BANDS, "freq_1");
    assert_eq!(HIGH_BANDS, "freq_2");
}

#[test]
fn driver_starts_idle_and_runs_after_start() {
    let mut driver: FrameDriver<f32> =
        FrameDriver::new(SignalGraph::build(), ParameterPublisher::new());
    assert_eq!(driver.state(), DriverState::Idle);
    assert!(!driver.is_running());
    driver.start();
    assert_eq!(driver.state(), DriverState::Running);
    assert!(driver.is_running());
    driver.start();
    assert_eq!(driver.state(), DriverState::Running);
}

#[test]
fn new_driver_keeps_what_it_is_given() {
    let mut publisher: ParameterPublisher<f32> = ParameterPublisher::new();
    publisher.set("time".to_string(), ParameterValue::Scalar(12.0));
    let mut graph: SignalGraph<f32> = SignalGraph::build();
    graph.update(2, 0.5);
    let mut driver = FrameDriver::new(graph, publisher);
    assert_eq!(driver.snapshot().get("time"), Some(ParameterValue::Scalar(12.0)));
    assert_eq!(driver.snapshot().len(), 1);
    assert_eq!(driver.graph().primary().frequency, Frequency::Whole(320));
    driver.start();
    assert_eq!(driver.snapshot().get("time"), Some(ParameterValue::Scalar(12.0)));
    assert_eq!(driver.graph().modulator().frequency, Frequency::Carried(0.5));
}

#[test]
fn tick_publishes_time_and_both_band_vectors() {
    let mut driver = running_driver();
    driver.tick(&frame(5.0, [1.0, 2.0, 3.0, 4.0, 5.0, 6.0, 7.0, 8.0]));
    let snapshot = driver.snapshot();
    assert_eq!(snapshot.get("time"), Some(ParameterValue::Scalar(5.0)));
    assert_eq!(snapshot.get("freq_1"), Some(ParameterValue::Vector4(1.0, 2.0, 3.0, 4.0)));
    assert_eq!(snapshot.get("freq_2"), Some(ParameterValue::Vector4(5.0, 6.0, 7.0, 8.0)));
    assert_eq!(snapshot.len(), 3);
}

#[test]
fn tick_leaves_no_value_of_the_frame_before() {
    let mut driver = running_driver();
    driver.tick(&frame(1.0, [1.0; 8]));
    driver.tick(&frame(2.0, [0.5, 0.25, 0.0, -0.25, -0.5, -0.75, -1.0, 2.0]));
    let snapshot = driver.snapshot();
    assert_eq!(snapshot.get("time"), Some(ParameterValue::Scalar(2.0)));
    assert_eq!(snapshot.get("freq_1"), Some(ParameterValue::Vector4(0.5, 0.25, 0.0, -0.25)));
    assert_eq!(snapshot.get("freq_2"), Some(ParameterValue::Vector4(-0.5, -0.75, -1.0, 2.0)));
    assert_eq!(snapshot.len(), 3);
}

#[test]
fn tick_keeps_other_parameters() {
    let mut publisher: ParameterPublisher<f32> = ParameterPublisher::new();
    publisher.set("time".to_string(), ParameterValue::Scalar(0.0));
    publisher.set("tint".to_string(), ParameterValue::Vector4(0.1, 0.2, 0.3, 1.0));
    let mut driver = FrameDriver::new(SignalGraph::build(), publisher);
    driver.start();
    driver.tick(&frame(9.0, [0.0; 8]));
    let snapshot = driver.snapshot();
    assert_eq!(snapshot.get("tint"), Some(ParameterValue::Vector4(0.1, 0.2, 0.3, 1.0)));
    assert_eq!(snapshot.get("time"), Some(ParameterValue::Scalar(9.0)));
    assert_eq!(snapshot.len(), 4);
    assert_eq!(
        snapshot.names(),
        vec!["time".to_string(), "tint".to_string(), "freq_1".to_string(), "freq_2".to_string()]
    );
}

#[test]
fn tick_moves_the_oscillators() {
    let mut driver = running_driver();
    let bands = BandSet::new([0.0f32; 8]);
    driver.tick(&Frame { time: 0.0, bands, sweep_step: -2, modulator_hz: 1.5 });
    assert_eq!(driver.graph().primary().frequency, Frequency::Whole(120));
    assert_eq!(driver.graph().modulator().frequency, Frequency::Carried(1.5));
    assert_eq!(driver.state(), DriverState::Running);
}

#[test]
fn tick_with_bands_of_a_captured_window() {
    let mut window: SampleBuffer<f32> = [0.0; CAPTURE_SIZE];
    for (i, sample) in window.iter_mut().enumerate() {
        *sample = (i / 128) as f32;
    }
    let bands = BandAggregator::reduce(&window, mean);
    let mut driver = running_driver();
    driver.tick(&Frame { time: 3.0, bands, sweep_step: 1, modulator_hz: 0.0 });
    let snapshot = driver.snapshot();
    assert_eq!(snapshot.get(LOW_BANDS), Some(ParameterValue::Vector4(0.0, 1.0, 2.0, 3.0)));
    assert_eq!(snapshot.get(HIGH_BANDS), Some(ParameterValue::Vector4(4.0, 5.0, 6.0, 7.0)));
    assert_eq!(snapshot.get(TIME), Some(ParameterValue::Scalar(3.0)));
}

#[test]
fn after_draw_schedules_or_halts() {
    let driver = running_driver();
    assert_eq!(driver.after_draw(true), Ok(()));
    assert_eq!(driver.after_draw(false), Err(PipelineError::Draw));
}

#[test]
fn after_draw_leaves_the_driver_as_it_is() {
    let mut driver = running_driver();
    driver.tick(&frame(4.0, [1.0; 8]));
    assert_eq!(driver.after_draw(false), Err(PipelineError::Draw));
    assert_eq!(driver.state(), DriverState::Running);
    assert_eq!(driver.snapshot().get("time"), Some(ParameterValue::Scalar(4.0)));
}

#[test]
fn error_messages() {
    assert_eq!(PipelineError::AudioInit.message(), "audio initialisation failed");
    assert_eq!(PipelineError::RendererInit.message(), "renderer initialisation failed");
    assert_eq!(
        PipelineError::Draw.message(),
        "frame could not be drawn; no further frame is scheduled"
    );
}
