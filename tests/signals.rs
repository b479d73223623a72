use signal_lab::circuits::Component;
use signal_lab::dsp::Filter;
use signal_lab::signals::{ContinuousSignal, DataSignal, PeriodicSignal, Response, Waveform};

fn low_pass(filter: Filter<f64>, x: f64, po: f64, _pi: f64) -> f64 {
    match filter {
        Filter::LowPassFilter { alpha } => (1.0 - alpha) * x + alpha * po,
        _ => x,
    }
}

#[test]
fn dc_reports_zero_frequency() {
    let s = PeriodicSignal::new(Waveform::Dc(3.5), 0.0);
    assert_eq!(s.frequency(0.0), 0.0);
    assert_eq!(s.amplitude(), 3.5);
}

#[test]
fn periodic_accessors_read_the_waveform() {
    let square = PeriodicSignal::new(Waveform::Square { frequency: 2.0, amplitude: 0.5 }, 0.0);
    assert_eq!(square.frequency(0.0), 2.0);
    assert_eq!(square.amplitude(), 0.5);
    let sine = PeriodicSignal::new(Waveform::Sine { frequency: 50.0, amplitude: 1.0 }, 0.0);
    assert_eq!(sine.frequency(0.0), 50.0);
    let triangle = PeriodicSignal::new(Waveform::Triangle { frequency: 4, amplitude: 9 }, 0);
    assert_eq!(triangle.frequency(0), 4);
    assert_eq!(triangle.amplitude(), 9);
    assert_eq!(*triangle.waveform(), Waveform::Triangle { frequency: 4, amplitude: 9 });
}

#[test]
fn periodic_signal_filters_after_attach() {
    let mut s = PeriodicSignal::new(Waveform::Square { frequency: 2.0, amplitude: 1.0 }, 0.0);
    assert_eq!(s.filter_run(&vec![1.0, 1.0, -1.0], &low_pass), vec![1.0, 1.0, -1.0]);
    s.add_filter(Filter::LowPassFilter { alpha: 0.5 });
    assert_eq!(s.filter_sample(1.0, &low_pass), 0.5);
    assert_eq!(s.filter_run(&vec![1.0, 1.0], &low_pass), vec![0.75, 0.875]);
}

#[test]
fn low_pass_at_steady_input_stays() {
    let mut s = PeriodicSignal::new(Waveform::Dc(2.0), 2.0);
    s.add_filter(Filter::LowPassFilter { alpha: 0.3 });
    assert_eq!(s.filter_sample(2.0, &low_pass), 2.0);
}

#[test]
fn continuous_signal_keeps_its_response() {
    let mut s = ContinuousSignal::new(Response::Ramp { slope: 2.0 }, 0.0);
    assert_eq!(*s.response(), Response::Ramp { slope: 2.0 });
    assert_eq!(s.filter_sample(4.0, &low_pass), 4.0);
    s.add_filter(Filter::Rectifier);
    let rectify = |_f: Filter<f64>, x: f64, _po: f64, _pi: f64| x.abs();
    assert_eq!(s.filter_run(&vec![-1.0, 2.0, -3.0], &rectify), vec![1.0, 2.0, 3.0]);
    assert_eq!(*s.response(), Response::Ramp { slope: 2.0 });
}

#[test]
fn data_signal_holds_its_samples() {
    let d = DataSignal::new(vec![2.0, 4.0, 6.0]);
    assert_eq!(d.len(), 3);
    assert_eq!(d.samples(), &[2.0, 4.0, 6.0]);
    let e: DataSignal<f64> = DataSignal::new(Vec::new());
    assert_eq!(e.len(), 0);
}

#[test]
fn components_compare_by_kind_and_value() {
    assert_eq!(Component::Resistor(10.0), Component::Resistor(10.0));
    assert_ne!(Component::Capacitor(1.0), Component::Inductor(1.0));
}
