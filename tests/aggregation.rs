use sensor_hub::window::{mean, median, summary, Aggregator, Sample, Summary, WINDOW_LEN};

fn sample(n: u16) -> Sample {
    Sample { temperature: n, brightness: n * 10, co2: 400 + n, tvoc: n }
}

#[test]
fn median_of_odd_window() {
    assert_eq!(median(&[5, 1, 9, 3, 7]), 5);
}

#[test]
fn mean_of_window() {
    assert_eq!(mean(&[1, 2, 3, 4, 5]), 3);
}

#[test]
fn mean_rounds_down() {
    assert_eq!(mean(&[1, 2]), 1);
    assert_eq!(mean(&[2, 2, 3]), 2);
}

#[test]
fn mean_of_largest_readings() {
    assert_eq!(mean(&[u16::MAX; 5]), u16::MAX);
}

#[test]
fn median_of_even_window_takes_upper_middle() {
    assert_eq!(median(&[4, 1, 3, 2]), 3);
}

#[test]
fn median_with_equal_values() {
    assert_eq!(median(&[7, 7, 1, 7, 9]), 7);
    assert_eq!(median(&[42]), 42);
}

#[test]
fn median_resists_a_spike() {
    assert_eq!(median(&[410, 412, 8000, 411, 413]), 412);
}

#[test]
fn summary_uses_mean_and_median() {
    let w = [
        Sample { temperature: 400, brightness: 100, co2: 500, tvoc: 10 },
        Sample { temperature: 401, brightness: 200, co2: 900, tvoc: 50 },
        Sample { temperature: 402, brightness: 300, co2: 450, tvoc: 20 },
        Sample { temperature: 403, brightness: 400, co2: 600, tvoc: 30 },
        Sample { temperature: 404, brightness: 500, co2: 700, tvoc: 0 },
    ];
    assert_eq!(
        summary(&w),
        Summary { temperature: 402, brightness: 300, co2: 600, tvoc: 20 }
    );
}

#[test]
fn window_emits_once_per_full_window() {
    let mut agg = Aggregator::new(WINDOW_LEN);
    let mut out = Vec::new();
    for n in 1..=12u16 {
        if let Some(s) = agg.push(sample(n)) {
            out.push((n, s));
        }
    }
    assert_eq!(out.len(), 2);
    assert_eq!(out[0].0, 5);
    assert_eq!(out[1].0, 10);
    assert_eq!(out[0].1, Summary { temperature: 3, brightness: 30, co2: 403, tvoc: 3 });
    assert_eq!(out[1].1, Summary { temperature: 8, brightness: 80, co2: 408, tvoc: 8 });
}

#[test]
fn window_is_reset_between_reductions() {
    let mut agg = Aggregator::new(2);
    assert_eq!(agg.push(sample(100)), None);
    assert!(agg.push(sample(200)).is_some());
    assert_eq!(agg.push(sample(1)), None);
    assert_eq!(
        agg.push(sample(3)),
        Some(Summary { temperature: 2, brightness: 20, co2: 403, tvoc: 3 })
    );
}

#[test]
fn window_of_one_reduces_every_sample() {
    let mut agg = Aggregator::new(1);
    for n in 0..4u16 {
        assert_eq!(
            agg.push(sample(n)),
            Some(Summary { temperature: n, brightness: n * 10, co2: 400 + n, tvoc: n })
        );
    }
}

#[test]
fn fewer_samples_than_a_window_emit_nothing() {
    let mut agg = Aggregator::new(WINDOW_LEN);
    for n in 0..4u16 {
        assert_eq!(agg.push(sample(n)), None);
    }
}
