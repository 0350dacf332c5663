use hardbody_cluster::{
    action, battery_centivolts, code_to_centivolts, correct, draw_fuel_gauge, draw_temp_gauge,
    fuel_gauge, fuel_percent, fuel_percent_from_codes, next_stage, readings_from_pass,
    sampling_schedule, temp_gauge, thermistor_resistance, Action, Channel, Conversion, DrawOp,
    Ratio, Stage,
};

fn text(ops: &[DrawOp], i: usize) -> String {
    match &ops[i] {
        DrawOp::Text { text, .. } => String::from_utf8(text.clone()).unwrap(),
        other => panic!("not a text: {:?}", other),
    }
}

fn pointer_x(ops: &[DrawOp], i: usize) -> i32 {
    match &ops[i] {
        DrawOp::Line { x0, x1, on: true, stroke: 4, .. } => {
            assert_eq!(x0, x1);
            *x0
        }
        other => panic!("not a pointer: {:?}", other),
    }
}

#[test]
fn ratio_stays_inside_open_interval() {
    for &(s, r) in &[(0i16, 32767i16), (32767, 32767), (-100, -100), (i16::MIN, 0), (32767, 1), (1, 32767), (5, 0)] {
        let q = correct(s, r);
        assert!(0 < q.num && q.num < q.den, "{} {} -> {:?}", s, r, q);
    }
}

#[test]
fn ratio_clamps_at_both_ends() {
    assert_eq!(correct(0, 32767), Ratio { num: 1, den: 1_000_000 });
    assert_eq!(correct(32767, 32767), Ratio { num: 999_999, den: 1_000_000 });
    assert_eq!(correct(-7, -3), Ratio { num: 1, den: 1_000_000 });
    assert_eq!(correct(100, 200), Ratio { num: 100, den: 200 });
    assert_eq!(correct(100, 0), Ratio { num: 999_999, den: 1_000_000 });
}

#[test]
fn fuel_empty_sensor_reads_full() {
    assert_eq!(fuel_percent_from_codes(0, 32767), 100);
}

#[test]
fn fuel_rail_level_sensor_reads_empty() {
    assert_eq!(fuel_percent_from_codes(32767, 32767), 0);
}

#[test]
fn fuel_calibration_endpoints() {
    assert_eq!(fuel_percent(Ratio { num: 38, den: 10038 }), 100);
    assert_eq!(fuel_percent(Ratio { num: 930, den: 10930 }), 0);
}

#[test]
fn fuel_interior_values() {
    assert_eq!(fuel_percent_from_codes(1000, 25000), 55);
    assert_eq!(fuel_percent_from_codes(2000, 25000), 6);
    assert_eq!(fuel_percent_from_codes(500, 25000), 80);
}

#[test]
fn fuel_never_rises_with_ratio() {
    let mut last = 100u8;
    for adc in (0..=3000i16).step_by(25) {
        let p = fuel_percent_from_codes(adc, 25000);
        assert!(p <= last, "adc {} gave {} after {}", adc, p, last);
        last = p;
    }
    assert_eq!(last, 0);
}

#[test]
fn fuel_reading_is_repeatable() {
    assert_eq!(fuel_percent_from_codes(1234, 26000), fuel_percent_from_codes(1234, 26000));
}

#[test]
fn thermistor_at_reference_resistance() {
    let r = thermistor_resistance(correct(6500, 26500));
    assert_eq!(r.num, 325 * r.den);
}

#[test]
fn thermistor_resistance_positive_at_extremes() {
    let low = thermistor_resistance(correct(0, 32767));
    assert_eq!((low.num, low.den), (1000, 999_999));
    let high = thermistor_resistance(correct(32767, 32767));
    assert_eq!((high.num, high.den), (999_999_000, 1));
}

#[test]
fn battery_voltage_endpoints() {
    assert_eq!(battery_centivolts(0), 0);
    assert_eq!(battery_centivolts(-40), 0);
    assert_eq!(battery_centivolts(32767), 2271);
    assert_eq!(battery_centivolts(16384), 1136);
    let full = 4.096f64 * (100.0 + 22.0) / 22.0;
    assert!((battery_centivolts(32767) as f64 / 100.0 - full).abs() < 0.006);
}

#[test]
fn rail_voltage() {
    assert_eq!(code_to_centivolts(26500), 331);
    assert_eq!(code_to_centivolts(1), 0);
    assert_eq!(code_to_centivolts(32767), 410);
}

#[test]
fn fuel_gauge_full_layout() {
    let ops = draw_fuel_gauge(0, 32767, 32767);
    assert_eq!(ops.len(), 11);
    assert_eq!(ops[0], DrawOp::FillRect { x: 15, y: 5, width: 98, height: 6 });
    let ticks: Vec<i32> = (1..6)
        .map(|i| match &ops[i] {
            DrawOp::Line { x0, y0: 1, y1: 15, on: false, stroke: 2, .. } => *x0,
            other => panic!("not a tick: {:?}", other),
        })
        .collect();
    assert_eq!(ticks, vec![15, 39, 64, 88, 113]);
    assert_eq!(ops[6], DrawOp::Line { x0: 113, y0: 15, x1: 113, y1: 27, on: true, stroke: 4 });
    assert_eq!(ops[7], DrawOp::Text { x: 0, y: 2, text: b"E".to_vec() });
    assert_eq!(ops[8], DrawOp::Text { x: 118, y: 2, text: b"F".to_vec() });
    assert_eq!(ops[9], DrawOp::Text { x: 44, y: 30, text: b"100%".to_vec() });
    assert_eq!(ops[10], DrawOp::Text { x: 44, y: 45, text: b"22.71V".to_vec() });
}

#[test]
fn fuel_gauge_pointer_and_text() {
    let ops = fuel_gauge(55, 1205);
    assert_eq!(pointer_x(&ops, 6), 15 + 53);
    assert_eq!(text(&ops, 9), "55%");
    assert_eq!(text(&ops, 10), "12.05V");
    let empty = fuel_gauge(0, 7);
    assert_eq!(pointer_x(&empty, 6), 15);
    assert_eq!(text(&empty, 9), "0%");
    assert_eq!(text(&empty, 10), "0.07V");
}

#[test]
fn layout_is_repeatable() {
    assert_eq!(draw_fuel_gauge(1500, 20000, 26000), draw_fuel_gauge(1500, 20000, 26000));
    assert_eq!(draw_temp_gauge(18765, 26000), draw_temp_gauge(18765, 26000));
}

#[test]
fn temp_gauge_at_reference_temperature() {
    let ops = draw_temp_gauge(7700, 26500);
    assert_eq!(ops.len(), 8);
    assert_eq!(ops[0], DrawOp::FillRect { x: 15, y: 5, width: 98, height: 6 });
    assert_eq!(ops[1], DrawOp::Line { x0: 15, y0: 15, x1: 15, y1: 27, on: true, stroke: 4 });
    assert_eq!(ops[2], DrawOp::Line { x0: 30, y0: 1, x1: 30, y1: 15, on: false, stroke: 3 });
    assert_eq!(ops[3], DrawOp::Line { x0: 98, y0: 1, x1: 98, y1: 15, on: false, stroke: 3 });
    assert_eq!(text(&ops, 4), "C");
    assert_eq!(text(&ops, 5), "H");
    assert_eq!(text(&ops, 6), "77F");
    assert_eq!(text(&ops, 7), "3.31V");
}

#[test]
fn temp_gauge_pointer_band() {
    assert_eq!(pointer_x(&temp_gauge(19500, 0), 1), 15 + 49);
    assert_eq!(pointer_x(&temp_gauge(12000, 0), 1), 15);
    assert_eq!(pointer_x(&temp_gauge(27000, 0), 1), 113);
    assert_eq!(pointer_x(&temp_gauge(1_000_000, 0), 1), 113);
    assert_eq!(pointer_x(&temp_gauge(-5000, 0), 1), 15);
}

#[test]
fn temp_gauge_degree_rounding() {
    assert_eq!(text(&temp_gauge(15050, 0), 6), "151F");
    assert_eq!(text(&temp_gauge(15049, 0), 6), "150F");
    assert_eq!(text(&temp_gauge(-12345, 0), 6), "-123F");
    assert_eq!(text(&temp_gauge(-15050, 0), 6), "-151F");
    assert_eq!(text(&temp_gauge(0, 0), 6), "0F");
}

#[test]
fn temp_gauge_rail_floor() {
    assert_eq!(text(&draw_temp_gauge(20000, -3), 7), "0.00V");
}

#[test]
fn sampling_order() {
    let plan = sampling_schedule();
    let expected = [
        Channel::Thermistor,
        Channel::ReferenceRail,
        Channel::FuelSender,
        Channel::ReferenceRail,
        Channel::BatteryTap,
    ];
    assert_eq!(plan.len(), 10);
    for (i, c) in plan.iter().enumerate() {
        assert_eq!(*c, Conversion { channel: expected[i / 2], keep: i % 2 == 1 });
    }
    let inputs: Vec<u8> = expected.iter().map(|c| c.input()).collect();
    assert_eq!(inputs, vec![0, 3, 1, 3, 2]);
}

#[test]
fn readings_take_kept_codes() {
    let codes: Vec<i16> = (0..10).map(|i| 100 * i).collect();
    let r = readings_from_pass(&codes);
    assert_eq!(
        (r.thermistor, r.rail_for_thermistor, r.fuel, r.rail_for_fuel, r.battery),
        (100, 300, 500, 700, 900)
    );
}

#[test]
fn loop_cycles_on_success() {
    assert_eq!(next_stage(Stage::Sampling, true), Stage::Translating);
    assert_eq!(next_stage(Stage::Translating, true), Stage::Rendering);
    assert_eq!(next_stage(Stage::Rendering, true), Stage::Sampling);
    assert_eq!(action(Stage::Sampling), Action::Sample);
    assert_eq!(action(Stage::Translating), Action::Translate);
    assert_eq!(action(Stage::Rendering), Action::Render);
}

#[test]
fn conversion_failure_restarts_once() {
    let mut stage = Stage::Sampling;
    let mut actions = Vec::new();
    let outcomes = [false, true, true, true];
    for ok in outcomes {
        let a = action(stage);
        actions.push(a);
        if a == Action::Restart {
            break;
        }
        stage = next_stage(stage, ok);
    }
    if actions.last() != Some(&Action::Restart) {
        actions.push(action(stage));
    }
    assert_eq!(actions, vec![Action::Sample, Action::Restart]);
    assert_eq!(next_stage(Stage::Failed, true), Stage::Failed);
    assert_eq!(next_stage(Stage::Rendering, false), Stage::Failed);
}
