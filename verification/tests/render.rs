use image_classification::{describe, format_probability, interpret, LabelTable, PipelineError, Prediction, Probability, TOP_K};

fn probability(value: f32) -> Probability {
    Probability::from_bits(value.to_bits()).unwrap()
}

fn softmax(logits: &[f32]) -> Vec<Probability> {
    let exps: Vec<f32> = logits.iter().map(|x| x.exp()).collect();
    let sum: f32 = exps.iter().sum();
    exps.iter().map(|e| probability(e / sum)).collect()
}

fn table(names: &[&str]) -> LabelTable {
    LabelTable::from_names(names.iter().map(|n| n.to_string()).collect())
}

#[test]
fn five_places_after_the_point() {
    assert_eq!(format_probability(probability(0.0)), "0.00000");
    assert_eq!(format_probability(probability(1.0)), "1.00000");
    assert_eq!(format_probability(probability(0.5)), "0.50000");
    assert_eq!(format_probability(probability(0.25)), "0.25000");
    assert_eq!(format_probability(probability(0.66524094)), "0.66524");
    assert_eq!(format_probability(probability(0.1)), "0.10000");
    assert_eq!(format_probability(probability(0.999994)), "0.99999");
    assert_eq!(format_probability(probability(0.999996)), "1.00000");
    assert_eq!(format_probability(probability(0.000004)), "0.00000");
    assert_eq!(format_probability(probability(0.000006)), "0.00001");
    assert_eq!(format_probability(probability(1.0e-45)), "0.00000");
    assert_eq!(format_probability(probability(1.0e-20)), "0.00000");
}

#[test]
fn halves_round_to_the_even_digit() {
    // 1/64 = 0.015625 and 3/64 = 0.046875 lie exactly between two results
    assert_eq!(format_probability(probability(0.015625)), "0.01562");
    assert_eq!(format_probability(probability(0.046875)), "0.04688");
    assert_eq!(format_probability(probability(0.984375)), "0.98438");
}

#[test]
fn text_agrees_with_the_formatting_of_the_number() {
    let mut cases: Vec<f32> = vec![
        0.0, 1.0, 0.5, 0.015625, 0.046875, 0.078125, 0.109375, 0.984375, 0.953125, 0.000005,
        0.000015, 0.999995, 0.9999949, 0.9999951, 1.0e-45, 1.1754944e-38, 5.0e-6, 4.9999997e-6,
    ];
    for k in 0..64u32 {
        cases.push((2 * k + 1) as f32 / 128.0);
        cases.push((2 * k + 1) as f32 / 64.0 / 2.0);
    }
    // every exponent that a probability can have, at several fractions
    for exponent in 0..127u32 {
        for fraction in [0u32, 1, 0x40_0000, 0x7F_FFFF, 0x12_3456] {
            cases.push(f32::from_bits((exponent << 23) | fraction));
        }
    }
    let mut seed: u32 = 2024;
    for _ in 0..20000 {
        seed = seed.wrapping_mul(1664525).wrapping_add(1013904223);
        cases.push(f32::from_bits(seed % 0x3F80_0001));
        cases.push((seed >> 8) as f32 / 16777216.0);
    }
    for value in cases {
        assert_eq!(format_probability(probability(value)), format!("{:.5}", value), "value {:e}", value);
    }
}

#[test]
fn predictions_are_joined_by_comma_and_space() {
    let labels = table(&["a", "b", "c"]);
    let predictions = vec![
        Prediction { index: 2, probability: probability(0.5) },
        Prediction { index: 0, probability: probability(0.25) },
    ];
    assert_eq!(describe(&predictions, &labels), Ok("c: 0.50000, a: 0.25000".to_string()));
    assert_eq!(describe(&predictions[..1].to_vec(), &labels), Ok("c: 0.50000".to_string()));
    assert_eq!(describe(&Vec::new(), &labels), Ok(String::new()));
}

#[test]
fn labels_are_copied_as_they_are() {
    let labels = table(&["tench, Tinca tinca", "", "caf\u{e9}: noir"]);
    let predictions = vec![
        Prediction { index: 0, probability: probability(1.0) },
        Prediction { index: 1, probability: probability(0.0) },
        Prediction { index: 2, probability: probability(0.125) },
    ];
    assert_eq!(
        describe(&predictions, &labels),
        Ok("tench, Tinca tinca: 1.00000, : 0.00000, caf\u{e9}: noir: 0.12500".to_string())
    );
}

#[test]
fn white_pixel_scenario_output() {
    let labels = table(&["a", "b", "c"]);
    let probabilities = softmax(&[1.0, 2.0, 3.0]);
    assert_eq!(TOP_K, 3);
    assert_eq!(
        interpret(&probabilities, &labels, TOP_K),
        Ok("c: 0.66524, b: 0.24473, a: 0.09003".to_string())
    );
}

#[test]
fn uniform_logits_report_the_lowest_indices() {
    let labels = table(&["a", "b", "c", "d"]);
    let probabilities = softmax(&[0.5, 0.5, 0.5, 0.5]);
    assert_eq!(
        interpret(&probabilities, &labels, 3),
        Ok("a: 0.25000, b: 0.25000, c: 0.25000".to_string())
    );
}

#[test]
fn fewer_classes_than_k() {
    let labels = table(&["a", "b"]);
    let probabilities = vec![probability(0.25), probability(0.75)];
    assert_eq!(interpret(&probabilities, &labels, 3), Ok("b: 0.75000, a: 0.25000".to_string()));
    assert_eq!(interpret(&probabilities, &labels, 0), Ok(String::new()));
    assert_eq!(interpret(&Vec::new(), &labels, 3), Ok(String::new()));
}

#[test]
fn class_without_label_is_a_lookup_error() {
    let labels = table(&["a", "b"]);
    let probabilities = vec![probability(0.1), probability(0.2), probability(0.7)];
    assert_eq!(interpret(&probabilities, &labels, 3), Err(PipelineError::Lookup { index: 2 }));
    // the class without a label is not among the first two
    let probabilities = vec![probability(0.5), probability(0.4), probability(0.1)];
    assert_eq!(interpret(&probabilities, &labels, 2), Ok("a: 0.50000, b: 0.40000".to_string()));
    assert_eq!(interpret(&probabilities, &labels, 3), Err(PipelineError::Lookup { index: 2 }));
}

#[test]
fn first_class_without_label_is_named() {
    let labels = table(&["a"]);
    let predictions = vec![
        Prediction { index: 0, probability: probability(0.5) },
        Prediction { index: 7, probability: probability(0.3) },
        Prediction { index: 4, probability: probability(0.2) },
    ];
    assert_eq!(describe(&predictions, &labels), Err(PipelineError::Lookup { index: 7 }));
}
