use image_classification::{locate_output, output_logits, NamedTensor, PipelineError, INPUT_NAME};

fn tensor(name: &str, data: Vec<u8>) -> NamedTensor {
    NamedTensor { name: name.to_string(), data }
}

fn bytes_of(numbers: &[f32]) -> Vec<u8> {
    numbers.iter().flat_map(|n| n.to_le_bytes()).collect()
}

#[test]
fn input_tensor_is_called_data() {
    assert_eq!(INPUT_NAME, "data");
}

#[test]
fn output_is_found_by_name() {
    let outputs = vec![
        tensor("other", vec![1, 2, 3, 4]),
        tensor("squeezenet0_flatten0_reshape0", bytes_of(&[1.0, 2.0, 3.0])),
    ];
    assert_eq!(locate_output(&outputs, "squeezenet0_flatten0_reshape0"), Ok(1));
    assert_eq!(locate_output(&outputs, "other"), Ok(0));
    let logits = output_logits(&outputs, "squeezenet0_flatten0_reshape0").unwrap();
    assert_eq!(logits, vec![1.0f32.to_bits(), 2.0f32.to_bits(), 3.0f32.to_bits()]);
}

#[test]
fn first_of_two_outputs_with_the_name_is_taken() {
    let outputs = vec![
        tensor("a", bytes_of(&[5.0])),
        tensor("b", bytes_of(&[6.0])),
        tensor("b", bytes_of(&[7.0])),
    ];
    assert_eq!(locate_output(&outputs, "b"), Ok(1));
    assert_eq!(output_logits(&outputs, "b"), Ok(vec![6.0f32.to_bits()]));
}

#[test]
fn name_mismatch_is_output_not_found() {
    let outputs = vec![tensor("squeezenet0_flatten0_reshape0", bytes_of(&[1.0]))];
    assert_eq!(locate_output(&outputs, "softmax"), Err(PipelineError::OutputNotFound));
    assert_eq!(output_logits(&outputs, "softmax"), Err(PipelineError::OutputNotFound));
    assert_eq!(
        locate_output(&outputs, "squeezenet0_flatten0_reshape"),
        Err(PipelineError::OutputNotFound)
    );
    assert_eq!(
        locate_output(&outputs, "Squeezenet0_flatten0_reshape0"),
        Err(PipelineError::OutputNotFound)
    );
    assert_eq!(locate_output(&Vec::new(), "data"), Err(PipelineError::OutputNotFound));
}

#[test]
fn output_of_odd_length_is_a_codec_error() {
    let outputs = vec![tensor("out", vec![0, 0, 128, 63, 0, 0])];
    assert_eq!(output_logits(&outputs, "out"), Err(PipelineError::Codec { length: 6 }));
}

#[test]
fn empty_output_has_no_logits() {
    let outputs = vec![tensor("out", Vec::new())];
    assert_eq!(output_logits(&outputs, "out"), Ok(Vec::new()));
}
