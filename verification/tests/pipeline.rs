use std::io::Cursor;

use base64::Engine;
use image_classification::{
    decode_base64_image, image_to_tensor, interpret, output_logits, parse_request, LabelTable,
    NamedTensor, PipelineError, Probability, RequestField, TOP_K,
};

const OUTPUT_NAME: &str = "squeezenet0_flatten0_reshape0";

/// Stands in for the engine: whatever the input, the logits are 1, 2, 3.
fn mock_engine(input: &[u8], name: &str) -> Vec<NamedTensor> {
    assert_eq!(input.len() % 4, 0);
    let data: Vec<u8> = [1.0f32, 2.0, 3.0].iter().flat_map(|n| n.to_le_bytes()).collect();
    vec![NamedTensor { name: name.to_string(), data }]
}

fn probabilities_from(logits: &[u32]) -> Vec<Probability> {
    let exps: Vec<f32> = logits.iter().map(|b| f32::from_bits(*b).exp()).collect();
    let sum: f32 = exps.iter().sum();
    exps.iter().map(|e| Probability::from_bits((e / sum).to_bits()).unwrap()).collect()
}

fn white_pixel_request() -> String {
    let picture = image::RgbImage::from_raw(1, 1, vec![255, 255, 255]).unwrap();
    let mut file = Vec::new();
    picture.write_to(&mut Cursor::new(&mut file), image::ImageFormat::Png).unwrap();
    let payload = base64::engine::general_purpose::STANDARD.encode(&file);
    format!(
        r#"{{"model_path": "model.onnx", "labels_path": "labels.txt", "input": "data:image/png;base64,{}"}}"#,
        payload
    )
}

fn classify(event: &str, labels_text: &str, output_name: &str) -> Result<String, PipelineError> {
    let request = parse_request(event)?;
    let image = decode_base64_image(&request.input)?;
    let labels = LabelTable::parse(labels_text);
    let input = image_to_tensor(image, 1, 1)?;
    let outputs = mock_engine(&input, output_name);
    let logits = output_logits(&outputs, OUTPUT_NAME)?;
    interpret(&probabilities_from(&logits), &labels, TOP_K)
}

#[test]
fn white_pixel_end_to_end() {
    let event = white_pixel_request();
    assert_eq!(
        classify(&event, "a\nb\nc\n", OUTPUT_NAME),
        Ok("c: 0.66524, b: 0.24473, a: 0.09003".to_string())
    );
}

#[test]
fn white_pixel_input_tensor() {
    let request = parse_request(&white_pixel_request()).unwrap();
    let image = decode_base64_image(&request.input).unwrap();
    let tensor = image_to_tensor(image, 1, 1).unwrap();
    let numbers: Vec<f32> = tensor
        .chunks(4)
        .map(|c| f32::from_le_bytes([c[0], c[1], c[2], c[3]]))
        .collect();
    assert_eq!(numbers.len(), 3);
    assert!((numbers[0] - (1.0 - 0.485) / 0.229).abs() < 1e-5);
    assert!((numbers[1] - (1.0 - 0.456) / 0.224).abs() < 1e-5);
    assert!((numbers[2] - (1.0 - 0.406) / 0.225).abs() < 1e-5);
}

#[test]
fn each_stage_reports_its_own_error() {
    let event = white_pixel_request();
    assert_eq!(
        classify(r#"{"model_path": "m", "input": "QUJD"}"#, "a\nb\nc", OUTPUT_NAME),
        Err(PipelineError::MalformedRequest { field: RequestField::LabelsPath })
    );
    assert_eq!(
        classify(r#"{"model_path": "m", "labels_path": "l", "input": "@@@@"}"#, "a\nb\nc", OUTPUT_NAME),
        Err(PipelineError::Decode)
    );
    assert_eq!(
        classify(r#"{"model_path": "m", "labels_path": "l", "input": "QUJD"}"#, "a\nb\nc", OUTPUT_NAME),
        Err(PipelineError::Decode)
    );
    assert_eq!(classify(&event, "a\nb\nc", "something_else"), Err(PipelineError::OutputNotFound));
    assert_eq!(classify(&event, "a\nb", OUTPUT_NAME), Err(PipelineError::Lookup { index: 2 }));
}

#[test]
fn errors_are_told_apart_by_who_is_at_fault() {
    assert!(PipelineError::Decode.is_malformed_input());
    assert!(PipelineError::Shape { height: 0, width: 1 }.is_malformed_input());
    assert!(PipelineError::MalformedRequest { field: RequestField::Input }.is_malformed_input());
    assert!(!PipelineError::Io.is_malformed_input());
    assert!(!PipelineError::OutputNotFound.is_malformed_input());
    assert!(!PipelineError::Codec { length: 3 }.is_malformed_input());
    assert!(!PipelineError::Lookup { index: 2 }.is_malformed_input());
}
