//! Pre- and post-processing around a neural-network image classifier.
//!
//! The crate turns an encoded image into the byte layout of a `1 x 3 x H x W`
//! single-precision input tensor, and turns the classifier's output tensor back
//! into a ranked, labelled list of predictions.
//!
//! Single-precision numbers are carried as their IEEE 754 bit patterns (`u32`),
//! so every function here works on integers and bytes only.

pub mod codec;
pub mod decode;
pub mod error;
pub mod grid;
pub mod labels;
pub mod normalize;
pub mod output;
pub mod probability;
pub mod rank;
pub mod render;
pub mod request;
pub mod scan;
pub mod tensor;

pub use codec::{bytes_to_f32_vec, decode_tensor, f32_vec_to_bytes};
pub use decode::{decode_base64_image, decode_image, decode_input, payload};
pub use error::{PipelineError, RequestField};
pub use grid::{GridView, PixelGrid};
pub use labels::LabelTable;
pub use output::{locate_output, output_logits, NamedTensor, INPUT_NAME};
pub use probability::Probability;
pub use rank::{rank, top_k, Prediction};
pub use render::{describe, format_probability, interpret, TOP_K};
pub use request::{parse_request, request_from_document, Request};
pub use tensor::{encode_tensor, image_to_tensor, tensor_dimensions, tensor_from_grid};
