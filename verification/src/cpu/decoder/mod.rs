mod arm_decoder;
mod thumb_decoder;

pub use arm_decoder::{decode_arm, decode_arm_spec};
pub use thumb_decoder::{decode_thumb, decode_thumb_spec};
