pub mod arm_ops;
pub mod thumb_ops;

pub use arm_ops::{arm_expand_immediate, arm_ok, arm_step, ArmExecutor};
pub use thumb_ops::{thumb_ok, thumb_step, ThumbExecutor};
