pub mod alignment;
pub mod driver;

pub use alignment::{
    AlignmentError, Channel, ChannelCount, Measurement, Measurements, OutOfRange, Pose, Poses,
    Position,
};
pub use driver::{run_filter, Belief, Halted, History};
