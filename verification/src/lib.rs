pub mod checked;
pub mod laws;
pub mod sequence;

pub use checked::CheckedAdd;
pub use checked::FibonacciNumber;
pub use checked::ZeroNumber;
pub use sequence::FibonacciSequence;
