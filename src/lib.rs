//! Desktop-duplication frame capture: the decisions of a capture session, the
//! pixel-format table, crop-region extraction and the lifecycle of a CPU-mapped
//! frame, each stated and proved with Verus. The graphics calls themselves are
//! made by the host around this library, which hands their outcomes in as
//! plain values.

pub mod error;
pub mod format;
pub mod frame;
pub mod region;
pub mod session;
