//! Adapters implementing the port traits: buffers, models, a modelizer,
//! alarm sinks and storage backends.

pub mod bench_model;
pub mod bench_storage;
pub mod bounded_buffer;
pub mod concurrent_buffer;
pub mod demo_model;
pub mod demo_modelizer;
pub mod in_memory_alarm;
pub mod log_alarm;
pub mod offline_model;
pub mod offline_storage;
pub mod in_memory_buffer;
pub mod in_memory_buffer2;
pub mod in_memory_storage;
pub mod concurrent_buffer2;
