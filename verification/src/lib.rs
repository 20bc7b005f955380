//! Verified core of nbenchmark: the GPU hardware table, the GGUF format
//! advisor, the benchmark catalogue and the diagnosis rules.

pub mod cli;
pub mod cublas;
pub mod cuda;
pub mod gguf;
pub mod gpu_db;
pub mod ptx;
pub mod report;
pub mod text;
