//! Kana rewriting and asynchronous conversion for a Japanese input method.

pub mod kana;
pub mod half_katakana;
pub mod kana_laws;
pub mod candidates;
pub mod candidate_laws;
pub mod preedit;
pub mod conversion;
pub mod conversion_laws;
pub mod job;
pub mod job_laws;
pub mod worker;
pub mod worker_laws;
pub mod runtime;
pub mod engine;
pub mod init;
pub mod assets;
pub mod init_laws;
pub mod completion;
pub mod completion_laws;
pub mod engine_laws;
