//! A dual-mode execution core: an image transform pipeline (decode, pixel
//! transform, re-encode) and a stand-in heavy workload, each offered in a
//! blocking and a non-blocking variant. The decisions of the execution
//! gateway (where a call runs, whether the pool admits it, how a task handle
//! moves to its single terminal state) are made here; the threads that carry
//! them out live with the host.

pub mod image_ops;
pub mod pipeline;
pub mod heavy_work;
pub mod gateway;
