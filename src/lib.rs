//! Call throttling: a windowed counter that lets at most a fixed number of
//! calls run per window, and a probabilistic sampler that lets a call run
//! with probability `per_time / estimated_per_time`.
pub mod limiter;
pub mod sampler;
