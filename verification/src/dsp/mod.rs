//! Signal shaping, as far as it is a matter of counting samples.

pub mod raised_cosine;
