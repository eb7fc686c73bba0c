//! Output formats: digests, CUE sheets and XML DAT catalogues.

pub mod hash;
pub mod cue;
pub mod dat;
