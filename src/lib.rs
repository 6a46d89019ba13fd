//! Decision logic of the geothmetic meandian: the lower median of a list of
//! order keys, the test that truncated values agree, and the bookkeeping of
//! the iteration cap.
pub mod median;
pub mod agreement;
pub mod progress;
