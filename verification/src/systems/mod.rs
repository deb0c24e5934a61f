//! What happens once per frame: the captured notes of the frame go through
//! the receptors, and grades and completed patterns go into the score.

pub mod load;
pub mod note;
pub mod receptor;
pub mod score;
