pub mod safe;
pub mod sys;
