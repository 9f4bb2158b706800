mod braid;
mod letter;
mod word;

pub use braid::{braid_result_operand, letter_braid_operand, word_braid_operand};
pub use word::{letter_result_operand, word_outcome};
