pub mod parse_error;
