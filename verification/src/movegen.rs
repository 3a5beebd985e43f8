pub mod basic_movegen;
