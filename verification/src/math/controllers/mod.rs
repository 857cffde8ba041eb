pub mod bang_bang;
