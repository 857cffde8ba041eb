pub mod debouncer;
