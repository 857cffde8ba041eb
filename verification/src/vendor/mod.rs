pub mod performers;
