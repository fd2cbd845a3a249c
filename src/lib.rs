pub mod tick;
