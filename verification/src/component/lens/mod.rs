pub mod border;
