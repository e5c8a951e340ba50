pub mod generic_queue;
pub mod models;
pub mod settings;
pub mod nginx_enqueue;
pub mod nginx_dequeue;
pub mod cert_queue;
pub mod basic_queue;
pub mod nginx_processor;
pub mod cert_processor;
