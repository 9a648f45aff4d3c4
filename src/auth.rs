pub mod in_memory_auth;
