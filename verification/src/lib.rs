pub mod ast;
pub mod code_writer;
pub mod context;
pub mod render;
pub mod round_trip;
pub mod combine_modules;
pub mod edit_methods;
pub mod explore_constants;
pub mod insert_test_in_module;
pub mod documentation_context;
