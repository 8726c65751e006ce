//! Interpreter core for a classic cinematic adventure game engine: the
//! resource pipeline, the bytecode virtual machine, the polygon rasterizer
//! with its page model, and the palette pipeline.

pub mod cursor;
pub mod channel;
pub mod mem_entry;
pub mod bank;
pub mod parts;
pub mod loaded;
pub mod resource;
pub mod renderer;
pub mod shapes;
pub mod video;
pub mod execution_context;
pub mod vm;
pub mod engine;
