pub mod documento;
