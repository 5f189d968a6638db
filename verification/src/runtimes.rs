pub mod wapc;
