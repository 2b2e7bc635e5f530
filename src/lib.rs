//! CLIP image and text embeddings on top of candle.
//!
//! The library holds the embedding pipeline: the choice of compute device,
//! the normalization of images into the model's canonical pixel layout, the
//! tokenization of text, and the calls into the dual-encoder model. Model
//! outputs stay candle tensors: reading them as floating point numbers, like
//! scaling pixels to [-1, 1] and comparing embeddings, is left to the caller.

pub mod device;
pub mod error;
pub mod preprocess;
pub mod embedder;
pub mod tokenize;
