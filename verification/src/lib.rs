//! GPT-NeoX support for the GGML model family: the hyperparameter header of a
//! model file, the names under which the model's tensors are stored, and the
//! geometry of the views that one attention layer takes over its key/value
//! memory.
pub mod file_type;
pub mod hyperparameters;
pub mod layout;
pub mod names;
pub mod wire;
