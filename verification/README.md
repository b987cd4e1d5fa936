# gptneox

GPT-NeoX support for GGML model files, verified with Verus.

- `src/` is the verified library:
  - `wire`: signed 32-bit little-endian integers, as GGML headers store them;
  - `file_type`: the storage format of a model's tensors and its header code;
  - `hyperparameters`: the GPT-NeoX hyperparameters, and reading and writing
    the header that records them, with the laws that reading gives back what
    was written and writing gives back what was read;
  - `names`: the names of the model's tensors, with the law that no two of
    them coincide;
  - `layout`: the views that an attention layer takes over its fused
    query/key/value projection and over the session's key and value
    memories, with the laws that keys and values are read back where they
    were stored and stay inside the layer's slot.
- `app/` implements the `llm-base` traits on top of it: it loads the tensors,
  builds the ggml graph and reads and writes the header through `std::io`.
