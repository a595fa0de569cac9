# lmrs

A CUDA tensor toolkit whose decision logic is verified with Verus.

- `src/` is the verified library:
  - `shape`, `layout`, `error`, `dtype`, `device`: shapes, row-major strides, element counts
    and every check that a tensor operation runs before it launches a kernel (device, shape,
    contiguity, kernel size limits, normalization widths, causal masks, rotary embedding,
    matrix products), with the error each check reports.
  - `text`, `parser`, `params`, `model`: the reader of CUDA source text that finds
    `__global__` kernels and `extern "C"` host functions and maps their C parameters to Rust
    types.
  - `config`, `paths`, `pipeline`, `compile`, `generator`: the generator's configuration; the
    paths, file names, build-script directives and compiler command lines it derives from it;
    NVRTC compilation; and the record of a generation run, one source at a time.
  - `laws`: properties that relate several of these functions, stated and proved.
- `app/` holds what the verifier does not see: device memory and kernel launches, file-system
  walking, reading and writing files, `nvcc` processes, environment variables, and error types
  with `Display`.
- `tests/` runs the library on concrete values.
