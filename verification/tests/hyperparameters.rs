use gptneox::file_type::FileType;
use gptneox::hyperparameters::{
    Hyperparameters, HyperparametersReadError, HyperparametersWriteError, HEADER_BYTES,
};

fn header(values: [i32; 8]) -> Vec<u8> {
    let mut out = Vec::new();
    for v in values {
        out.extend_from_slice(&v.to_le_bytes());
    }
    out
}

fn sample() -> Hyperparameters {
    Hyperparameters {
        n_vocab: 50432,
        n_ctx: 2048,
        n_embd: 2560,
        n_head: 32,
        n_layer: 32,
        n_rot: 80,
        use_parallel_residual: false,
        file_type: FileType::MostlyQ4_0,
    }
}

#[test]
fn default_hyperparameters() {
    let h = Hyperparameters::default();
    assert_eq!(h.n_vocab, 0);
    assert_eq!(h.n_ctx, 0);
    assert_eq!(h.n_embd, 0);
    assert_eq!(h.n_head, 0);
    assert_eq!(h.n_layer, 0);
    assert_eq!(h.n_rot, 0);
    assert!(h.use_parallel_residual);
    assert_eq!(h.file_type, FileType::MostlyF16);
}

#[test]
fn read_known_header() {
    let bytes = header([50432, 2048, 2560, 32, 32, 80, 0, 2]);
    assert_eq!(Hyperparameters::read_ggml(&bytes), Ok(sample()));
}

#[test]
fn read_ignores_what_follows() {
    let mut bytes = header([10, 20, 30, 2, 3, 4, 1, 9]);
    bytes.extend_from_slice(&[0xff, 0xfe, 0x01]);
    let h = Hyperparameters::read_ggml(&bytes).unwrap();
    assert_eq!(h.n_vocab, 10);
    assert_eq!(h.n_ctx, 20);
    assert_eq!(h.n_embd, 30);
    assert_eq!(h.n_head, 2);
    assert_eq!(h.n_layer, 3);
    assert_eq!(h.n_rot, 4);
    assert!(h.use_parallel_residual);
    assert_eq!(h.file_type, FileType::MostlyQ5_1);
}

#[test]
fn read_short_input_fails() {
    let bytes = header([1, 2, 3, 4, 5, 6, 1, 1]);
    assert_eq!(
        Hyperparameters::read_ggml(&bytes[..31]),
        Err(HyperparametersReadError::UnexpectedEof)
    );
    assert_eq!(
        Hyperparameters::read_ggml(&[]),
        Err(HyperparametersReadError::UnexpectedEof)
    );
}

#[test]
fn read_negative_count_fails() {
    let bytes = header([1, 2, -7, 4, 5, 6, 1, 1]);
    assert_eq!(
        Hyperparameters::read_ggml(&bytes),
        Err(HyperparametersReadError::InvalidIntegerConversion(-7))
    );
}

#[test]
fn read_negative_count_before_the_end_of_input() {
    // The negative count comes before the input runs out, so it decides.
    let bytes = header([1, -1, 3, 4, 5, 6, 1, 1]);
    assert_eq!(
        Hyperparameters::read_ggml(&bytes[..12]),
        Err(HyperparametersReadError::InvalidIntegerConversion(-1))
    );
}

#[test]
fn read_bad_flag_fails() {
    let bytes = header([1, 2, 3, 4, 5, 6, 2, 1]);
    assert_eq!(
        Hyperparameters::read_ggml(&bytes),
        Err(HyperparametersReadError::InvalidBool(2))
    );
}

#[test]
fn read_unknown_file_type_fails() {
    let bytes = header([1, 2, 3, 4, 5, 6, 0, 6]);
    assert_eq!(
        Hyperparameters::read_ggml(&bytes),
        Err(HyperparametersReadError::UnsupportedFileType(6))
    );
    let bytes = header([1, 2, 3, 4, 5, 6, 0, -1]);
    assert_eq!(
        Hyperparameters::read_ggml(&bytes),
        Err(HyperparametersReadError::UnsupportedFileType(-1))
    );
}

#[test]
fn write_known_header() {
    let mut out = vec![0xaa];
    assert_eq!(sample().write_ggml(&mut out), Ok(()));
    let mut expected = vec![0xaa];
    expected.extend(header([50432, 2048, 2560, 32, 32, 80, 0, 2]));
    assert_eq!(out, expected);
    assert_eq!(out.len(), 1 + HEADER_BYTES);
}

#[test]
fn write_then_read_gives_back_the_hyperparameters() {
    for ft in [
        FileType::F32,
        FileType::MostlyF16,
        FileType::MostlyQ4_0,
        FileType::MostlyQ4_1,
        FileType::MostlyQ4_1SomeF16,
        FileType::MostlyQ4_2,
        FileType::MostlyQ8_0,
        FileType::MostlyQ5_0,
        FileType::MostlyQ5_1,
    ] {
        for flag in [false, true] {
            let h = Hyperparameters {
                use_parallel_residual: flag,
                file_type: ft,
                n_vocab: i32::MAX as usize,
                ..sample()
            };
            let mut out = Vec::new();
            h.write_ggml(&mut out).unwrap();
            assert_eq!(Hyperparameters::read_ggml(&out), Ok(h));
        }
    }
}

#[test]
fn read_then_write_gives_back_the_bytes() {
    let bytes = header([7, 0, 1, 1, 0, 65535, 1, 8]);
    let h = Hyperparameters::read_ggml(&bytes).unwrap();
    let mut out = Vec::new();
    h.write_ggml(&mut out).unwrap();
    assert_eq!(out, bytes);
}

#[test]
fn write_oversized_count_fails_after_the_fields_before_it() {
    let h = Hyperparameters {
        n_embd: i32::MAX as usize + 1,
        ..sample()
    };
    let mut out = Vec::new();
    assert_eq!(
        h.write_ggml(&mut out),
        Err(HyperparametersWriteError::InvalidIntegerConversion)
    );
    let mut expected = Vec::new();
    expected.extend_from_slice(&50432i32.to_le_bytes());
    expected.extend_from_slice(&2048i32.to_le_bytes());
    assert_eq!(out, expected);
}

#[test]
fn getters() {
    let mut h = sample();
    assert_eq!(h.n_vocabulary(), 50432);
    assert_eq!(h.file_type(), Some(FileType::MostlyQ4_0));
    *h.file_type_mut().unwrap() = FileType::MostlyQ8_0;
    assert_eq!(h.file_type, FileType::MostlyQ8_0);
    assert_eq!(h.n_vocab, 50432);
}
