use gptneox::file_type::FileType;

#[test]
fn codes_of_file_types() {
    let expected = [
        (FileType::F32, 0),
        (FileType::MostlyF16, 1),
        (FileType::MostlyQ4_0, 2),
        (FileType::MostlyQ4_1, 3),
        (FileType::MostlyQ4_1SomeF16, 4),
        (FileType::MostlyQ4_2, 5),
        (FileType::MostlyQ8_0, 7),
        (FileType::MostlyQ5_0, 8),
        (FileType::MostlyQ5_1, 9),
    ];
    for (ft, code) in expected {
        assert_eq!(ft.code(), code);
        assert_eq!(FileType::from_code(code), Some(ft));
    }
}

#[test]
fn codes_without_file_type() {
    for code in [-1, 6, 10, 1000, i32::MIN, i32::MAX] {
        assert_eq!(FileType::from_code(code), None);
    }
}

#[test]
fn default_file_type() {
    assert_eq!(FileType::default(), FileType::MostlyF16);
}
