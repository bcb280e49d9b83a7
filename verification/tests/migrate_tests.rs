use profile_gate::migrate::{migration_file_stem, next_serial_from, struct_name_of};

#[test]
fn file_stem_pads_the_serial_and_sanitizes_the_name() {
    let stem = migration_file_stem("20250223", 1, "Create Profiles Table");
    assert_eq!(stem, "m20250223_000001_create_profiles_table");
}

#[test]
fn file_stem_keeps_long_serials_unpadded() {
    let stem = migration_file_stem("20250223", 1234567, "x");
    assert_eq!(stem, "m20250223_1234567_x");
    let stem = migration_file_stem("20250223", 123456, "x");
    assert_eq!(stem, "m20250223_123456_x");
}

#[test]
fn struct_name_title_cases_each_part() {
    let name = struct_name_of("20250227_000001_create_users");
    assert_eq!(name, "M20250227000001CreateUsers");
    assert_eq!(struct_name_of(""), "M");
    assert_eq!(struct_name_of("__a"), "MA");
}

#[test]
fn next_serial_starts_at_one() {
    let names: Vec<String> = Vec::new();
    assert_eq!(next_serial_from(&names, "20250223"), Some(1));
}

#[test]
fn next_serial_follows_the_largest_for_the_same_date() {
    let names = vec![
        "m20250223_000001_create_profiles_table.rs".to_string(),
        "m20250223_000009_add_index.rs".to_string(),
        "m20250101_000042_other_day.rs".to_string(),
        "lib.rs".to_string(),
    ];
    assert_eq!(next_serial_from(&names, "20250223"), Some(10));
    assert_eq!(next_serial_from(&names, "20250101"), Some(43));
    assert_eq!(next_serial_from(&names, "20240101"), Some(1));
}

#[test]
fn next_serial_skips_names_whose_serial_is_no_number() {
    let names = vec![
        "m20250223_notanumber_x.rs".to_string(),
        "m20250223__x.rs".to_string(),
        "m20250223_000003_ok.rs".to_string(),
    ];
    assert_eq!(next_serial_from(&names, "20250223"), Some(4));
}
