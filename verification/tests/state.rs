use solhat_ui::output::assemble_output_filename;
use solhat_ui::state::{is_path_valid, InputPaths, PathsOnDisk, UiState};

fn some(path: &str) -> Option<String> {
    Some(path.to_string())
}

#[test]
fn ui_state_starts_without_a_folder() {
    assert_eq!(UiState::default().last_opened_folder, None);
}

#[test]
fn input_paths_start_unchosen() {
    let paths = InputPaths::default();
    assert_eq!(paths.light, None);
    assert_eq!(paths.dark, None);
    assert_eq!(paths.flat, None);
    assert_eq!(paths.darkflat, None);
    assert_eq!(paths.bias, None);
    assert_eq!(paths.hot_pixel_map, None);
    assert_eq!(paths.output_dir, None);
}

#[test]
fn a_path_is_valid_when_chosen_and_on_disk() {
    assert!(is_path_valid(&some("/data/sun.ser"), true));
    assert!(!is_path_valid(&some("/data/sun.ser"), false));
    assert!(!is_path_valid(&None, true));
    assert!(!is_path_valid(&None, false));
}

#[test]
fn validate_paths_forgets_what_is_not_on_disk() {
    let mut paths = InputPaths {
        light: some("/data/sun.ser"),
        dark: some("/data/dark.ser"),
        flat: None,
        darkflat: some("/data/darkflat.ser"),
        bias: None,
        hot_pixel_map: some("/data/hot.toml"),
        output_dir: some("/out"),
    };
    let on_disk = PathsOnDisk {
        light: true,
        dark: false,
        flat: true,
        darkflat: true,
        bias: false,
        hot_pixel_map: false,
        output_dir: true,
    };
    paths.validate_paths(&on_disk);
    assert_eq!(paths.light, some("/data/sun.ser"));
    assert_eq!(paths.dark, None);
    assert_eq!(paths.flat, None);
    assert_eq!(paths.darkflat, some("/data/darkflat.ser"));
    assert_eq!(paths.bias, None);
    assert_eq!(paths.hot_pixel_map, None);
    assert_eq!(paths.output_dir, some("/out"));
    paths.validate_paths(&on_disk);
    assert_eq!(paths.light, some("/data/sun.ser"));
    assert_eq!(paths.darkflat, some("/data/darkflat.ser"));
    assert_eq!(paths.dark, None);
}

#[test]
fn output_name_of_a_plain_run() {
    assert_eq!(assemble_output_filename(Some("Sun_150322"), "Sun", None, ""), "Sun_150322_Sun.tif");
}

#[test]
fn output_name_with_drizzle_and_free_text() {
    assert_eq!(
        assemble_output_filename(Some("Sun_150322"), "Sun", Some("1.5 x"), "best"),
        "Sun_150322_Sun_15x_best.tif"
    );
    assert_eq!(
        assemble_output_filename(Some("moon"), "Moon", Some("3.0X"), ""),
        "moon_Moon_30X.tif"
    );
    assert_eq!(
        assemble_output_filename(Some("moon"), "Moon", None, "first light"),
        "moon_Moon_first light.tif"
    );
}

#[test]
fn output_name_without_an_input() {
    assert_eq!(assemble_output_filename(None, "Sun", None, ""), "Unknown_Sun.tif");
    assert_eq!(assemble_output_filename(None, "Sun", Some(". ."), "x"), "Unknown_Sun__x.tif");
}

#[test]
fn output_name_keeps_other_characters_of_the_scale() {
    assert_eq!(
        assemble_output_filename(Some("a.b c"), "T", Some("2,0 ×. é"), "ü."),
        "a.b c_T_2,0×é_ü..tif"
    );
}

#[test]
fn a_run_can_start_with_an_input_and_an_output_directory() {
    let mut paths = InputPaths::default();
    assert!(!paths.can_execute());
    paths.light = some("/data/sun.ser");
    assert!(!paths.can_execute());
    paths.output_dir = some("/out");
    assert!(paths.can_execute());
    paths.light = None;
    assert!(!paths.can_execute());
}
