use anyrun::utils::{build_image, ImageSource};

#[test]
fn an_absolute_path_is_an_image_file() {
    assert_eq!(
        build_image("/usr/share/icons/hicolor/firefox.png"),
        ImageSource::File("/usr/share/icons/hicolor/firefox.png".to_string())
    );
    assert_eq!(build_image("/"), ImageSource::File("/".to_string()));
}

#[test]
fn anything_else_is_the_name_of_a_themed_icon() {
    assert_eq!(build_image("firefox"), ImageSource::IconName("firefox".to_string()));
    assert_eq!(
        build_image("icons/firefox.png"),
        ImageSource::IconName("icons/firefox.png".to_string())
    );
    assert_eq!(build_image("./firefox.png"), ImageSource::IconName("./firefox.png".to_string()));
    assert_eq!(build_image(""), ImageSource::IconName(String::new()));
}

#[test]
fn the_source_follows_what_it_is_told_about_the_path() {
    assert_eq!(ImageSource::of("x", true), ImageSource::File("x".to_string()));
    assert_eq!(ImageSource::of("/x", false), ImageSource::IconName("/x".to_string()));
}
