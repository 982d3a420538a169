use panothumb::naming::{file_stem, output_name, output_names, suffix, Variant};

#[test]
fn stem_drops_last_extension() {
    assert_eq!(file_stem("photo.jpg"), "photo");
    assert_eq!(file_stem("archive.tar.gz"), "archive.tar");
}

#[test]
fn stem_of_name_without_extension_is_whole_name() {
    assert_eq!(file_stem("panorama"), "panorama");
    assert_eq!(file_stem(""), "");
}

#[test]
fn stem_keeps_leading_dot() {
    assert_eq!(file_stem(".hidden"), ".hidden");
    assert_eq!(file_stem(".hidden.png"), ".hidden");
}

#[test]
fn stem_of_trailing_dot() {
    assert_eq!(file_stem("shot."), "shot");
}

#[test]
fn stem_with_non_ascii_characters() {
    assert_eq!(file_stem("Étoile – ciel.jpeg"), "Étoile – ciel");
}

#[test]
fn suffixes() {
    assert_eq!(suffix(Variant::Resized), "");
    assert_eq!(suffix(Variant::Left), " - Left");
    assert_eq!(suffix(Variant::Right), " - Right");
    assert_eq!(suffix(Variant::Small), " - Small");
}

#[test]
fn single_output_name() {
    assert_eq!(output_name("beach", Variant::Right), "beach - Right.png");
    assert_eq!(output_name("beach", Variant::Resized), "beach.png");
}

#[test]
fn four_distinct_output_names() {
    let names = output_names("beach.jpg");
    assert_eq!(
        names,
        vec![
            "beach.png".to_string(),
            "beach - Left.png".to_string(),
            "beach - Right.png".to_string(),
            "beach - Small.png".to_string(),
        ]
    );
    for i in 0..4 {
        for j in 0..4 {
            assert_eq!(names[i] == names[j], i == j);
        }
    }
}

#[test]
fn output_names_without_extension() {
    let names = output_names("sky");
    assert_eq!(names[0], "sky.png");
    assert_eq!(names[3], "sky - Small.png");
}
