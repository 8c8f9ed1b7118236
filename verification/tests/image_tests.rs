use raytracing::color::Color;
use raytracing::image::PPM;

#[test]
fn empty_image_is_header_only() {
    let ppm = PPM::new(0, 0, Vec::new());
    assert_eq!(ppm.as_file_data(), "P3\n0 0\n255");
}

#[test]
fn two_by_two_image_text() {
    let data = vec![
        vec![Color::from_rgb(255, 0, 0), Color::from_rgb(0, 255, 0)],
        vec![Color::from_rgb(0, 0, 255), Color::from_rgb(7, 8, 9)],
    ];
    let ppm = PPM::new(2, 2, data);
    assert_eq!(
        ppm.as_file_data(),
        "P3\n2 2\n255\n255 0 0\n0 255 0\n0 0 255\n7 8 9"
    );
}

#[test]
fn single_pixel_image_text() {
    let ppm = PPM::new(1, 1, vec![vec![Color::from_rgb(128, 128, 128)]]);
    assert_eq!(ppm.as_file_data(), "P3\n1 1\n255\n128 128 128");
}

#[test]
fn header_uses_given_dimensions() {
    let ppm = PPM::new(800, 400, Vec::new());
    assert_eq!(ppm.as_file_data(), "P3\n800 400\n255");
    assert_eq!(ppm.width, 800);
    assert_eq!(ppm.height, 400);
}
