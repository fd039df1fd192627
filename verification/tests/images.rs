use grepfuzz::cli::Cli;
use grepfuzz::grayscale::{DecodeError, GrayscaleImage, MAX_PIXELS};
use grepfuzz::image_loader::{
    accept_decoded, analyze_image_input, load_image, open_grayscale, ImageInputMode, ImageSource,
    SYNTHETIC_SIDE,
};
use grepfuzz::image_source_helpers::select_image_source;

fn plain_cli() -> Cli {
    Cli {
        file: None,
        synthetic_checkerboard: false,
        synthetic_white: false,
        verbose: false,
        threshold: None,
        blur: true,
        sharp: false,
        ascii: false,
        passthrough: false,
        std_in_bytes: false,
        tenengrad_threshold: None,
        opencv_laplacian_threshold: None,
        config: None,
    }
}

fn pgm() -> Vec<u8> {
    let mut bytes = b"P5\n2 2\n255\n".to_vec();
    bytes.extend_from_slice(&[0, 64, 128, 255]);
    bytes
}

#[test]
fn image_keeps_dimensions_and_pixels() {
    let img = GrayscaleImage::new(3, 2, vec![1, 2, 3, 4, 5, 6]).unwrap();
    assert_eq!(img.width(), 3);
    assert_eq!(img.height(), 2);
    assert_eq!(img.pixels(), &vec![1, 2, 3, 4, 5, 6]);
    assert_eq!(img.get_pixel(0, 0), 1);
    assert_eq!(img.get_pixel(2, 0), 3);
    assert_eq!(img.get_pixel(0, 1), 4);
    assert_eq!(img.get_pixel(2, 1), 6);
}

#[test]
fn zero_area_is_refused() {
    assert!(matches!(GrayscaleImage::new(0, 0, vec![]), Err(DecodeError::ZeroArea)));
    assert!(matches!(GrayscaleImage::new(0, 5, vec![]), Err(DecodeError::ZeroArea)));
    assert!(matches!(GrayscaleImage::new(5, 0, vec![1]), Err(DecodeError::ZeroArea)));
    assert!(matches!(ImageSource::from_white(0, 3), Err(DecodeError::ZeroArea)));
    assert!(matches!(ImageSource::from_checkerboard(3, 0), Err(DecodeError::ZeroArea)));
}

#[test]
fn too_many_pixels_are_refused() {
    assert_eq!(MAX_PIXELS, 4_294_967_295);
    assert!(matches!(GrayscaleImage::new(65_536, 65_536, vec![]), Err(DecodeError::TooLarge)));
    assert!(matches!(ImageSource::from_white(u32::MAX, 2), Err(DecodeError::TooLarge)));
    assert!(matches!(ImageSource::from_checkerboard(65_536, 65_536), Err(DecodeError::TooLarge)));
}

#[test]
fn wrong_buffer_length_is_refused() {
    assert!(matches!(GrayscaleImage::new(2, 2, vec![1, 2, 3]), Err(DecodeError::SizeMismatch)));
    assert!(matches!(GrayscaleImage::new(1, 1, vec![]), Err(DecodeError::SizeMismatch)));
    assert!(matches!(
        GrayscaleImage::new(65_535, 65_537, vec![0]),
        Err(DecodeError::SizeMismatch)
    ));
}

#[test]
fn checkerboard_alternates_by_coordinate_sum() {
    let img = ImageSource::from_checkerboard(3, 2).unwrap();
    assert_eq!(img.width(), 3);
    assert_eq!(img.height(), 2);
    assert_eq!(img.pixels(), &vec![0, 255, 0, 255, 0, 255]);
}

#[test]
fn white_is_all_255() {
    let img = ImageSource::from_white(2, 3).unwrap();
    assert_eq!(img.width(), 2);
    assert_eq!(img.height(), 3);
    assert_eq!(img.pixels(), &vec![255; 6]);
}

#[test]
fn decodes_bytes_from_standard_input() {
    let img = ImageSource::from_stdin_bytes(&pgm()).unwrap();
    assert_eq!(img.width(), 2);
    assert_eq!(img.height(), 2);
    assert_eq!(img.pixels(), &vec![0, 64, 128, 255]);
}

#[test]
fn undecodable_bytes_are_unreadable() {
    match ImageSource::from_stdin_bytes(&b"this is no image".to_vec()) {
        Err(DecodeError::Unreadable(text)) => {
            assert!(text.starts_with("Failed to decode image from stdin: "));
            assert!(text.len() > "Failed to decode image from stdin: ".len());
        }
        other => panic!("unexpected {:?}", other),
    }
    assert!(matches!(ImageSource::from_stdin_bytes(&vec![]), Err(DecodeError::Unreadable(_))));
}

#[test]
fn decodes_a_file_by_its_extension() {
    let img = ImageSource::from_file("scan.pgm", &pgm()).unwrap();
    assert_eq!((img.width(), img.height()), (2, 2));
    assert_eq!(img.pixels(), &vec![0, 64, 128, 255]);
    match ImageSource::from_file("scan.png", &pgm()) {
        Err(DecodeError::Unreadable(text)) => {
            assert!(text.starts_with("Failed to decode image scan.png: "))
        }
        other => panic!("unexpected {:?}", other),
    }
    match ImageSource::from_file("scan", &pgm()) {
        Err(DecodeError::Unreadable(text)) => {
            assert!(text.starts_with("Failed to decode image scan: "))
        }
        other => panic!("unexpected {:?}", other),
    }
}

#[test]
fn decoded_parts_are_held_to_the_rules() {
    let img = accept_decoded(Ok((2, 1, vec![9, 8])), "ignored").unwrap();
    assert_eq!(img.pixels(), &vec![9, 8]);
    assert!(matches!(accept_decoded(Ok((2, 1, vec![9])), "x"), Err(DecodeError::SizeMismatch)));
    assert!(matches!(accept_decoded(Ok((0, 1, vec![])), "x"), Err(DecodeError::ZeroArea)));
    match accept_decoded(Err("bad magic".to_string()), "Failed: ") {
        Err(DecodeError::Unreadable(text)) => assert_eq!(text, "Failed: bad magic"),
        other => panic!("unexpected {:?}", other),
    }
}

#[test]
fn load_image_follows_the_source() {
    let none = Vec::new();
    let board =
        load_image(ImageSource::SyntheticCheckerboard { width: 2, height: 2 }, &none).unwrap();
    assert_eq!(board.pixels(), &vec![0, 255, 255, 0]);
    let white = load_image(ImageSource::SyntheticWhite { width: 1, height: 2 }, &none).unwrap();
    assert_eq!(white.pixels(), &vec![255, 255]);
    let file = load_image(ImageSource::File("a.pgm".to_string()), &pgm()).unwrap();
    assert_eq!(file.pixels(), &vec![0, 64, 128, 255]);
    let stdin = load_image(ImageSource::Stdin, &pgm()).unwrap();
    assert_eq!(stdin.pixels(), &vec![0, 64, 128, 255]);
    assert!(matches!(
        load_image(ImageSource::SyntheticWhite { width: 0, height: 2 }, &none),
        Err(DecodeError::ZeroArea)
    ));
    assert!(matches!(load_image(ImageSource::Stdin, &none), Err(DecodeError::Unreadable(_))));
}

#[test]
fn image_source_clones_to_an_equal_source() {
    let sources = vec![
        ImageSource::SyntheticCheckerboard { width: 3, height: 4 },
        ImageSource::SyntheticWhite { width: 5, height: 6 },
        ImageSource::File("a.png".to_string()),
        ImageSource::Stdin,
    ];
    for source in &sources {
        assert_eq!(&source.clone(), source);
    }
}

#[test]
fn input_modes_pair_source_and_image() {
    let cli = plain_cli();
    let none = Vec::new();
    let (source, img) =
        analyze_image_input(ImageInputMode::SyntheticCheckerboard, &cli, 100_000, &none).unwrap();
    assert_eq!(SYNTHETIC_SIDE, 256);
    assert_eq!(source, ImageSource::SyntheticCheckerboard { width: 256, height: 256 });
    assert_eq!((img.width(), img.height()), (256, 256));
    assert_eq!(img.get_pixel(0, 0), 0);
    assert_eq!(img.get_pixel(1, 0), 255);
    assert_eq!(img.get_pixel(255, 255), 0);
    let (source, img) =
        analyze_image_input(ImageInputMode::SyntheticWhite, &cli, 100_000, &none).unwrap();
    assert_eq!(source, ImageSource::SyntheticWhite { width: 256, height: 256 });
    assert_eq!(img.pixels(), &vec![255; 65_536]);
    let (source, img) =
        analyze_image_input(ImageInputMode::StdinBytes, &cli, 100_000, &pgm()).unwrap();
    assert_eq!(source, ImageSource::Stdin);
    assert_eq!(img.pixels(), &vec![0, 64, 128, 255]);
    let (source, img) =
        analyze_image_input(ImageInputMode::File("b.pgm".to_string()), &cli, 100_000, &pgm())
            .unwrap();
    assert_eq!(source, ImageSource::File("b.pgm".to_string()));
    assert_eq!(img.pixels(), &vec![0, 64, 128, 255]);
    assert!(analyze_image_input(ImageInputMode::StdinBytes, &cli, 100_000, &none).is_none());
    assert!(analyze_image_input(ImageInputMode::File("b.txt".to_string()), &cli, 1, &pgm())
        .is_none());
}

#[test]
fn source_is_selected_from_the_options() {
    let mut cli = plain_cli();
    assert_eq!(select_image_source(&cli).unwrap(), ImageSource::Stdin);
    cli.std_in_bytes = true;
    assert_eq!(select_image_source(&cli).unwrap(), ImageSource::Stdin);
    cli.file = Some("photo.jpg".to_string());
    assert_eq!(select_image_source(&cli).unwrap(), ImageSource::File("photo.jpg".to_string()));
    cli.synthetic_white = true;
    assert_eq!(
        select_image_source(&cli).unwrap(),
        ImageSource::SyntheticWhite { width: 256, height: 256 }
    );
    cli.synthetic_checkerboard = true;
    assert_eq!(
        select_image_source(&cli).unwrap(),
        ImageSource::SyntheticCheckerboard { width: 256, height: 256 }
    );
}

#[test]
fn opens_a_file_as_grayscale() {
    let img = open_grayscale("scan.pgm", &pgm()).unwrap();
    assert_eq!((img.width(), img.height()), (2, 2));
    assert_eq!(img.pixels(), &vec![0, 64, 128, 255]);
    let mut colour = b"P6\n2 1\n255\n".to_vec();
    colour.extend_from_slice(&[255, 255, 255, 0, 0, 0]);
    let img = open_grayscale("photo.ppm", &colour).unwrap();
    assert_eq!((img.width(), img.height()), (2, 1));
    assert_eq!(img.pixels(), &vec![255, 0]);
    match open_grayscale("scan.jpg", &pgm()) {
        Err(DecodeError::Unreadable(text)) => assert!(!text.is_empty()),
        other => panic!("unexpected {:?}", other),
    }
    assert!(matches!(open_grayscale("scan.pgm", &Vec::new()), Err(DecodeError::Unreadable(_))));
}

#[test]
fn errors_are_described() {
    assert_eq!(DecodeError::ZeroArea.describe(), "image has zero area");
    assert_eq!(DecodeError::TooLarge.describe(), "image has too many pixels");
    assert_eq!(
        DecodeError::SizeMismatch.describe(),
        "pixel buffer does not match the dimensions"
    );
    assert_eq!(DecodeError::Unreadable("bad header".to_string()).describe(), "bad header");
}
