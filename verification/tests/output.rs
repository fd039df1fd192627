use grepfuzz::blur_result::BlurResult;
use grepfuzz::output_helpers::{colour_verdict, print_metric_records, print_results};
use grepfuzz::text::{
    push_decimal, push_fixed2, push_fixed3, push_fixed6, push_padded, push_signed_fixed6,
    push_truth, verdict_text,
};

fn readings() -> Vec<BlurResult> {
    vec![
        BlurResult::new("Laplacian", 1_234_567, 200_000),
        BlurResult::new("Tenengrad", 99_999_500, 100_000_000),
    ]
}

fn rendered(write: impl Fn(&mut String)) -> String {
    let mut out = String::from(">");
    write(&mut out);
    out
}

#[test]
fn terse_style_is_path_and_verdict() {
    let focal = None;
    assert_eq!(
        print_results(false, &readings(), 1234, 640, 480, &focal, "a.jpg", false, false),
        "a.jpg\tfalse\n"
    );
    assert_eq!(
        print_results(true, &readings(), 1234, 640, 480, &focal, "dir/b c.png", false, false),
        "dir/b c.png\ttrue\n"
    );
}

#[test]
fn verbose_style_lists_every_reading() {
    let focal = Some("50 mm".to_string());
    assert_eq!(
        print_results(false, &readings(), 1234, 640, 480, &focal, "a.jpg", true, false),
        "File: a.jpg\n  Size: 1234 bytes\n  Dimensions: 640x480\n  Focal Length: 50 mm\n  \
         Laplacian: value = 1.235, blurry = \x1b[32mSHARP\x1b[0m (threshold: 0.200)\n  \
         Tenengrad: value = 100.000, blurry = \x1b[31mBLURRY\x1b[0m (threshold: 100.000)\n  \
         Overall blurry: \x1b[32mSHARP\x1b[0m\n"
    );
}

#[test]
fn verbose_style_marks_an_unknown_focal_length() {
    let focal = None;
    assert_eq!(
        print_results(true, &Vec::new(), 0, 1, 2, &focal, "x", true, false),
        "File: x\n  Size: 0 bytes\n  Dimensions: 1x2\n  Focal Length: -\n  \
         Overall blurry: \x1b[31mBLURRY\x1b[0m\n"
    );
}

#[test]
fn tabular_style_is_one_record() {
    let focal = Some("50 mm".to_string());
    assert_eq!(
        print_results(false, &readings(), 1234, 640, 480, &focal, "a.jpg", false, true),
        "a.jpg\t1234\t640\t480\tLaplacian\t1.234567\t0.200\tSHARP\tTenengrad\t99.999500\t100.000\tBLURRY\n"
    );
    // the tabular style wins over the verbose one
    assert_eq!(
        print_results(false, &Vec::new(), 7, 8, 9, &focal, "b.jpg", true, true),
        "b.jpg\t7\t8\t9\n"
    );
}

#[test]
fn filter_records_are_one_per_reading() {
    assert_eq!(
        print_metric_records(&readings(), 1234, 640, 480, "a.jpg"),
        "a.jpg\t1234\t640\t480\tLaplacian\t1.234567\t0.200\tSHARP\n\
         a.jpg\t1234\t640\t480\tTenengrad\t99.999500\t100.000\tBLURRY\n"
    );
    assert_eq!(print_metric_records(&Vec::new(), 1, 2, 3, "a.jpg"), "");
}

#[test]
fn verdicts_are_coloured() {
    assert_eq!(colour_verdict(true), "\x1b[31mBLURRY\x1b[0m");
    assert_eq!(colour_verdict(false), "\x1b[32mSHARP\x1b[0m");
    assert_eq!(verdict_text(true), "BLURRY");
    assert_eq!(verdict_text(false), "SHARP");
}

#[test]
fn decimal_numerals() {
    assert_eq!(rendered(|out| push_decimal(out, 0)), ">0");
    assert_eq!(rendered(|out| push_decimal(out, 9)), ">9");
    assert_eq!(rendered(|out| push_decimal(out, 10)), ">10");
    assert_eq!(rendered(|out| push_decimal(out, 1_234_567_890)), ">1234567890");
    assert_eq!(rendered(|out| push_decimal(out, u64::MAX)), ">18446744073709551615");
    assert_eq!(rendered(|out| push_padded(out, 42, 6)), ">000042");
    assert_eq!(rendered(|out| push_padded(out, 1_234_567, 3)), ">567");
    assert_eq!(rendered(|out| push_padded(out, 5, 0)), ">");
}

#[test]
fn six_places_are_exact() {
    assert_eq!(rendered(|out| push_fixed6(out, 0)), ">0.000000");
    assert_eq!(rendered(|out| push_fixed6(out, 1)), ">0.000001");
    assert_eq!(rendered(|out| push_fixed6(out, 12_345_678)), ">12.345678");
    assert_eq!(rendered(|out| push_fixed6(out, 1_000_000)), ">1.000000");
    assert_eq!(rendered(|out| push_fixed6(out, u64::MAX)), ">18446744073709.551615");
    assert_eq!(rendered(|out| push_signed_fixed6(out, -1_500_000)), ">-1.500000");
    assert_eq!(rendered(|out| push_signed_fixed6(out, 2_500_000)), ">2.500000");
    assert_eq!(rendered(|out| push_signed_fixed6(out, 0)), ">0.000000");
    assert_eq!(rendered(|out| push_signed_fixed6(out, i64::MIN)), ">-9223372036854.775808");
}

#[test]
fn fewer_places_round_half_up() {
    assert_eq!(rendered(|out| push_fixed3(out, 0)), ">0.000");
    assert_eq!(rendered(|out| push_fixed3(out, 1_499)), ">0.001");
    assert_eq!(rendered(|out| push_fixed3(out, 1_500)), ">0.002");
    assert_eq!(rendered(|out| push_fixed3(out, 200_000)), ">0.200");
    assert_eq!(rendered(|out| push_fixed3(out, 999_999_500)), ">1000.000");
    assert_eq!(rendered(|out| push_fixed3(out, u64::MAX)), ">18446744073709.552");
    assert_eq!(rendered(|out| push_fixed2(out, 100_000)), ">0.10");
    assert_eq!(rendered(|out| push_fixed2(out, 104_999)), ">0.10");
    assert_eq!(rendered(|out| push_fixed2(out, 105_000)), ">0.11");
    assert_eq!(rendered(|out| push_fixed2(out, 55_000_000)), ">55.00");
    assert_eq!(rendered(|out| push_fixed2(out, u64::MAX)), ">18446744073709.55");
    assert_eq!(rendered(|out| push_truth(out, true)), ">true");
    assert_eq!(rendered(|out| push_truth(out, false)), ">false");
}
