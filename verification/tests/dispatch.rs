use grepfuzz::cli::Cli;
use grepfuzz::detector_helpers::build_detectors;
use grepfuzz::dispatcher::{failure_text, run_kind, Action, Dispatcher, Event, RunKind, State};
use grepfuzz::grayscale::GrayscaleImage;
use grepfuzz::{process_image, Classification};

fn plain_cli() -> Cli {
    Cli {
        file: None,
        synthetic_checkerboard: false,
        synthetic_white: false,
        verbose: false,
        threshold: None,
        blur: true,
        sharp: false,
        ascii: false,
        passthrough: false,
        std_in_bytes: false,
        tenengrad_threshold: None,
        opencv_laplacian_threshold: None,
        config: None,
    }
}

fn classification(blurry: bool) -> Classification {
    let img = GrayscaleImage::new(3, 3, vec![10, 20, 30, 40, 50, 60, 70, 80, 200]).unwrap();
    let laplacian = if blurry { 9_711_111_112 } else { 9_711_111_111 };
    let detectors = build_detectors(laplacian, 132_711_111_112, None);
    let outcome = process_image(&img, 77, None, &detectors, &None).unwrap();
    assert_eq!(outcome.0, blurry);
    outcome
}

fn streaming(cli: &Cli) -> Dispatcher {
    let mut dispatcher = Dispatcher::new(cli);
    assert_eq!(dispatcher.current(), State::Idle);
    assert_eq!(dispatcher.step(Event::Begin(RunKind::StreamOfPaths)), Action::Nothing);
    assert_eq!(dispatcher.current(), State::StreamOfPaths);
    dispatcher
}

#[test]
fn run_kind_follows_the_options() {
    let mut cli = plain_cli();
    assert_eq!(run_kind(&cli, true), RunKind::Help);
    assert_eq!(run_kind(&cli, false), RunKind::StreamOfPaths);
    cli.passthrough = true;
    assert_eq!(run_kind(&cli, false), RunKind::Passthrough);
    assert_eq!(run_kind(&cli, true), RunKind::Help);
    cli.file = Some("a.png".to_string());
    assert_eq!(run_kind(&cli, true), RunKind::SingleImage);
    let mut cli = plain_cli();
    cli.std_in_bytes = true;
    assert_eq!(run_kind(&cli, false), RunKind::SingleImage);
    let mut cli = plain_cli();
    cli.synthetic_white = true;
    assert_eq!(run_kind(&cli, true), RunKind::SingleImage);
    let mut cli = plain_cli();
    cli.synthetic_checkerboard = true;
    assert_eq!(run_kind(&cli, false), RunKind::SingleImage);
}

#[test]
fn help_leaves_the_dispatcher_idle() {
    let mut dispatcher = Dispatcher::new(&plain_cli());
    assert_eq!(dispatcher.step(Event::Begin(RunKind::Help)), Action::ShowHelp);
    assert_eq!(dispatcher.current(), State::Idle);
}

#[test]
fn stream_asks_for_each_valid_path() {
    let mut dispatcher = streaming(&plain_cli());
    assert_eq!(
        dispatcher.step(Event::Chunk(b"a.png\0".to_vec())),
        Action::Load("a.png".to_string())
    );
    assert_eq!(dispatcher.step(Event::Chunk(b"last.png".to_vec())), Action::Load("last.png".to_string()));
    assert_eq!(dispatcher.current(), State::StreamOfPaths);
}

#[test]
fn stream_skips_bad_records_silently() {
    let mut dispatcher = streaming(&plain_cli());
    assert_eq!(dispatcher.step(Event::Chunk(b"a.png\0".to_vec())), Action::Load("a.png".to_string()));
    assert_eq!(dispatcher.step(Event::Chunk(vec![0xff, 0xfe, 0])), Action::Nothing);
    assert_eq!(dispatcher.step(Event::Chunk(vec![0])), Action::Nothing);
    assert_eq!(dispatcher.step(Event::Chunk(Vec::new())), Action::Nothing);
    assert_eq!(dispatcher.current(), State::StreamOfPaths);
    assert_eq!(dispatcher.step(Event::Chunk(b"b.png\0".to_vec())), Action::Load("b.png".to_string()));
}

#[test]
fn missing_file_is_diagnosed_and_the_stream_goes_on() {
    let mut dispatcher = streaming(&plain_cli());
    assert_eq!(
        dispatcher.step(Event::Chunk(b"missing.png\0".to_vec())),
        Action::Load("missing.png".to_string())
    );
    assert_eq!(
        dispatcher.step(Event::Failed {
            path: "missing.png".to_string(),
            reason: "No such file or directory (os error 2)".to_string(),
        }),
        Action::Diagnose(
            "Error processing missing.png: No such file or directory (os error 2)".to_string()
        )
    );
    assert_eq!(dispatcher.current(), State::StreamOfPaths);
    assert_eq!(
        dispatcher.step(Event::Chunk(b"there.png\0".to_vec())),
        Action::Load("there.png".to_string())
    );
    assert_eq!(
        dispatcher.step(Event::Classified { path: "there.png".to_string(), outcome: classification(true) }),
        Action::Write(b"there.png\0".to_vec())
    );
    assert_eq!(dispatcher.step(Event::End), Action::Nothing);
    assert_eq!(dispatcher.current(), State::Idle);
}

#[test]
fn blur_mode_passes_blurry_images_only() {
    let mut dispatcher = streaming(&plain_cli());
    assert_eq!(
        dispatcher.step(Event::Classified { path: "b.png".to_string(), outcome: classification(true) }),
        Action::Write(b"b.png\0".to_vec())
    );
    assert_eq!(
        dispatcher.step(Event::Classified { path: "s.png".to_string(), outcome: classification(false) }),
        Action::Nothing
    );
}

#[test]
fn sharp_mode_passes_sharp_images_only() {
    let mut cli = plain_cli();
    cli.blur = false;
    cli.sharp = true;
    let mut dispatcher = streaming(&cli);
    assert_eq!(
        dispatcher.step(Event::Classified { path: "b.png".to_string(), outcome: classification(true) }),
        Action::Nothing
    );
    assert_eq!(
        dispatcher.step(Event::Classified { path: "s.png".to_string(), outcome: classification(false) }),
        Action::Write(b"s.png\0".to_vec())
    );
}

#[test]
fn tabular_stream_writes_one_record_per_reading() {
    let mut cli = plain_cli();
    cli.ascii = true;
    let mut dispatcher = streaming(&cli);
    assert_eq!(
        dispatcher.step(Event::Classified { path: "b.png".to_string(), outcome: classification(true) }),
        Action::Write(
            b"b.png\t77\t3\t3\tLaplacian\t9711.111111\t9711.111\tBLURRY\n\
              b.png\t77\t3\t3\tTenengrad\t132711.111111\t132711.111\tBLURRY\n"
                .to_vec()
        )
    );
}

#[test]
fn passthrough_writes_each_chunk_unchanged() {
    let mut dispatcher = Dispatcher::new(&plain_cli());
    assert_eq!(dispatcher.step(Event::Begin(RunKind::Passthrough)), Action::Nothing);
    assert_eq!(dispatcher.current(), State::Passthrough);
    let input = vec![b'a', 0, 0xff, 0xfe, 0, 0, b'z'];
    let mut output = Vec::new();
    for chunk in grepfuzz::stream::split_chunks(&input) {
        match dispatcher.step(Event::Chunk(chunk)) {
            Action::Write(bytes) => output.extend_from_slice(&bytes),
            other => panic!("unexpected {:?}", other),
        }
    }
    assert_eq!(output, input);
    assert_eq!(dispatcher.step(Event::Chunk(Vec::new())), Action::Nothing);
    assert_eq!(dispatcher.step(Event::End), Action::Nothing);
    assert_eq!(dispatcher.current(), State::Idle);
}

#[test]
fn single_image_is_reported_once() {
    let mut dispatcher = Dispatcher::new(&plain_cli());
    assert_eq!(dispatcher.step(Event::Begin(RunKind::SingleImage)), Action::Nothing);
    assert_eq!(dispatcher.current(), State::SingleImage);
    assert_eq!(
        dispatcher.step(Event::Classified { path: "a.png".to_string(), outcome: classification(false) }),
        Action::Write(b"a.png\tfalse\n".to_vec())
    );
    assert_eq!(dispatcher.current(), State::Idle);

    let mut dispatcher = Dispatcher::new(&plain_cli());
    dispatcher.step(Event::Begin(RunKind::SingleImage));
    assert_eq!(
        dispatcher.step(Event::Failed { path: "a.png".to_string(), reason: "bad".to_string() }),
        Action::Diagnose("Error processing a.png: bad".to_string())
    );
    assert_eq!(dispatcher.current(), State::Idle);
}

#[test]
fn unexpected_events_change_nothing() {
    let mut dispatcher = Dispatcher::new(&plain_cli());
    assert_eq!(dispatcher.step(Event::Chunk(b"a\0".to_vec())), Action::Nothing);
    assert_eq!(dispatcher.step(Event::End), Action::Nothing);
    assert_eq!(dispatcher.current(), State::Idle);
    let mut dispatcher = streaming(&plain_cli());
    assert_eq!(dispatcher.step(Event::Begin(RunKind::Passthrough)), Action::Nothing);
    assert_eq!(dispatcher.current(), State::StreamOfPaths);
}

#[test]
fn failure_line_names_path_and_reason() {
    assert_eq!(failure_text("a b.png", "unsupported"), "Error processing a b.png: unsupported");
}
