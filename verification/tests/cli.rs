use spectral_bars::cli::{output_name, parse_args, Invocation, UsageError};

fn args(words: &[&str]) -> Vec<String> {
    words.iter().map(|w| w.to_string()).collect()
}

#[test]
fn input_alone_keeps_the_background() {
    assert_eq!(
        parse_args(&args(&["song.flac"])),
        Ok(Invocation { no_background: false, input_path: "song.flac".to_string() })
    );
}

#[test]
fn flag_before_input_switches_the_background_off() {
    assert_eq!(
        parse_args(&args(&["-n", "song.flac"])),
        Ok(Invocation { no_background: true, input_path: "song.flac".to_string() })
    );
}

#[test]
fn flag_after_input_is_ignored() {
    assert_eq!(
        parse_args(&args(&["song.flac", "-n"])),
        Ok(Invocation { no_background: false, input_path: "song.flac".to_string() })
    );
}

#[test]
fn second_flag_is_the_input() {
    assert_eq!(
        parse_args(&args(&["-n", "-n"])),
        Ok(Invocation { no_background: true, input_path: "-n".to_string() })
    );
}

#[test]
fn arguments_after_the_input_are_ignored() {
    assert_eq!(
        parse_args(&args(&["-n", "a.mp3", "b.mp3"])),
        Ok(Invocation { no_background: true, input_path: "a.mp3".to_string() })
    );
}

#[test]
fn no_argument_is_refused() {
    assert_eq!(parse_args(&args(&[])), Err(UsageError::MissingInput));
}

#[test]
fn flag_alone_is_refused() {
    assert_eq!(parse_args(&args(&["-n"])), Err(UsageError::MissingInput));
}

#[test]
fn other_dashed_words_are_inputs() {
    assert_eq!(
        parse_args(&args(&["-N"])),
        Ok(Invocation { no_background: false, input_path: "-N".to_string() })
    );
    assert_eq!(
        parse_args(&args(&["-nn", "x"])),
        Ok(Invocation { no_background: false, input_path: "-nn".to_string() })
    );
    assert_eq!(
        parse_args(&args(&[""])),
        Ok(Invocation { no_background: false, input_path: "".to_string() })
    );
}

#[test]
fn image_is_named_after_the_stem() {
    assert_eq!(output_name("song"), "song.png");
    assert_eq!(output_name(""), ".png");
    assert_eq!(output_name("a.b"), "a.b.png");
}
