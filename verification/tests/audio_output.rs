//! Which output is opened, and what is told of it.

use jamodio::audio_open::{
    asio_host_enabled, device_name, device_name_option, output_fallback_from, output_result,
    BuiltDuplex, DuplexOpening, HostKind, OpenAction, OpenEvent, OutputAttempt, OutputOpen,
};

#[test]
fn requested_missing_marks_fallback() {
    assert_eq!(
        output_fallback_from(Some("3:Casque débranché"), false),
        Some("3:Casque débranché".to_string()),
        "a missing output is reported, never fatal"
    );
}

#[test]
fn requested_found_no_fallback() {
    assert_eq!(output_fallback_from(Some("0:Haut-parleurs MacBook Pro"), true), None);
}

#[test]
fn default_requested_no_fallback() {
    assert_eq!(output_fallback_from(None, false), None);
    assert_eq!(output_fallback_from(None, true), None);
}

/// Answers every question of an opening, and notes what was asked.
fn run_opening(
    host: HostKind,
    input: Option<&str>,
    output: Option<&str>,
    build_output: bool,
    default_input: Option<&str>,
    answers: Vec<OpenEvent>,
) -> (Vec<String>, Result<BuiltDuplex, String>) {
    let owned = |s: Option<&str>| s.map(|t| t.to_string());
    let (mut opening, mut action) =
        DuplexOpening::start(host, owned(input), owned(output), build_output, owned(default_input), 64);
    let mut asked = Vec::new();
    for answer in answers {
        asked.push(format!("{action:?}"));
        action = opening.step(answer);
    }
    match action {
        OpenAction::Finished(r) => (asked, r.map_err(|e| e.to_text())),
        a => panic!("the opening is not over: {a:?}"),
    }
}

fn input_answers() -> Vec<OpenEvent> {
    vec![
        OpenEvent::InputFound { name: "Mic".into() },
        OpenEvent::InputBuilt { channels: 2, native_sr: 48_000, input_buf: Some(64) },
    ]
}

#[test]
fn the_output_is_built_before_the_input_starts() {
    let mut answers = input_answers();
    answers.extend([
        OpenEvent::OutputFound { name: "Casque".into() },
        OpenEvent::OutputBuilt { buffer: Some(128) },
        OpenEvent::Done,
        OpenEvent::Done,
        OpenEvent::Done,
    ]);
    let (asked, built) =
        run_opening(HostKind::CoreAudio, Some("1:Mic"), Some("2:Casque"), true, None, answers);
    assert_eq!(
        asked,
        [
            "FindInput { id: \"1:Mic\" }",
            "BuildInput",
            "FindOutput { id: \"2:Casque\" }",
            "BuildOutput",
            "StartOutput",
            "StartInput",
            "Settle { asio: false }",
        ]
    );
    let Ok(BuiltDuplex::Cpal { input, output }) = built else { panic!("both streams are up") };
    assert_eq!(input.resolved_id, "1:Mic");
    assert_eq!(input.name, "Mic");
    assert!(matches!(
        output,
        OutputOpen::Opened { buffer: Some(128), name, fallback_from: None } if name == "Casque"
    ));
}

#[test]
fn an_absent_output_falls_back_to_the_default() {
    let mut answers = input_answers();
    answers.extend([
        OpenEvent::Missing,
        OpenEvent::OutputFound { name: "Haut-parleurs".into() },
        OpenEvent::OutputBuilt { buffer: None },
        OpenEvent::Done,
        OpenEvent::Done,
        OpenEvent::Done,
    ]);
    let (asked, built) =
        run_opening(HostKind::Wasapi, None, Some("2:Casque"), true, Some("0:Mic"), answers);
    assert_eq!(asked[0], "FindInput { id: \"0:Mic\" }", "the default input is looked for");
    assert_eq!(asked[3], "FindDefaultOutput");
    let Ok(BuiltDuplex::Cpal { output, .. }) = built else { panic!("both streams are up") };
    assert!(matches!(
        output,
        OutputOpen::Opened { fallback_from: Some(id), .. } if id == "2:Casque"
    ));
}

#[test]
fn an_output_never_stops_a_capture() {
    let end = || vec![OpenEvent::Done, OpenEvent::Done];
    let failures = [
        (vec![OpenEvent::Missing, OpenEvent::Missing],
            "aucune sortie disponible (ni demandée ni défaut système)"),
        (vec![
            OpenEvent::OutputFound { name: "Casque".into() },
            OpenEvent::Failed("busy".into()),
        ], "busy"),
        (vec![
            OpenEvent::OutputFound { name: "Casque".into() },
            OpenEvent::OutputBuilt { buffer: None },
            OpenEvent::Failed("stuck".into()),
        ], "play: stuck"),
    ];
    for (failure, words) in failures {
        let mut answers = input_answers();
        answers.extend(failure);
        answers.extend(end());
        let (_, built) =
            run_opening(HostKind::CoreAudio, Some("1:Mic"), Some("2:Casque"), true, None, answers);
        let Ok(BuiltDuplex::Cpal { output, .. }) = built else { panic!("the input is up") };
        assert!(matches!(output, OutputOpen::BuildFailed(e) if e == words));
    }
}

#[test]
fn an_input_that_fails_ends_the_opening() {
    let (_, r) = run_opening(HostKind::CoreAudio, None, None, true, None, vec![]);
    assert_eq!(r.err().as_deref(), Some("input device introuvable : None"));
    let (_, r) =
        run_opening(HostKind::CoreAudio, Some("1:Mic"), None, true, None, vec![OpenEvent::Missing]);
    assert_eq!(r.err().as_deref(), Some("input device introuvable : Some(\"1:Mic\")"));
    let mut answers = input_answers();
    answers.push(OpenEvent::Failed("gone".into()));
    let (asked, r) = run_opening(HostKind::CoreAudio, Some("1:Mic"), None, false, None, answers);
    assert_eq!(asked[2], "StartInput", "no output is asked for");
    assert_eq!(r.err().as_deref(), Some("CPAL input play: gone"));
}

#[test]
fn asio_opens_one_object() {
    let (asked, built) = run_opening(
        HostKind::Asio,
        Some("3:Focusrite USB ASIO"),
        None,
        true,
        None,
        vec![OpenEvent::AsioOpened { channels_in: 4, native_sr: 48_000, buffer_size: 64 }],
    );
    assert_eq!(
        asked,
        ["OpenAsio { driver_name: \"Focusrite USB ASIO\", desired_frames: 64 }"]
    );
    assert!(matches!(
        built,
        Ok(BuiltDuplex::Asio { name, resolved_id, channels_in: 4, buffer_size: 64, .. })
            if name == "Focusrite USB ASIO" && resolved_id == "3:Focusrite USB ASIO"
    ));
    assert!(asio_host_enabled(HostKind::Asio) && !asio_host_enabled(HostKind::Wasapi));
}

#[test]
fn the_outcome_of_an_output_alone() {
    assert!(matches!(output_result(OutputAttempt::Missing), OutputOpen::NotFound));
    assert!(matches!(
        output_result(OutputAttempt::BuildFailed("x".into())),
        OutputOpen::BuildFailed(e) if e == "x"
    ));
    assert!(matches!(
        output_result(OutputAttempt::StartFailed("x".into())),
        OutputOpen::BuildFailed(e) if e == "play: x"
    ));
    assert!(matches!(
        output_result(OutputAttempt::Started { name: "n".into(), buffer: Some(1) }),
        OutputOpen::Opened { buffer: Some(1), fallback_from: None, .. }
    ));
}

#[test]
fn names_of_devices() {
    assert_eq!(device_name("2:Casque: avant"), "Casque: avant");
    assert_eq!(device_name("Casque"), "Casque");
    assert_eq!(device_name_option(&Some("2:Casque".into())), Some("Casque".into()));
    assert_eq!(device_name_option(&Some("Casque".into())), None);
    assert_eq!(device_name_option(&None), None);
}
