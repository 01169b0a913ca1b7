use classic_to_js::config::default_config_text;
use classic_to_js::config::Configuration;
use classic_to_js::config::InputSettings;
use classic_to_js::config::OutputSettings;
use classic_to_js::errors::GeneralError;
use classic_to_js::pipeline::Action;
use classic_to_js::pipeline::Event;
use classic_to_js::pipeline::Pipeline;
use classic_to_js::pipeline::Stage;

fn test_config(mode: u8, output_file: &str, website: &str) -> Configuration {
    Configuration {
        input_settings: InputSettings {
            input_folder: String::from("input"),
            input_file: String::from("level.dat"),
        },
        output_settings: OutputSettings {
            output_mode: mode,
            output_folder: String::from("output"),
            output_file: String::from(output_file),
            output_website: String::from(website),
        },
    }
}

/// Drives a fresh run up to the serialization stage, with every probe
/// finding what it looks for and both collaborator calls succeeding.
fn drive_to_serialize(p: &mut Pipeline, config: Configuration) {
    assert_eq!(Pipeline::initial_action(), Action::ProbeConfig);
    assert_eq!(p.step(Event::ConfigProbed(true)), Action::ReadConfig);
    let raw = b"[input-settings]\ninput-folder = \"input\"".to_vec();
    match p.step(Event::ConfigLoaded(raw)) {
        Action::ParseConfig(_) => {}
        other => panic!("expected a parse request, got {:?}", other),
    }
    assert_eq!(
        p.step(Event::ConfigParsed(Ok(config))),
        Action::ProbeInputDir(String::from("input"))
    );
    assert_eq!(
        p.step(Event::InputDirProbed(true)),
        Action::ProbeOutputDir(String::from("output"))
    );
    assert_eq!(
        p.step(Event::OutputDirProbed(true)),
        Action::ProbeInput(String::from("input/level.dat"))
    );
    assert_eq!(
        p.step(Event::InputProbed(true)),
        Action::LoadLevel(String::from("input/level.dat"))
    );
    assert_eq!(p.step(Event::LevelLoaded(Ok(()))), Action::ConvertLevel(1, 1));
    assert_eq!(p.step(Event::Converted(Ok(()))), Action::SerializeLevel);
    assert_eq!(p.stage, Stage::Serialize);
}

#[test]
fn bootstrap_writes_default_only_when_absent() {
    let mut p = Pipeline::new();
    let a = p.step(Event::ConfigProbed(false));
    assert_eq!(a, Action::WriteConfig(default_config_text()));
    assert_eq!(p.step(Event::ConfigWritten(Ok(()))), Action::ReadConfig);

    // A later run finds the file and goes straight to reading it: an
    // existing configuration is never overwritten.
    let mut p2 = Pipeline::new();
    assert_eq!(p2.step(Event::ConfigProbed(true)), Action::ReadConfig);
}

#[test]
fn config_key_spellings_parse_alike() {
    let hyphens =
        b"[input-settings]\ninput-folder = \"input\"\ninput-file = \"level.dat\"".to_vec();
    let underscores =
        b"[input_settings]\ninput_folder = \"input\"\ninput_file = \"level.dat\"".to_vec();

    let mut run1 = Pipeline::new();
    run1.step(Event::ConfigProbed(true));
    let a1 = run1.step(Event::ConfigLoaded(hyphens));
    let mut run2 = Pipeline::new();
    run2.step(Event::ConfigProbed(true));
    let a2 = run2.step(Event::ConfigLoaded(underscores));

    match (a1, a2) {
        (Action::ParseConfig(b1), Action::ParseConfig(b2)) => {
            assert_eq!(b1, b2);
            let t1: toml::Table = String::from_utf8(b1).unwrap().parse().unwrap();
            let t2: toml::Table = String::from_utf8(b2).unwrap().parse().unwrap();
            assert_eq!(t1, t2);
        }
        other => panic!("expected two parse requests, got {:?}", other),
    }
}

#[test]
fn existing_directories_are_not_recreated() {
    let mut p = Pipeline::new();
    p.step(Event::ConfigProbed(true));
    p.step(Event::ConfigLoaded(b"x".to_vec()));
    p.step(Event::ConfigParsed(Ok(test_config(0, "localStorage.js", "https://example.test"))));
    // Both probes find their folder: the run asks for no creation at all.
    assert_eq!(
        p.step(Event::InputDirProbed(true)),
        Action::ProbeOutputDir(String::from("output"))
    );
    assert_eq!(
        p.step(Event::OutputDirProbed(true)),
        Action::ProbeInput(String::from("input/level.dat"))
    );
}

#[test]
fn missing_directories_are_created_once() {
    let mut p = Pipeline::new();
    p.step(Event::ConfigProbed(true));
    p.step(Event::ConfigLoaded(b"x".to_vec()));
    p.step(Event::ConfigParsed(Ok(test_config(0, "localStorage.js", "https://example.test"))));
    assert_eq!(
        p.step(Event::InputDirProbed(false)),
        Action::CreateInputDir(String::from("input"))
    );
    assert_eq!(
        p.step(Event::InputDirCreated(Ok(()))),
        Action::ProbeOutputDir(String::from("output"))
    );
    assert_eq!(
        p.step(Event::OutputDirProbed(false)),
        Action::CreateOutputDir(String::from("output"))
    );
    assert_eq!(
        p.step(Event::OutputDirCreated(Ok(()))),
        Action::ProbeInput(String::from("input/level.dat"))
    );
}

#[test]
fn missing_input_fails_before_any_load() {
    let mut p = Pipeline::new();
    p.step(Event::ConfigProbed(true));
    p.step(Event::ConfigLoaded(b"x".to_vec()));
    p.step(Event::ConfigParsed(Ok(test_config(0, "localStorage.js", "https://example.test"))));
    p.step(Event::InputDirProbed(true));
    p.step(Event::OutputDirProbed(true));
    let a = p.step(Event::InputProbed(false));
    assert_eq!(
        a,
        Action::Report(GeneralError::MissingFile(String::from("input/level.dat")))
    );
    assert_eq!(p.stage, Stage::Failed);
}

#[test]
fn direct_mode_delivers_both_artifacts_unmodified() {
    let mut p = Pipeline::new();
    drive_to_serialize(&mut p, test_config(0, "localStorage.js", "https://example.test"));
    let a = p.step(Event::Serialized(
        String::from("{\"worldSeed\":1}"),
        String::from("{\"music\":false}"),
    ));
    assert_eq!(
        a,
        Action::WriteStorage {
            folder: String::from("output"),
            website: String::from("https://example.test"),
            payload: String::from("{\"worldSeed\":1}"),
            metadata: String::from("{\"music\":false}"),
        }
    );
    assert_eq!(p.step(Event::StorageWritten(Ok(()))), Action::Finish);
    assert_eq!(p.stage, Stage::Done);
}

#[test]
fn script_mode_delivers_both_artifacts_unmodified() {
    let mut p = Pipeline::new();
    drive_to_serialize(&mut p, test_config(1, "inject.js", "https://example.test"));
    let a = p.step(Event::Serialized(
        String::from("{\"worldSeed\":1}"),
        String::from("{\"music\":false}"),
    ));
    assert_eq!(
        a,
        Action::WriteScript {
            path: String::from("output/inject.js"),
            payload: String::from("{\"worldSeed\":1}"),
            metadata: String::from("{\"music\":false}"),
        }
    );
    assert_eq!(p.step(Event::ScriptWritten(Ok(()))), Action::Finish);
    assert_eq!(p.stage, Stage::Done);
}

#[test]
fn invalid_mode_reports_the_offending_tag() {
    let mut p = Pipeline::new();
    drive_to_serialize(&mut p, test_config(7, "localStorage.js", "https://example.test"));
    let a = p.step(Event::Serialized(String::from("a"), String::from("b")));
    assert_eq!(a, Action::Report(GeneralError::InvalidMode(7)));
    assert_eq!(p.stage, Stage::Failed);
}

#[test]
fn corrupt_save_fails_with_classic_error() {
    let mut p = Pipeline::new();
    p.step(Event::ConfigProbed(true));
    p.step(Event::ConfigLoaded(b"x".to_vec()));
    p.step(Event::ConfigParsed(Ok(test_config(0, "localStorage.js", "https://example.test"))));
    p.step(Event::InputDirProbed(true));
    p.step(Event::OutputDirProbed(true));
    p.step(Event::InputProbed(true));
    let a = p.step(Event::LevelLoaded(Err(String::from("unexpected tag"))));
    assert_eq!(
        a,
        Action::Report(GeneralError::ClassicError(String::from("unexpected tag")))
    );
    assert_eq!(p.stage, Stage::Failed);
}

#[test]
fn parse_failure_reports_toml_error() {
    let mut p = Pipeline::new();
    p.step(Event::ConfigProbed(true));
    p.step(Event::ConfigLoaded(b"not = valid = toml".to_vec()));
    let a = p.step(Event::ConfigParsed(Err(String::from("expected newline"))));
    assert_eq!(
        a,
        Action::Report(GeneralError::TOMLError(String::from("expected newline")))
    );
    assert_eq!(p.stage, Stage::Failed);
}

#[test]
fn config_write_failure_reports_file_error() {
    let mut p = Pipeline::new();
    p.step(Event::ConfigProbed(false));
    let a = p.step(Event::ConfigWritten(Err(String::from("permission denied"))));
    assert_eq!(
        a,
        Action::Report(GeneralError::FileError(String::from("permission denied")))
    );
    assert_eq!(p.stage, Stage::Failed);
}

#[test]
fn dir_create_failure_reports_file_error() {
    let mut p = Pipeline::new();
    p.step(Event::ConfigProbed(true));
    p.step(Event::ConfigLoaded(b"x".to_vec()));
    p.step(Event::ConfigParsed(Ok(test_config(0, "localStorage.js", "https://example.test"))));
    p.step(Event::InputDirProbed(false));
    let a = p.step(Event::InputDirCreated(Err(String::from("read-only file system"))));
    assert_eq!(
        a,
        Action::Report(GeneralError::FileError(String::from(
            "read-only file system"
        )))
    );
    assert_eq!(p.stage, Stage::Failed);
}

#[test]
fn conversion_failure_reports_conversion_error() {
    let mut p = Pipeline::new();
    p.step(Event::ConfigProbed(true));
    p.step(Event::ConfigLoaded(b"x".to_vec()));
    p.step(Event::ConfigParsed(Ok(test_config(0, "localStorage.js", "https://example.test"))));
    p.step(Event::InputDirProbed(true));
    p.step(Event::OutputDirProbed(true));
    p.step(Event::InputProbed(true));
    p.step(Event::LevelLoaded(Ok(())));
    let a = p.step(Event::Converted(Err(String::from("unsupported block"))));
    assert_eq!(
        a,
        Action::Report(GeneralError::ConversionError(String::from(
            "unsupported block"
        )))
    );
    assert_eq!(p.stage, Stage::Failed);
}

#[test]
fn storage_write_failure_reports_write_error() {
    let mut p = Pipeline::new();
    drive_to_serialize(&mut p, test_config(0, "localStorage.js", "https://example.test"));
    p.step(Event::Serialized(String::from("a"), String::from("b")));
    let a = p.step(Event::StorageWritten(Err(String::from("database is locked"))));
    assert_eq!(
        a,
        Action::Report(GeneralError::WriteError(String::from(
            "database is locked"
        )))
    );
    assert_eq!(p.stage, Stage::Failed);
}

#[test]
fn script_write_failure_reports_file_error() {
    let mut p = Pipeline::new();
    drive_to_serialize(&mut p, test_config(1, "inject.js", "https://example.test"));
    p.step(Event::Serialized(String::from("a"), String::from("b")));
    let a = p.step(Event::ScriptWritten(Err(String::from("disk full"))));
    assert_eq!(
        a,
        Action::Report(GeneralError::FileError(String::from("disk full")))
    );
    assert_eq!(p.stage, Stage::Failed);
}
