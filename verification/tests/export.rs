use blackhole_importer::error::{ConfigError, ExportError};
use blackhole_importer::export::{
    export_file_name, plan_export, resolve_export_name, ExportPlan,
};
use blackhole_importer::magnet::MagnetDescriptor;
use blackhole_importer::selection::{Instance, SelectionModel};
use magnet_url::Magnet;
use std::path::PathBuf;

fn sintel() -> MagnetDescriptor {
    MagnetDescriptor {
        display_name: Some("Sintel".to_string()),
        hash_type: Some("btih".to_string()),
        exact_topic: Some("08ada5a7a6183aae1e09d831df6748d566095a10".to_string()),
        size: Some(1234567890),
        exact_source: None,
        trackers: vec![
            "udp%3A%2F%2Fexplodie.org%3A6969".to_string(),
            "wss%3A%2F%2Ftracker.btorrent.xyz".to_string(),
        ],
        keyword_topic: None,
        web_seed: Some("https%3A%2F%2Fwebtorrent.io%2Ftorrents%2F".to_string()),
        acceptable_source: None,
        manifest_topic: None,
    }
}

fn nameless() -> MagnetDescriptor {
    let mut magnet = sintel();
    magnet.display_name = None;
    magnet
}

fn model_at(path: &str) -> SelectionModel {
    let mut model = SelectionModel::new(vec![Instance {
        name: "A".to_string(),
        path: PathBuf::from(path),
    }]);
    model.select_next();
    model
}

#[test]
fn file_name_gets_the_magnet_extension() {
    assert_eq!(export_file_name("foo"), "foo.magnet");
    assert_eq!(export_file_name(""), ".magnet");
    assert_eq!(export_file_name("Example File"), "Example File.magnet");
}

#[test]
fn export_without_selection_is_refused() {
    let model = SelectionModel::new(vec![Instance {
        name: "A".to_string(),
        path: PathBuf::from("/tmp/instanceA"),
    }]);
    assert_eq!(plan_export(&model, &sintel(), "foo"), Err(ExportError::NoSelection));
}

#[test]
fn export_targets_the_file_in_the_selected_directory() {
    let model = model_at("/tmp/instanceA");
    let plan = plan_export(&model, &sintel(), "foo").unwrap();
    assert_eq!(plan.directory, PathBuf::from("/tmp/instanceA"));
    assert_eq!(plan.file_name, "foo.magnet");
    assert_eq!(plan.directory.join(&plan.file_name), PathBuf::from("/tmp/instanceA/foo.magnet"));
}

#[test]
fn export_contents_are_the_magnet_uri() {
    let model = model_at("/tmp/instanceA");
    let plan = plan_export(&model, &sintel(), "foo").unwrap();
    assert_eq!(
        plan.contents,
        "magnet:?xt=urn:btih:08ada5a7a6183aae1e09d831df6748d566095a10&dn=Sintel\
         &xl=1234567890&tr=udp%3A%2F%2Fexplodie.org%3A6969\
         &tr=wss%3A%2F%2Ftracker.btorrent.xyz&ws=https%3A%2F%2Fwebtorrent.io%2Ftorrents%2F"
    );
}

#[test]
fn export_contents_parse_back_to_the_same_link() {
    let model = model_at("/tmp/instanceA");
    let plan = plan_export(&model, &sintel(), "foo").unwrap();
    assert!(plan.contents.starts_with("magnet:?"));
    let parsed = Magnet::new(&plan.contents).unwrap();
    assert_eq!(parsed.dn, Some("Sintel".to_string()));
    assert_eq!(parsed.hash_type, Some("btih".to_string()));
    assert_eq!(parsed.xt, Some("08ada5a7a6183aae1e09d831df6748d566095a10".to_string()));
    assert_eq!(parsed.xl, Some(1234567890));
    assert_eq!(parsed.tr, sintel().trackers);
}

#[test]
fn export_twice_gives_identical_plans() {
    let model = model_at("/tmp/instanceA");
    let magnet = sintel();
    let first: ExportPlan = plan_export(&model, &magnet, "foo").unwrap();
    let second: ExportPlan = plan_export(&model, &magnet, "foo").unwrap();
    assert_eq!(first, second);
    assert_eq!(first.contents.as_bytes(), second.contents.as_bytes());
}

#[test]
fn export_of_a_bare_link_is_just_the_scheme() {
    let bare = MagnetDescriptor {
        display_name: None,
        hash_type: None,
        exact_topic: None,
        size: None,
        exact_source: None,
        trackers: Vec::new(),
        keyword_topic: None,
        web_seed: None,
        acceptable_source: None,
        manifest_topic: None,
    };
    let plan = plan_export(&model_at("/x"), &bare, "n").unwrap();
    assert_eq!(plan.contents, "magnet:?");
}

#[test]
fn given_output_name_wins() {
    let name = resolve_export_name(&Some("mine".to_string()), &sintel());
    assert_eq!(name, Ok("mine".to_string()));
    let name = resolve_export_name(&Some("mine".to_string()), &nameless());
    assert_eq!(name, Ok("mine".to_string()));
}

#[test]
fn display_name_is_decoded_for_the_export_name() {
    let mut magnet = sintel();
    magnet.display_name = Some("Example%20File".to_string());
    assert_eq!(resolve_export_name(&None, &magnet), Ok("Example File".to_string()));
}

#[test]
fn no_name_at_all_is_a_configuration_error() {
    assert_eq!(resolve_export_name(&None, &nameless()), Err(ConfigError::MissingName));
}

#[test]
fn undecodable_display_name_is_a_configuration_error() {
    let mut magnet = sintel();
    magnet.display_name = Some("%FF".to_string());
    assert_eq!(resolve_export_name(&None, &magnet), Err(ConfigError::UndecodableName));
    assert_eq!(resolve_export_name(&Some("x".to_string()), &magnet), Ok("x".to_string()));
}

#[test]
fn error_messages() {
    assert_eq!(ExportError::NoSelection.message(), "No instance selected");
    assert_eq!(
        ExportError::IoError("denied".to_string()).message(),
        "Could not write the file: denied"
    );
    assert_eq!(
        ConfigError::MissingName.message(),
        "No output file name provided and no name found in magnet link"
    );
    assert_eq!(
        ConfigError::UndecodableName.message(),
        "The display name is not valid percent-encoded text"
    );
}
