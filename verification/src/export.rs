//! What an export writes, and where.

use crate::error::{ConfigError, ExportError};
use crate::magnet::{magnet_prefix, magnet_uri, write_magnet, MagnetDescriptor, MagnetView};
use crate::selection::{Instance, SelectionModel};
use crate::text::{decode_percent, percent_decoded};
use std::path::PathBuf;
use vstd::prelude::*;
use vstd::string::*;

verus! {

/// `Clone` for `std::path::PathBuf`: the copy is the same path.
pub assume_specification[ <PathBuf as Clone>::clone ](path: &PathBuf) -> (copy: PathBuf)
    ensures
        copy == *path,
;

/// One file to write: its directory, its name in that directory, and what it
/// holds. Writing it replaces whatever the file held before.
#[derive(Clone, Debug, PartialEq, Eq)]
pub struct ExportPlan {
    pub directory: PathBuf,
    pub file_name: String,
    pub contents: String,
}

/// What an [`ExportPlan`] holds, as mathematical values.
pub struct ExportPlanView {
    pub directory: PathBuf,
    pub file_name: Seq<char>,
    pub contents: Seq<char>,
}

impl DeepView for ExportPlan {
    type V = ExportPlanView;

    open spec fn deep_view(&self) -> ExportPlanView {
        ExportPlanView {
            directory: self.directory,
            file_name: self.file_name@,
            contents: self.contents@,
        }
    }
}

/// The name of the exported file: the export name with `.magnet` behind it.
pub open spec fn file_name_of(export_name: Seq<char>) -> Seq<char> {
    export_name + ".magnet"@
}

/// The file that an export into `instance` writes.
pub open spec fn plan_of(
    instance: Instance,
    magnet: MagnetView,
    export_name: Seq<char>,
) -> ExportPlanView {
    ExportPlanView {
        directory: instance.path,
        file_name: file_name_of(export_name),
        contents: magnet_uri(magnet),
    }
}

/// What an export does with this highlight: with none it fails, otherwise it
/// writes the link into the highlighted destination.
pub open spec fn export_of(
    entries: Seq<Instance>,
    cursor: Option<usize>,
    magnet: MagnetView,
    export_name: Seq<char>,
) -> Option<ExportPlanView> {
    match cursor {
        Some(i) => Some(plan_of(entries[i as int], magnet, export_name)),
        None => None,
    }
}

/// The name under which a link is exported: the name the user asked for, or
/// else the link's display name, decoded. `None` where there is neither, or
/// where the display name does not decode.
pub open spec fn export_name_of(
    output_name: Option<Seq<char>>,
    magnet: MagnetView,
) -> Option<Seq<char>> {
    match output_name {
        Some(name) => Some(name),
        None => match magnet.display_name {
            Some(encoded) => percent_decoded(encoded),
            None => None,
        },
    }
}

/// Works out the export name once, before anything is shown.
pub fn resolve_export_name(
    output_name: &Option<String>,
    magnet: &MagnetDescriptor,
) -> (outcome: Result<String, ConfigError>)
    ensures
        match outcome {
            Ok(name) => export_name_of(output_name.deep_view(), magnet@) == Some(name@),
            Err(error) => {
                &&& export_name_of(output_name.deep_view(), magnet@) is None
                &&& error == ConfigError::MissingName <==> magnet@.display_name is None
            },
        },
        output_name is Some ==> outcome is Ok,
{
    match output_name {
        Some(name) => Ok(name.clone()),
        None => match &magnet.display_name {
            Some(encoded) => match decode_percent(encoded.as_str()) {
                Ok(name) => Ok(name),
                Err(_) => Err(ConfigError::UndecodableName),
            },
            None => Err(ConfigError::MissingName),
        },
    }
}

/// The name of the file to write for an export name.
pub fn export_file_name(export_name: &str) -> (file_name: String)
    ensures
        file_name@ == file_name_of(export_name@),
{
    String::from_str(export_name).concat(".magnet")
}

/// Plans the export of `magnet` into the highlighted destination: the file
/// `<export_name>.magnet` in that destination's directory, holding the link
/// as a magnet URI. Fails with `NoSelection`, and plans nothing, when no
/// destination is highlighted.
pub fn plan_export(
    model: &SelectionModel,
    magnet: &MagnetDescriptor,
    export_name: &str,
) -> (outcome: Result<ExportPlan, ExportError>)
    ensures
        match outcome {
            Ok(plan) => {
                &&& export_of(model.entries(), model.cursor(), magnet@, export_name@) == Some(
                    plan.deep_view(),
                )
                &&& plan.contents@.len() >= magnet_prefix().len()
                &&& plan.contents@.subrange(0, magnet_prefix().len() as int) == magnet_prefix()
            },
            Err(error) => model.cursor() is None && error.deep_view()
                == crate::error::ExportErrorView::NoSelection,
        },
        model.cursor() is None <==> outcome is Err,
{
    match model.selected_instance() {
        Some(instance) => Ok(
            ExportPlan {
                directory: instance.path.clone(),
                file_name: export_file_name(export_name),
                contents: write_magnet(magnet),
            },
        ),
        None => Err(ExportError::NoSelection),
    }
}

} // verus!
