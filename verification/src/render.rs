//! From the state to what the screen shows, as plain text and flags.

use crate::error::{export_error_text, DecodeError, ExportError, ExportErrorView};
use crate::magnet::{MagnetDescriptor, MagnetView};
use crate::selection::{Instance, SelectionModel};
use crate::style::{Style, StyleConfig, StyleConfigView};
use crate::text::{decode_percent, percent_decoded, size_text, write_size};
use vstd::prelude::*;
use vstd::string::*;

verus! {

/// A run of text in one weight.
#[derive(Clone, Debug, PartialEq, Eq)]
pub struct Span {
    pub text: String,
    pub bold: bool,
}

/// What a [`Span`] holds, as mathematical values.
pub struct SpanView {
    pub text: Seq<char>,
    pub bold: bool,
}

impl DeepView for Span {
    type V = SpanView;

    open spec fn deep_view(&self) -> SpanView {
        SpanView { text: self.text@, bold: self.bold }
    }
}

/// One line of text, made of spans.
#[derive(Clone, Debug, PartialEq, Eq)]
pub struct Line {
    pub spans: Vec<Span>,
}

impl DeepView for Line {
    type V = Seq<SpanView>;

    open spec fn deep_view(&self) -> Seq<SpanView> {
        self.spans.deep_view()
    }
}

/// A span of bold text.
pub open spec fn bold(text: Seq<char>) -> SpanView {
    SpanView { text, bold: true }
}

/// A span of ordinary text.
pub open spec fn plain(text: Seq<char>) -> SpanView {
    SpanView { text, bold: false }
}

/// The line that shows the decoded display name.
pub open spec fn name_line(name: Seq<char>) -> Seq<SpanView> {
    seq![bold("Name: "@), plain(name)]
}

/// The line that shows the size.
pub open spec fn size_line(size: Seq<char>) -> Seq<SpanView> {
    seq![bold("Size: "@), plain(size)]
}

/// The heading above the trackers.
pub open spec fn trackers_heading() -> Seq<SpanView> {
    seq![bold("Tracker(s):"@)]
}

/// The line that shows one decoded tracker.
pub open spec fn tracker_line(tracker: Seq<char>) -> Seq<SpanView> {
    seq![plain("   -"@), plain(tracker)]
}

/// The lines for the trackers: nothing for none, otherwise the heading and
/// one line for each, in order.
pub open spec fn tracker_lines(trackers: Seq<Seq<char>>) -> Seq<Seq<SpanView>> {
    if trackers.len() == 0 {
        seq![]
    } else {
        seq![trackers_heading()] + Seq::new(trackers.len(), |i: int| tracker_line(trackers[i]))
    }
}

/// The info panel for a link whose fields are already decoded and
/// formatted: a name line if there is a name, a size line if there is a
/// size, then the trackers. A field that is absent contributes no line.
pub open spec fn info_lines(
    name: Option<Seq<char>>,
    size: Option<Seq<char>>,
    trackers: Seq<Seq<char>>,
) -> Seq<Seq<SpanView>> {
    (match name {
        Some(n) => seq![name_line(n)],
        None => seq![],
    }) + (match size {
        Some(s) => seq![size_line(s)],
        None => seq![],
    }) + tracker_lines(trackers)
}

fn span(text: String, bold: bool) -> (s: Span)
    ensures
        s.deep_view() == (SpanView { text: text@, bold }),
{
    Span { text, bold }
}

fn labelled_line(label: &str, label_bold: bool, value: String) -> (line: Line)
    ensures
        line.deep_view() == seq![
            SpanView { text: label@, bold: label_bold },
            plain(value@),
        ],
{
    let mut spans: Vec<Span> = Vec::new();
    spans.push(span(String::from_str(label), label_bold));
    spans.push(span(value, false));
    let line = Line { spans };
    assert(line.deep_view() =~= seq![
        SpanView { text: label@, bold: label_bold },
        plain(value@),
    ]);
    line
}

fn heading_line(label: &str) -> (line: Line)
    ensures
        line.deep_view() == seq![bold(label@)],
{
    let mut spans: Vec<Span> = Vec::new();
    spans.push(span(String::from_str(label), true));
    let line = Line { spans };
    assert(line.deep_view() =~= seq![bold(label@)]);
    line
}

/// Lays out the info panel from fields that are already decoded and
/// formatted.
pub fn assemble_info(
    name: Option<String>,
    size: Option<String>,
    trackers: Vec<String>,
) -> (lines: Vec<Line>)
    ensures
        lines.deep_view() == info_lines(
            name.deep_view(),
            size.deep_view(),
            trackers.deep_view(),
        ),
{
    let ghost shown_trackers = trackers.deep_view();
    let mut lines: Vec<Line> = Vec::new();
    if let Some(n) = name {
        lines.push(labelled_line("Name: ", true, n));
    }
    if let Some(s) = size {
        lines.push(labelled_line("Size: ", true, s));
    }
    let ghost head = lines.deep_view();
    assert(head =~= info_lines(name.deep_view(), size.deep_view(), seq![]));
    if trackers.len() > 0 {
        lines.push(heading_line("Tracker(s):"));
        let ghost start = lines.deep_view();
        assert(start =~= head + seq![trackers_heading()]);
        let mut i: usize = 0;
        while i < trackers.len()
            invariant
                i <= trackers.len(),
                shown_trackers == trackers.deep_view(),
                lines.deep_view() =~= start + Seq::new(
                    i as nat,
                    |k: int| tracker_line(shown_trackers[k]),
                ),
            decreases trackers.len() - i,
        {
            let tracker = trackers[i].clone();
            let ghost before = lines.deep_view();
            lines.push(labelled_line("   -", false, tracker));
            assert(lines.deep_view() =~= before.push(tracker_line(shown_trackers[i as int])));
            i = i + 1;
        }
        assert(lines.deep_view() =~= head + tracker_lines(shown_trackers));
    }
    lines
}

/// Whether percent-decoding `text` gives text.
pub open spec fn decodes(text: Seq<char>) -> bool {
    percent_decoded(text) is Some
}

/// The texts, each percent-decoded.
pub open spec fn decoded_each(texts: Seq<Seq<char>>) -> Seq<Seq<char>> {
    Seq::new(texts.len(), |i: int| percent_decoded(texts[i]).unwrap())
}

/// Whether `index` is the first of `texts` that does not decode.
pub open spec fn first_undecodable(texts: Seq<Seq<char>>, index: int) -> bool {
    &&& 0 <= index < texts.len()
    &&& !decodes(texts[index])
    &&& forall|j: int| 0 <= j < index ==> decodes(#[trigger] texts[j])
}

/// Whether the display name, if there is one, decodes.
pub open spec fn name_decodes(magnet: MagnetView) -> bool {
    match magnet.display_name {
        Some(name) => decodes(name),
        None => true,
    }
}

/// Whether `error` is what stops the info panel of `magnet` from being
/// built: the display name if it does not decode, otherwise the first
/// tracker that does not.
pub open spec fn stops_info(magnet: MagnetView, error: DecodeError) -> bool {
    match error {
        DecodeError::DisplayName => !name_decodes(magnet),
        DecodeError::Tracker(index) => name_decodes(magnet) && first_undecodable(
            magnet.trackers,
            index as int,
        ),
    }
}

/// Whether every percent-encoded field that the info panel shows decodes.
pub open spec fn info_decodes(magnet: MagnetView) -> bool {
    &&& name_decodes(magnet)
    &&& forall|i: int| 0 <= i < magnet.trackers.len() ==> decodes(#[trigger] magnet.trackers[i])
}

/// The info panel of a link: its display name decoded, its size with a unit,
/// its trackers decoded.
pub open spec fn info_of(magnet: MagnetView) -> Seq<Seq<SpanView>> {
    info_lines(
        match magnet.display_name {
            Some(name) => percent_decoded(name),
            None => None,
        },
        match magnet.size {
            Some(bytes) => Some(size_text(bytes)),
            None => None,
        },
        decoded_each(magnet.trackers),
    )
}

/// Percent-decodes every text, or reports the position of the first that
/// does not decode.
pub fn decode_each(texts: &Vec<String>) -> (outcome: Result<Vec<String>, usize>)
    ensures
        match outcome {
            Ok(plain) => {
                &&& forall|i: int| 0 <= i < texts.len() ==> decodes(#[trigger] texts.deep_view()[i])
                &&& plain.deep_view() == decoded_each(texts.deep_view())
            },
            Err(index) => first_undecodable(texts.deep_view(), index as int),
        },
{
    let ghost encoded = texts.deep_view();
    let mut plain: Vec<String> = Vec::new();
    let mut i: usize = 0;
    while i < texts.len()
        invariant
            i <= texts.len(),
            encoded == texts.deep_view(),
            plain.len() == i,
            forall|j: int| 0 <= j < i ==> decodes(#[trigger] encoded[j]),
            forall|j: int| 0 <= j < i ==> plain[j]@ == percent_decoded(encoded[j]).unwrap(),
        decreases texts.len() - i,
    {
        match decode_percent(texts[i].as_str()) {
            Ok(text) => {
                plain.push(text);
            },
            Err(_) => {
                return Err(i);
            },
        }
        i = i + 1;
    }
    assert(plain.deep_view() =~= decoded_each(encoded));
    Ok(plain)
}

/// Builds the info panel of a link: a "Name" line with the decoded display
/// name, a "Size" line with the size and its unit, and the decoded trackers
/// under their heading, each only if the link has it. A field that does not
/// decode stops the panel from being built and is reported instead.
pub fn build_info(magnet: &MagnetDescriptor) -> (outcome: Result<Vec<Line>, DecodeError>)
    ensures
        match outcome {
            Ok(lines) => info_decodes(magnet@) && lines.deep_view() == info_of(magnet@),
            Err(error) => stops_info(magnet@, error),
        },
        magnet@.display_name is None && magnet@.size is None && magnet@.trackers.len() == 0
            ==> outcome is Ok && outcome->Ok_0@.len() == 0,
{
    let name = match &magnet.display_name {
        Some(encoded) => match decode_percent(encoded.as_str()) {
            Ok(text) => Some(text),
            Err(_) => {
                return Err(DecodeError::DisplayName);
            },
        },
        None => None,
    };
    let size = match magnet.size {
        Some(bytes) => Some(write_size(bytes)),
        None => None,
    };
    match decode_each(&magnet.trackers) {
        Ok(trackers) => {
            let lines = assemble_info(name, size, trackers);
            proof {
                if magnet@.display_name is None && magnet@.size is None && magnet@.trackers.len()
                    == 0 {
                    assert(lines.deep_view().len() == 0);
                }
            }
            Ok(lines)
        },
        Err(index) => Err(DecodeError::Tracker(index)),
    }
}

/// One row of the destination list.
#[derive(Clone, Debug, PartialEq, Eq)]
pub struct DisplayRow {
    /// Text in front of the row: the highlight symbol on the highlighted
    /// row, nothing on the others.
    pub marker: String,
    /// The destination's name.
    pub text: String,
    pub style: Style,
    pub highlighted: bool,
}

/// What a [`DisplayRow`] holds, as mathematical values.
pub struct DisplayRowView {
    pub marker: Seq<char>,
    pub text: Seq<char>,
    pub style: Style,
    pub highlighted: bool,
}

impl DeepView for DisplayRow {
    type V = DisplayRowView;

    open spec fn deep_view(&self) -> DisplayRowView {
        DisplayRowView {
            marker: self.marker@,
            text: self.text@,
            style: self.style,
            highlighted: self.highlighted,
        }
    }
}

/// The row for one destination: its name, in the highlight style behind the
/// highlight symbol if it is the highlighted one, in the item style with no
/// marker otherwise.
pub open spec fn row_of(
    instance: Instance,
    highlighted: bool,
    style: StyleConfigView,
) -> DisplayRowView {
    DisplayRowView {
        marker: if highlighted {
            style.highlight_symbol
        } else {
            Seq::empty()
        },
        text: instance.name@,
        style: if highlighted {
            style.selected
        } else {
            style.item
        },
        highlighted,
    }
}

/// The rows of the list: one for each destination, in order, the one under
/// the cursor highlighted. With no cursor no row is highlighted.
pub open spec fn rows_of(
    entries: Seq<Instance>,
    cursor: Option<usize>,
    style: StyleConfigView,
) -> Seq<DisplayRowView> {
    Seq::new(entries.len(), |i: int| row_of(entries[i], cursor == Some(i as usize), style))
}

/// Maps a destination to its row.
pub fn display_row(
    instance: &Instance,
    highlighted: bool,
    style: &StyleConfig,
) -> (row: DisplayRow)
    ensures
        row.deep_view() == row_of(*instance, highlighted, style.deep_view()),
{
    if highlighted {
        DisplayRow {
            marker: style.highlight_symbol.clone(),
            text: instance.name.clone(),
            style: style.selected,
            highlighted: true,
        }
    } else {
        DisplayRow {
            marker: String::new(),
            text: instance.name.clone(),
            style: style.item,
            highlighted: false,
        }
    }
}

/// Lays out the destination list.
pub fn render_list(model: &SelectionModel, style: &StyleConfig) -> (rows: Vec<DisplayRow>)
    ensures
        rows.deep_view() == rows_of(model.entries(), model.cursor(), style.deep_view()),
{
    let instances = model.instances();
    let cursor = model.selected();
    let mut rows: Vec<DisplayRow> = Vec::new();
    let mut i: usize = 0;
    while i < instances.len()
        invariant
            i <= instances.len(),
            rows.len() == i,
            forall|k: int|
                0 <= k < i ==> (#[trigger] rows[k]).deep_view() == row_of(
                    instances[k],
                    cursor == Some(k as usize),
                    style.deep_view(),
                ),
        decreases instances.len() - i,
    {
        let highlighted = match cursor {
            Some(c) => c == i,
            None => false,
        };
        rows.push(display_row(&instances[i], highlighted, style));
        i = i + 1;
    }
    assert(rows.deep_view() =~= rows_of(model.entries(), model.cursor(), style.deep_view()));
    rows
}

/// Everything one frame shows.
#[derive(Clone, Debug, PartialEq, Eq)]
pub struct Screen {
    /// The line at the top.
    pub header: String,
    /// The line at the bottom.
    pub footer: String,
    /// Title of the destination list.
    pub list_title: String,
    /// The destination list.
    pub rows: Vec<DisplayRow>,
    /// Title of the info panel.
    pub info_title: String,
    /// The info panel.
    pub info: Vec<Line>,
    /// What went wrong with the last export, if anything did.
    pub status: Option<String>,
}

/// What a [`Screen`] holds, as mathematical values.
pub struct ScreenView {
    pub header: Seq<char>,
    pub footer: Seq<char>,
    pub list_title: Seq<char>,
    pub rows: Seq<DisplayRowView>,
    pub info_title: Seq<char>,
    pub info: Seq<Seq<SpanView>>,
    pub status: Option<Seq<char>>,
}

impl DeepView for Screen {
    type V = ScreenView;

    open spec fn deep_view(&self) -> ScreenView {
        ScreenView {
            header: self.header@,
            footer: self.footer@,
            list_title: self.list_title@,
            rows: self.rows.deep_view(),
            info_title: self.info_title@,
            info: self.info.deep_view(),
            status: self.status.deep_view(),
        }
    }
}

/// The line at the top of every frame.
pub open spec fn header_text() -> Seq<char> {
    "Select the instance to import to"@
}

/// The line at the bottom of every frame.
pub open spec fn footer_text() -> Seq<char> {
    "Use ↓↑ or 0..9 to move, ↵ to select, and q to quit"@
}

/// The title of the destination list.
pub open spec fn list_title_text() -> Seq<char> {
    "Instances"@
}

/// The title of the info panel.
pub open spec fn info_title_text() -> Seq<char> {
    "Torrent Info"@
}

/// The frame for a state: the fixed texts, the destination list with its
/// highlight, the info panel of the link, and the report of a failed export.
pub open spec fn screen_of(
    entries: Seq<Instance>,
    cursor: Option<usize>,
    magnet: MagnetView,
    status: Option<ExportErrorView>,
    style: StyleConfigView,
) -> ScreenView {
    ScreenView {
        header: header_text(),
        footer: footer_text(),
        list_title: list_title_text(),
        rows: rows_of(entries, cursor, style),
        info_title: info_title_text(),
        info: info_of(magnet),
        status: match status {
            Some(error) => Some(export_error_text(error)),
            None => None,
        },
    }
}

/// Lays out one frame. A field of the link that does not decode stops the
/// frame from being built and is reported instead.
pub fn render(
    model: &SelectionModel,
    magnet: &MagnetDescriptor,
    status: &Option<ExportError>,
    style: &StyleConfig,
) -> (outcome: Result<Screen, DecodeError>)
    ensures
        match outcome {
            Ok(screen) => info_decodes(magnet@) && screen.deep_view() == screen_of(
                model.entries(),
                model.cursor(),
                magnet@,
                status.deep_view(),
                style.deep_view(),
            ),
            Err(error) => stops_info(magnet@, error),
        },
{
    let info = match build_info(magnet) {
        Ok(lines) => lines,
        Err(error) => {
            return Err(error);
        },
    };
    let report = match status {
        Some(error) => Some(error.message()),
        None => None,
    };
    Ok(
        Screen {
            header: String::from_str("Select the instance to import to"),
            footer: String::from_str("Use ↓↑ or 0..9 to move, ↵ to select, and q to quit"),
            list_title: String::from_str("Instances"),
            rows: render_list(model, style),
            info_title: String::from_str("Torrent Info"),
            info,
            status: report,
        },
    )
}

} // verus!
