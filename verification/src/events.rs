//! Recorded messages as the normalizer reads them.

use vstd::prelude::*;

use crate::table;
use crate::table::Cell;
use crate::table::CellView;
use crate::table::ColumnField;
use crate::table::FieldView;
use crate::table::int_field;
use crate::table::text_cell;
use crate::table::text_field;
use crate::text;

verus! {

/// One line of a raw file.
#[derive(Clone, Debug)]
pub struct RawWsEventOwned {
    pub received_at: String,
    pub received_mts: i64,
    pub exchange: String,
    pub symbol: String,
    pub channel: String,
    pub connection_id: String,
    pub payload_text: Option<String>,
}

/// What every normalized row takes over from its message.
#[derive(Clone, Debug)]
pub struct NormalizedEventFields {
    pub exchange: String,
    pub symbol: String,
    pub received_at: String,
    pub received_mts: i64,
    pub connection_id: String,
    pub channel: String,
}

impl NormalizedEventFields {
    /// The fields are those of the message.
    pub open spec fn taken_from(self, event: RawWsEventOwned) -> bool {
        &&& self.exchange@ == event.exchange@
        &&& self.symbol@ == event.symbol@
        &&& self.received_at@ == event.received_at@
        &&& self.received_mts == event.received_mts
        &&& self.connection_id@ == event.connection_id@
        &&& self.channel@ == event.channel@
    }

    /// The fields of a message.
    pub fn from_raw(event: &RawWsEventOwned) -> (fields: NormalizedEventFields)
        ensures
            fields.taken_from(*event),
    {
        NormalizedEventFields {
            exchange: event.exchange.clone(),
            symbol: event.symbol.clone(),
            received_at: event.received_at.clone(),
            received_mts: event.received_mts,
            connection_id: event.connection_id.clone(),
            channel: event.channel.clone(),
        }
    }

    /// The cells of the fields.
    pub open spec fn cells(self) -> Seq<CellView> {
        seq![
            CellView::Text(self.exchange@),
            CellView::Text(self.symbol@),
            CellView::Text(self.received_at@),
            CellView::Int(self.received_mts),
            CellView::Text(self.connection_id@),
            CellView::Text(self.channel@),
        ]
    }

    /// The cells of the fields.
    pub fn base_cells(&self) -> (cells: Vec<Cell>)
        ensures
            table::cell_views(cells@) == self.cells(),
    {
        let cells: Vec<Cell> = vec![
            text_cell(self.exchange.as_str()),
            text_cell(self.symbol.as_str()),
            text_cell(self.received_at.as_str()),
            Cell::Int(self.received_mts),
            text_cell(self.connection_id.as_str()),
            text_cell(self.channel.as_str()),
        ];
        assert(table::cell_views(cells@) =~= self.cells());
        cells
    }
}

/// The columns of the fields that every normalized row has.
pub open spec fn base_schema() -> Seq<FieldView> {
    seq![
        table::text_column("exchange"@),
        table::text_column("symbol"@),
        table::text_column("received_at"@),
        table::int_column("received_mts"@),
        table::text_column("connection_id"@),
        table::text_column("channel"@),
    ]
}

/// The columns of the fields that every normalized row has.
pub fn base_event_fields() -> (fields: Vec<ColumnField>)
    ensures
        table::field_views(fields@) == base_schema(),
{
    let fields: Vec<ColumnField> = vec![
        text_field("exchange"),
        text_field("symbol"),
        text_field("received_at"),
        int_field("received_mts"),
        text_field("connection_id"),
        text_field("channel"),
    ];
    assert(table::field_views(fields@) =~= base_schema());
    fields
}

/// A line of a raw file holds no message: it is blank.
pub fn is_blank_line(line: &str) -> (yes: bool)
    ensures
        yes == (text::trimmed(line@).len() == 0),
{
    text::is_empty_text(text::trim(line).as_str())
}

/// The errors at which the reading of a raw file stops without failing: the file ends in the
/// middle of a compressed frame, or its tail is damaged.
pub open spec fn recoverable_read_error(unexpected_eof: bool, message: Seq<char>) -> bool {
    unexpected_eof || text::contains(message, "incomplete frame"@) || text::contains(
        message,
        "Data corruption detected"@,
    )
}

/// Whether the reading of a raw file stops without failing.
pub fn is_recoverable_zstd_read_error(unexpected_eof: bool, message: &str) -> (yes: bool)
    ensures
        yes == recoverable_read_error(unexpected_eof, message@),
{
    unexpected_eof || text::contains_text(message, "incomplete frame") || text::contains_text(
        message,
        "Data corruption detected",
    )
}

/// What a reader does with the next line of a raw file.
#[derive(Debug)]
pub enum LineStep {
    /// The line is passed over.
    Skip,
    /// The line is a message envelope.
    Decode,
    /// The rest of the file cannot be read, and is left out.
    Stop,
    /// The file cannot be read.
    Fail,
}

/// A line, or why it could not be read.
#[derive(Debug)]
pub enum RawLine {
    Line(String),
    Unreadable { unexpected_eof: bool, message: String },
}

/// What is to be done with the next line of a raw file.
pub open spec fn step_for(line: RawLine) -> LineStep {
    match line {
        RawLine::Line(contents) => if text::trimmed(contents@).len() == 0 {
            LineStep::Skip
        } else {
            LineStep::Decode
        },
        RawLine::Unreadable { unexpected_eof, message } => if recoverable_read_error(
            unexpected_eof,
            message@,
        ) {
            LineStep::Stop
        } else {
            LineStep::Fail
        },
    }
}

/// Decides what is to be done with the next line of a raw file.
pub fn line_step(line: &RawLine) -> (step: LineStep)
    ensures
        step == step_for(*line),
{
    match line {
        RawLine::Line(contents) => if is_blank_line(contents.as_str()) {
            LineStep::Skip
        } else {
            LineStep::Decode
        },
        RawLine::Unreadable { unexpected_eof, message } => if is_recoverable_zstd_read_error(
            *unexpected_eof,
            message.as_str(),
        ) {
            LineStep::Stop
        } else {
            LineStep::Fail
        },
    }
}

/// The text of a message; a message without text is not normalized.
pub fn take_payload_text(event: &mut RawWsEventOwned) -> (payload: Option<String>)
    ensures
        payload == old(event).payload_text,
        final(event).payload_text is None,
        final(event).received_at == old(event).received_at,
        final(event).received_mts == old(event).received_mts,
        final(event).exchange == old(event).exchange,
        final(event).symbol == old(event).symbol,
        final(event).channel == old(event).channel,
        final(event).connection_id == old(event).connection_id,
{
    event.payload_text.take()
}

} // verus!
