//! Deribit messages as rows: instruments, tickers, trades and instrument states.

use vstd::prelude::*;

use crate::deribit;
use crate::deribit::deribit_message_channel;
use crate::deribit::deribit_message_data;
use crate::events::RawWsEventOwned;
use crate::json;
use crate::json::Json;
use crate::json::JsonTree;
use crate::json::json_field_i64;
use crate::json::json_field_string;
use crate::json::json_pointer_string;
use crate::order;
use crate::order::text_before;
use crate::sides;
use crate::table;
use crate::table::Cell;
use crate::table::CellView;
use crate::table::ColumnField;
use crate::table::FieldView;
use crate::table::TableRow;
use crate::table::columns_of;
use crate::table::int_field;
use crate::table::opt_bool_cell;
use crate::table::opt_bool_field;
use crate::table::opt_int_cell;
use crate::table::opt_int_field;
use crate::table::opt_text_cell;
use crate::table::opt_text_field;
use crate::table::text_cell;
use crate::table::text_field;
use crate::wire;

verus! {

/// What Deribit says of an instrument.
#[derive(Clone, Debug)]
pub struct DeribitInstrumentMeta {
    pub instrument_name: String,
    pub kind: Option<String>,
    pub state: Option<String>,
    pub base_currency: Option<String>,
    pub quote_currency: Option<String>,
    pub settlement_currency: Option<String>,
    pub counter_currency: Option<String>,
    pub instrument_type: Option<String>,
    pub future_type: Option<String>,
    pub settlement_period: Option<String>,
    pub option_type: Option<String>,
    pub price_index: Option<String>,
    pub strike: Option<String>,
    pub contract_size: Option<String>,
    pub tick_size: Option<String>,
    pub expiration_timestamp: Option<i64>,
    pub creation_timestamp: Option<i64>,
    pub instrument_id: Option<i64>,
    pub is_active: Option<bool>,
}

impl DeribitInstrumentMeta {
    /// The fields are those of an instrument's description.
    pub open spec fn described_by(self, value: JsonTree) -> bool {
        &&& Some(self.instrument_name@) == json::string_of(value.field("instrument_name"@))
        &&& json::opt_text(self.kind) == json::scalar_of(value.field("kind"@))
        &&& json::opt_text(self.state) == json::scalar_of(value.field("state"@))
        &&& json::opt_text(self.base_currency) == json::scalar_of(value.field("base_currency"@))
        &&& json::opt_text(self.quote_currency) == json::scalar_of(value.field("quote_currency"@))
        &&& json::opt_text(self.settlement_currency) == json::scalar_of(value.field("settlement_currency"@))
        &&& json::opt_text(self.counter_currency) == json::scalar_of(value.field("counter_currency"@))
        &&& json::opt_text(self.instrument_type) == json::scalar_of(value.field("instrument_type"@))
        &&& json::opt_text(self.future_type) == json::scalar_of(value.field("future_type"@))
        &&& json::opt_text(self.settlement_period) == json::scalar_of(value.field("settlement_period"@))
        &&& json::opt_text(self.option_type) == json::scalar_of(value.field("option_type"@))
        &&& json::opt_text(self.price_index) == json::scalar_of(value.field("price_index"@))
        &&& json::opt_text(self.strike) == json::scalar_of(value.field("strike"@))
        &&& json::opt_text(self.contract_size) == json::scalar_of(value.field("contract_size"@))
        &&& json::opt_text(self.tick_size) == json::scalar_of(value.field("tick_size"@))
        &&& self.expiration_timestamp == json::i64_of(value.field("expiration_timestamp"@))
        &&& self.creation_timestamp == json::i64_of(value.field("creation_timestamp"@))
        &&& self.instrument_id == json::i64_of(value.field("instrument_id"@))
        &&& self.is_active == json::truth_of(value.field("is_active"@))
    }
}

/// The description of an instrument; there is one where the value names the instrument.
pub fn deribit_instrument_meta_from_value(value: &Json) -> (meta: Option<DeribitInstrumentMeta>)
    ensures
        meta is Some <==> json::string_of(value@.field("instrument_name"@)) is Some,
        meta is Some ==> meta->Some_0.described_by(value@),
{
    let instrument_name = match json::str_of(value.get("instrument_name")) {
        Some(name) => name.to_owned(),
        None => return None,
    };
    Some(
        DeribitInstrumentMeta {
            instrument_name,
            kind: json_field_string(value, "kind"),
            state: json_field_string(value, "state"),
            base_currency: json_field_string(value, "base_currency"),
            quote_currency: json_field_string(value, "quote_currency"),
            settlement_currency: json_field_string(value, "settlement_currency"),
            counter_currency: json_field_string(value, "counter_currency"),
            instrument_type: json_field_string(value, "instrument_type"),
            future_type: json_field_string(value, "future_type"),
            settlement_period: json_field_string(value, "settlement_period"),
            option_type: json_field_string(value, "option_type"),
            price_index: json_field_string(value, "price_index"),
            strike: json_field_string(value, "strike"),
            contract_size: json_field_string(value, "contract_size"),
            tick_size: json_field_string(value, "tick_size"),
            expiration_timestamp: json_field_i64(value, "expiration_timestamp"),
            creation_timestamp: json_field_i64(value, "creation_timestamp"),
            instrument_id: json_field_i64(value, "instrument_id"),
            is_active: json::bool_of(value.get("is_active")),
        },
    )
}

/// The instruments of a day by their names, in the order of the names.
#[derive(Clone, Debug)]
pub struct InstrumentTable {
    pub entries: Vec<DeribitInstrumentMeta>,
}

/// The entry at `i` describes the instrument `name`.
pub open spec fn names_at(
    entries: Seq<DeribitInstrumentMeta>,
    i: int,
    name: Seq<char>,
) -> bool {
    0 <= i < entries.len() && entries[i].instrument_name@ == name
}

impl InstrumentTable {
    /// The names increase, so that each instrument is described once.
    pub open spec fn well_formed(self) -> bool {
        forall|i: int, j: int|
            0 <= i < j < self.entries@.len() ==> order::text_less(
                self.entries@[i].instrument_name@,
                self.entries@[j].instrument_name@,
            )
    }

    /// What is known of an instrument.
    pub open spec fn lookup(self, name: Seq<char>) -> Option<DeribitInstrumentMeta> {
        if exists|i: int| names_at(self.entries@, i, name) {
            Some(self.entries@[choose|i: int| names_at(self.entries@, i, name)])
        } else {
            None
        }
    }

    proof fn lemma_lookup(self, i: int)
        requires
            self.well_formed(),
            0 <= i < self.entries@.len(),
        ensures
            self.lookup(self.entries@[i].instrument_name@) == Some(self.entries@[i]),
    {
        let name = self.entries@[i].instrument_name@;
        assert(names_at(self.entries@, i, name));
        let k = choose|k: int| names_at(self.entries@, k, name);
        if k != i {
            order::text_order_is_irreflexive(name);
            assert(order::text_less(name, name));
        }
    }

    /// No instrument is known.
    pub fn new() -> (instruments: InstrumentTable)
        ensures
            instruments.well_formed(),
            forall|name: Seq<char>| instruments.lookup(name) is None,
    {
        let instruments = InstrumentTable { entries: Vec::new() };
        assert forall|name: Seq<char>| instruments.lookup(name) is None by {
            assert(forall|i: int| !names_at(instruments.entries@, i, name));
        }
        instruments
    }

    /// The position of an instrument, or the one at which it would stand.
    fn position(&self, name: &str) -> (r: Result<usize, usize>)
        requires
            self.well_formed(),
        ensures
            match r {
                Ok(i) => i < self.entries@.len() && self.entries@[i as int].instrument_name@
                    == name@,
                Err(i) => i <= self.entries@.len() && (forall|j: int|
                    0 <= j < i ==> order::text_less(
                        (#[trigger] self.entries@[j]).instrument_name@,
                        name@,
                    )) && (forall|j: int|
                    i <= j < self.entries@.len() ==> order::text_less(
                        name@,
                        (#[trigger] self.entries@[j]).instrument_name@,
                    )),
            },
    {
        let mut low: usize = 0;
        let mut high: usize = self.entries.len();
        while low < high
            invariant
                low <= high <= self.entries@.len(),
                self.well_formed(),
                forall|j: int|
                    0 <= j < low ==> order::text_less(
                        (#[trigger] self.entries@[j]).instrument_name@,
                        name@,
                    ),
                forall|j: int|
                    high <= j < self.entries@.len() ==> order::text_less(
                        name@,
                        (#[trigger] self.entries@[j]).instrument_name@,
                    ),
            decreases high - low,
        {
            let middle: usize = low + (high - low) / 2;
            let here = self.entries[middle].instrument_name.as_str();
            if text_before(here, name) {
                assert forall|j: int| 0 <= j < middle + 1 implies order::text_less(
                    (#[trigger] self.entries@[j]).instrument_name@,
                    name@,
                ) by {
                    if j < middle {
                        order::text_order_is_transitive(
                            self.entries@[j].instrument_name@,
                            here@,
                            name@,
                        );
                    }
                }
                low = middle + 1;
            } else if text_before(name, here) {
                assert forall|j: int| middle <= j < self.entries@.len() implies order::text_less(
                    name@,
                    (#[trigger] self.entries@[j]).instrument_name@,
                ) by {
                    if j > middle {
                        order::text_order_is_transitive(
                            name@,
                            here@,
                            self.entries@[j].instrument_name@,
                        );
                    }
                }
                high = middle;
            } else {
                proof {
                    order::text_order_is_total(here@, name@);
                }
                return Ok(middle);
            }
        }
        Err(low)
    }

    /// What is known of an instrument.
    pub fn get(&self, name: &str) -> (meta: Option<&DeribitInstrumentMeta>)
        requires
            self.well_formed(),
        ensures
            match meta {
                Some(m) => self.lookup(name@) == Some(*m) && m.instrument_name@ == name@,
                None => self.lookup(name@) is None,
            },
    {
        match self.position(name) {
            Ok(i) => {
                proof {
                    self.lemma_lookup(i as int);
                }
                Some(&self.entries[i])
            },
            Err(i) => {
                proof {
                    order::text_order_is_irreflexive(name@);
                    assert forall|j: int| !names_at(self.entries@, j, name@) by {
                        if 0 <= j < i {
                            assert(order::text_less(self.entries@[j].instrument_name@, name@));
                        } else if j < self.entries@.len() && j >= 0 {
                            assert(order::text_less(name@, self.entries@[j].instrument_name@));
                        }
                    }
                }
                None
            },
        }
    }

    /// Notes what is known of an instrument; what was known of it before is replaced.
    pub fn insert(&mut self, meta: DeribitInstrumentMeta)
        requires
            old(self).well_formed(),
        ensures
            final(self).well_formed(),
            final(self).lookup(meta.instrument_name@) == Some(meta),
            forall|name: Seq<char>|
                name != meta.instrument_name@ ==> #[trigger] final(self).lookup(name) == old(
                    self,
                ).lookup(name),
    {
        let ghost before = *self;
        let ghost given = meta;
        let ghost key = meta.instrument_name@;
        match self.position(meta.instrument_name.as_str()) {
            Ok(i) => {
                self.entries[i] = meta;
                proof {
                    assert(self.entries@ =~= before.entries@.update(i as int, given));
                    self.lemma_lookup(i as int);
                    assert forall|name: Seq<char>| name != key implies #[trigger] self.lookup(name)
                        == before.lookup(name) by {
                        self.lemma_same_lookup(before, name, i as int, i as int);
                    }
                }
            },
            Err(i) => {
                self.entries.insert(i, meta);
                proof {
                    assert(self.entries@ =~= before.entries@.insert(i as int, given));
                    assert forall|a: int, b: int|
                        0 <= a < b < self.entries@.len() implies order::text_less(
                        self.entries@[a].instrument_name@,
                        self.entries@[b].instrument_name@,
                    ) by {
                        if a < i && b > i {
                            assert(order::text_less(
                                before.entries@[a].instrument_name@,
                                before.entries@[b - 1].instrument_name@,
                            ));
                        } else if a > i {
                            assert(order::text_less(
                                before.entries@[a - 1].instrument_name@,
                                before.entries@[b - 1].instrument_name@,
                            ));
                        } else if a == i {
                            assert(order::text_less(
                                key,
                                before.entries@[b - 1].instrument_name@,
                            ));
                        } else if b == i {
                            assert(order::text_less(before.entries@[a].instrument_name@, key));
                        } else {
                            assert(order::text_less(
                                before.entries@[a].instrument_name@,
                                before.entries@[b].instrument_name@,
                            ));
                        }
                    }
                    self.lemma_lookup(i as int);
                    assert forall|name: Seq<char>| name != key implies #[trigger] self.lookup(name)
                        == before.lookup(name) by {
                        self.lemma_same_lookup(before, name, i as int, i - 1);
                    }
                }
            },
        }
    }

    /// Where one entry was replaced at `at` (`skip == at`) or added there (`skip == at - 1`), every
    /// other instrument is found as before.
    proof fn lemma_same_lookup(self, before: InstrumentTable, name: Seq<char>, at: int, skip: int)
        requires
            self.well_formed(),
            before.well_formed(),
            0 <= at < self.entries@.len(),
            skip == at || skip == at - 1,
            self.entries@.len() - before.entries@.len() == at - skip,
            self.entries@[at].instrument_name@ != name,
            skip == at ==> before.entries@[at].instrument_name@ != name,
            forall|j: int| 0 <= j < at ==> #[trigger] self.entries@[j] == before.entries@[j],
            forall|j: int|
                at < j < self.entries@.len() ==> #[trigger] self.entries@[j] == before.entries@[j
                    - (at - skip)],
        ensures
            self.lookup(name) == before.lookup(name),
    {
        let shift = at - skip;
        if exists|i: int| names_at(self.entries@, i, name) {
            let i = choose|i: int| names_at(self.entries@, i, name);
            self.lemma_lookup(i);
            let k = if i < at {
                i
            } else {
                i - shift
            };
            assert(before.entries@[k] == self.entries@[i]);
            before.lemma_lookup(k);
        } else if exists|k: int| names_at(before.entries@, k, name) {
            let k = choose|k: int| names_at(before.entries@, k, name);
            let i = if k < at {
                k
            } else {
                k + shift
            };
            assert(self.entries@[i] == before.entries@[k]);
            assert(names_at(self.entries@, i, name));
        }
    }
}

/// A field of an instrument that joins its messages.
#[derive(Clone, Copy, Debug, PartialEq, Eq, Structural)]
pub enum MetaField {
    Kind,
    Strike,
    OptionType,
    SettlementPeriod,
}

/// A field of an instrument, where the instrument is known.
pub open spec fn meta_text(meta: Option<DeribitInstrumentMeta>, field: MetaField) -> Option<
    Seq<char>,
> {
    match meta {
        Some(m) => match field {
            MetaField::Kind => json::opt_text(m.kind),
            MetaField::Strike => json::opt_text(m.strike),
            MetaField::OptionType => json::opt_text(m.option_type),
            MetaField::SettlementPeriod => json::opt_text(m.settlement_period),
        },
        None => None,
    }
}

/// When an instrument expires, where it is known.
pub open spec fn meta_expiration(meta: Option<DeribitInstrumentMeta>) -> Option<i64> {
    match meta {
        Some(m) => m.expiration_timestamp,
        None => None,
    }
}

/// The instrument behind a reference.
pub open spec fn meta_of(meta: Option<&DeribitInstrumentMeta>) -> Option<DeribitInstrumentMeta> {
    match meta {
        Some(m) => Some(*m),
        None => None,
    }
}

fn copy_text(contents: &Option<String>) -> (r: Option<String>)
    ensures
        json::opt_text(r) == json::opt_text(*contents),
{
    match contents {
        Some(s) => Some(s.clone()),
        None => None,
    }
}

/// A field of an instrument, where the instrument is known.
pub fn meta_string(meta: Option<&DeribitInstrumentMeta>, field: MetaField) -> (r: Option<String>)
    ensures
        json::opt_text(r) == meta_text(meta_of(meta), field),
{
    match meta {
        Some(m) => match field {
            MetaField::Kind => copy_text(&m.kind),
            MetaField::Strike => copy_text(&m.strike),
            MetaField::OptionType => copy_text(&m.option_type),
            MetaField::SettlementPeriod => copy_text(&m.settlement_period),
        },
        None => None,
    }
}

/// When an instrument expires, where it is known.
pub fn meta_expiration_timestamp(meta: Option<&DeribitInstrumentMeta>) -> (r: Option<i64>)
    ensures
        r == meta_expiration(meta_of(meta)),
{
    match meta {
        Some(m) => m.expiration_timestamp,
        None => None,
    }
}

/// One instrument of a day, under the name of its partition.
#[derive(Clone, Copy, Debug)]
pub struct DeribitInstrumentRow<'a> {
    pub symbol: &'a str,
    pub meta: &'a DeribitInstrumentMeta,
}

impl<'a> TableRow for DeribitInstrumentRow<'a> {
    open spec fn schema() -> Seq<FieldView> {
        seq![
            table::text_column("exchange"@),
            table::text_column("symbol"@),
            table::text_column("instrument_name"@),
            table::opt_text_column("kind"@),
            table::opt_text_column("state"@),
            table::opt_text_column("base_currency"@),
            table::opt_text_column("quote_currency"@),
            table::opt_text_column("settlement_currency"@),
            table::opt_text_column("counter_currency"@),
            table::opt_text_column("instrument_type"@),
            table::opt_text_column("future_type"@),
            table::opt_text_column("settlement_period"@),
            table::opt_text_column("option_type"@),
            table::opt_text_column("price_index"@),
            table::opt_text_column("strike"@),
            table::opt_text_column("contract_size"@),
            table::opt_text_column("tick_size"@),
            table::opt_int_column("expiration_timestamp"@),
            table::opt_int_column("creation_timestamp"@),
            table::opt_int_column("instrument_id"@),
            table::opt_bool_column("is_active"@),
        ]
    }

    open spec fn cells(self) -> Seq<CellView> {
        seq![
            CellView::Text("deribit"@),
            CellView::Text(self.symbol@),
            CellView::Text(self.meta.instrument_name@),
            table::opt_text_view(self.meta.kind),
            table::opt_text_view(self.meta.state),
            table::opt_text_view(self.meta.base_currency),
            table::opt_text_view(self.meta.quote_currency),
            table::opt_text_view(self.meta.settlement_currency),
            table::opt_text_view(self.meta.counter_currency),
            table::opt_text_view(self.meta.instrument_type),
            table::opt_text_view(self.meta.future_type),
            table::opt_text_view(self.meta.settlement_period),
            table::opt_text_view(self.meta.option_type),
            table::opt_text_view(self.meta.price_index),
            table::opt_text_view(self.meta.strike),
            table::opt_text_view(self.meta.contract_size),
            table::opt_text_view(self.meta.tick_size),
            table::opt_int_view(self.meta.expiration_timestamp),
            table::opt_int_view(self.meta.creation_timestamp),
            table::opt_int_view(self.meta.instrument_id),
            table::opt_bool_view(self.meta.is_active),
        ]
    }

    proof fn cells_fit_schema(self) {
        let cells = self.cells();
        let schema = Self::schema();
        assert(cells.len() == 21 && schema.len() == 21);
        assert(table::cell_fits(cells[0], schema[0]));
        assert(table::cell_fits(cells[1], schema[1]));
        assert(table::cell_fits(cells[2], schema[2]));
        assert(table::cell_fits(cells[3], schema[3]));
        assert(table::cell_fits(cells[4], schema[4]));
        assert(table::cell_fits(cells[5], schema[5]));
        assert(table::cell_fits(cells[6], schema[6]));
        assert(table::cell_fits(cells[7], schema[7]));
        assert(table::cell_fits(cells[8], schema[8]));
        assert(table::cell_fits(cells[9], schema[9]));
        assert(table::cell_fits(cells[10], schema[10]));
        assert(table::cell_fits(cells[11], schema[11]));
        assert(table::cell_fits(cells[12], schema[12]));
        assert(table::cell_fits(cells[13], schema[13]));
        assert(table::cell_fits(cells[14], schema[14]));
        assert(table::cell_fits(cells[15], schema[15]));
        assert(table::cell_fits(cells[16], schema[16]));
        assert(table::cell_fits(cells[17], schema[17]));
        assert(table::cell_fits(cells[18], schema[18]));
        assert(table::cell_fits(cells[19], schema[19]));
        assert(table::cell_fits(cells[20], schema[20]));
    }

    fn fields() -> (fields: Vec<ColumnField>) {
        let fields: Vec<ColumnField> = vec![
            text_field("exchange"),
            text_field("symbol"),
            text_field("instrument_name"),
            opt_text_field("kind"),
            opt_text_field("state"),
            opt_text_field("base_currency"),
            opt_text_field("quote_currency"),
            opt_text_field("settlement_currency"),
            opt_text_field("counter_currency"),
            opt_text_field("instrument_type"),
            opt_text_field("future_type"),
            opt_text_field("settlement_period"),
            opt_text_field("option_type"),
            opt_text_field("price_index"),
            opt_text_field("strike"),
            opt_text_field("contract_size"),
            opt_text_field("tick_size"),
            opt_int_field("expiration_timestamp"),
            opt_int_field("creation_timestamp"),
            opt_int_field("instrument_id"),
            opt_bool_field("is_active"),
        ];
        assert(table::field_views(fields@) =~= Self::schema());
        fields
    }

    fn row_cells(&self) -> (cells: Vec<Cell>) {
        let cells: Vec<Cell> = vec![
            text_cell("deribit"),
            text_cell(self.symbol),
            text_cell(self.meta.instrument_name.as_str()),
            opt_text_cell(&self.meta.kind),
            opt_text_cell(&self.meta.state),
            opt_text_cell(&self.meta.base_currency),
            opt_text_cell(&self.meta.quote_currency),
            opt_text_cell(&self.meta.settlement_currency),
            opt_text_cell(&self.meta.counter_currency),
            opt_text_cell(&self.meta.instrument_type),
            opt_text_cell(&self.meta.future_type),
            opt_text_cell(&self.meta.settlement_period),
            opt_text_cell(&self.meta.option_type),
            opt_text_cell(&self.meta.price_index),
            opt_text_cell(&self.meta.strike),
            opt_text_cell(&self.meta.contract_size),
            opt_text_cell(&self.meta.tick_size),
            opt_int_cell(self.meta.expiration_timestamp),
            opt_int_cell(self.meta.creation_timestamp),
            opt_int_cell(self.meta.instrument_id),
            opt_bool_cell(self.meta.is_active),
        ];
        assert(table::cell_views(cells@) =~= self.cells());
        cells
    }
}

/// The columns of the Deribit instruments.
pub fn deribit_instrument_schema() -> (fields: Vec<ColumnField>)
    ensures
        table::field_views(fields@) == <DeribitInstrumentRow<'static> as TableRow>::schema(),
{
    <DeribitInstrumentRow<'static> as TableRow>::fields()
}

/// The columns of the instruments of a day, in the order of their names.
pub fn deribit_instrument_columns(symbol_name: &str, instruments: &InstrumentTable) -> (columns: Vec<
    Vec<Cell>,
>)
    ensures
        exists|rows: Seq<DeribitInstrumentRow<'_>>| #[trigger]
            instrument_rows(rows, symbol_name@, instruments.entries@) && table::holds_rows(
                columns@,
                rows,
            ),
{
    let mut rows: Vec<DeribitInstrumentRow<'_>> = Vec::new();
    let mut i: usize = 0;
    while i < instruments.entries.len()
        invariant
            i <= instruments.entries@.len(),
            rows@.len() == i,
            forall|j: int|
                0 <= j < i ==> (#[trigger] rows@[j]).symbol@ == symbol_name@ && *rows@[j].meta
                    == instruments.entries@[j],
        decreases instruments.entries@.len() - i,
    {
        rows.push(DeribitInstrumentRow { symbol: symbol_name, meta: &instruments.entries[i] });
        i = i + 1;
    }
    assert(instrument_rows(rows@, symbol_name@, instruments.entries@));
    columns_of(&rows)
}

/// There is a row for each instrument, in their order.
pub open spec fn instrument_rows(
    rows: Seq<DeribitInstrumentRow<'_>>,
    symbol_name: Seq<char>,
    entries: Seq<DeribitInstrumentMeta>,
) -> bool {
    &&& rows.len() == entries.len()
    &&& forall|i: int|
        0 <= i < rows.len() ==> (#[trigger] rows[i]).symbol@ == symbol_name && *rows[i].meta
            == entries[i]
}

/// The last value of a list that describes an instrument.
pub open spec fn last_description(list: Seq<JsonTree>, name: Seq<char>) -> Option<JsonTree>
    decreases list.len(),
{
    if list.len() == 0 {
        None
    } else if json::string_of(list.last().field("instrument_name"@)) == Some(name) {
        Some(list.last())
    } else {
        last_description(list.drop_last(), name)
    }
}

/// Behind a list of descriptions an instrument is known by the last one of it, and one without a
/// description as before.
pub open spec fn described_after(
    before: InstrumentTable,
    after: InstrumentTable,
    list: Seq<JsonTree>,
) -> bool {
    forall|name: Seq<char>|
        match last_description(list, name) {
            Some(value) => (#[trigger] after.lookup(name)) is Some
                && after.lookup(name)->Some_0.described_by(value),
            None => after.lookup(name) == before.lookup(name),
        }
}

/// The descriptions in a message of the control channel: those of its result.
pub open spec fn control_descriptions(message: JsonTree) -> Seq<JsonTree> {
    match json::array_of(message.field("result"@)) {
        Some(list) => list,
        None => Seq::empty(),
    }
}

/// The description in a message that announces an instrument.
pub open spec fn creation_descriptions(message: JsonTree) -> Seq<JsonTree> {
    match deribit::message_data(message) {
        Some(data) => seq![data],
        None => Seq::empty(),
    }
}

/// Notes the instruments that a message of the control channel lists.
pub fn collect_listed_instruments(message: &Json, instruments: &mut InstrumentTable)
    requires
        old(instruments).well_formed(),
    ensures
        final(instruments).well_formed(),
        described_after(*old(instruments), *final(instruments), control_descriptions(message@)),
{
    let list = match message.get("result") {
        Some(result) => result.as_array(),
        None => None,
    };
    let values = match list {
        Some(values) => values,
        None => return ,
    };
    let ghost trees = control_descriptions(message@);
    let mut i: usize = 0;
    while i < values.len()
        invariant
            i <= values@.len(),
            instruments.well_formed(),
            trees.len() == values@.len(),
            forall|j: int| 0 <= j < trees.len() ==> #[trigger] trees[j] == values@[j]@,
            described_after(*old(instruments), *instruments, trees.take(i as int)),
        decreases values@.len() - i,
    {
        let ghost before = *instruments;
        assert(trees.take(i + 1).drop_last() =~= trees.take(i as int));
        assert(trees.take(i + 1).last() == values@[i as int]@);
        if let Some(meta) = deribit_instrument_meta_from_value(&values[i]) {
            let ghost described = meta;
            instruments.insert(meta);
            assert forall|name: Seq<char>| match last_description(trees.take(i + 1), name) {
                Some(value) => (#[trigger] instruments.lookup(name)) is Some
                    && instruments.lookup(name)->Some_0.described_by(value),
                None => instruments.lookup(name) == old(instruments).lookup(name),
            } by {
                if name != described.instrument_name@ {
                    assert(instruments.lookup(name) == before.lookup(name));
                }
            }
        }
        i = i + 1;
    }
    assert(trees.take(i as int) =~= trees);
}

/// Notes the instrument that a message announces.
pub fn collect_created_instrument(message: &Json, instruments: &mut InstrumentTable)
    requires
        old(instruments).well_formed(),
    ensures
        final(instruments).well_formed(),
        described_after(*old(instruments), *final(instruments), creation_descriptions(message@)),
{
    let ghost trees = creation_descriptions(message@);
    if let Some(data) = deribit_message_data(message) {
        assert(trees.drop_last() =~= Seq::empty());
        if let Some(meta) = deribit_instrument_meta_from_value(data) {
            let ghost described = meta;
            let ghost before = *instruments;
            instruments.insert(meta);
            assert forall|name: Seq<char>| match last_description(trees, name) {
                Some(value) => (#[trigger] instruments.lookup(name)) is Some
                    && instruments.lookup(name)->Some_0.described_by(value),
                None => instruments.lookup(name) == before.lookup(name),
            } by {
                reveal_with_fuel(last_description, 2);
                if name != described.instrument_name@ {
                    assert(instruments.lookup(name) == before.lookup(name));
                }
            }
        } else {
            reveal_with_fuel(last_description, 2);
        }
    }
}

proof fn lemma_last_description(first: Seq<JsonTree>, second: Seq<JsonTree>, name: Seq<char>)
    ensures
        last_description(first + second, name) == match last_description(second, name) {
            Some(value) => Some(value),
            None => last_description(first, name),
        },
    decreases second.len(),
{
    if second.len() == 0 {
        assert(first + second =~= first);
    } else {
        assert((first + second).drop_last() =~= first + second.drop_last());
        lemma_last_description(first, second.drop_last(), name);
    }
}

/// Descriptions add up over a day: behind one list and then another, an instrument is known by its
/// last description in both, so that what is read later counts, that of the creation file behind
/// the control file too.
pub proof fn later_descriptions_count(
    start: InstrumentTable,
    between: InstrumentTable,
    end: InstrumentTable,
    first: Seq<JsonTree>,
    second: Seq<JsonTree>,
)
    requires
        described_after(start, between, first),
        described_after(between, end, second),
    ensures
        described_after(start, end, first + second),
{
    assert forall|name: Seq<char>| match last_description(first + second, name) {
        Some(value) => (#[trigger] end.lookup(name)) is Some
            && end.lookup(name)->Some_0.described_by(value),
        None => end.lookup(name) == start.lookup(name),
    } by {
        lemma_last_description(first, second, name);
        assert(last_description(second, name) is None ==> end.lookup(name) == between.lookup(name));
        assert(last_description(first, name) is None ==> between.lookup(name) == start.lookup(
            name,
        ));
    }
}

/// The instruments are keyed by their names: no two entries share one.
pub proof fn instrument_names_are_unique(instruments: InstrumentTable, i: int, j: int)
    requires
        instruments.well_formed(),
        0 <= i < j < instruments.entries@.len(),
    ensures
        instruments.entries@[i].instrument_name@ != instruments.entries@[j].instrument_name@,
{
    order::text_order_is_irreflexive(instruments.entries@[i].instrument_name@);
}

/// One ticker message.
#[derive(Clone, Debug)]
pub struct DeribitQuoteRow {
    pub exchange: String,
    pub symbol: String,
    pub received_at: String,
    pub received_mts: i64,
    pub connection_id: String,
    pub subscription_channel: String,
    pub instrument_name: String,
    pub kind: Option<String>,
    pub expiration_timestamp: Option<i64>,
    pub strike: Option<String>,
    pub option_type: Option<String>,
    pub settlement_period: Option<String>,
    pub ticker_timestamp: Option<i64>,
    pub ticker_type: Option<String>,
    pub state: Option<String>,
    pub best_bid_price: Option<String>,
    pub best_bid_amount: Option<String>,
    pub best_ask_price: Option<String>,
    pub best_ask_amount: Option<String>,
    pub index_price: Option<String>,
    pub mark_price: Option<String>,
    pub last_price: Option<String>,
    pub underlying_price: Option<String>,
    pub underlying_index: Option<String>,
    pub open_interest: Option<String>,
    pub settlement_price: Option<String>,
    pub estimated_delivery_price: Option<String>,
    pub min_price: Option<String>,
    pub max_price: Option<String>,
    pub bid_iv: Option<String>,
    pub ask_iv: Option<String>,
    pub mark_iv: Option<String>,
    pub funding_8h: Option<String>,
    pub current_funding: Option<String>,
    pub stats_volume: Option<String>,
    pub stats_volume_usd: Option<String>,
    pub stats_volume_notional: Option<String>,
    pub stats_high: Option<String>,
    pub stats_low: Option<String>,
    pub stats_price_change: Option<String>,
    pub delta: Option<String>,
    pub gamma: Option<String>,
    pub theta: Option<String>,
    pub vega: Option<String>,
    pub rho: Option<String>,
}

impl TableRow for DeribitQuoteRow {
    open spec fn schema() -> Seq<FieldView> {
        seq![
            table::text_column("exchange"@),
            table::text_column("symbol"@),
            table::text_column("received_at"@),
            table::int_column("received_mts"@),
            table::text_column("connection_id"@),
            table::text_column("subscription_channel"@),
            table::text_column("instrument_name"@),
            table::opt_text_column("kind"@),
            table::opt_int_column("expiration_timestamp"@),
            table::opt_text_column("strike"@),
            table::opt_text_column("option_type"@),
            table::opt_text_column("settlement_period"@),
            table::opt_int_column("ticker_timestamp"@),
            table::opt_text_column("ticker_type"@),
            table::opt_text_column("state"@),
            table::opt_text_column("best_bid_price"@),
            table::opt_text_column("best_bid_amount"@),
            table::opt_text_column("best_ask_price"@),
            table::opt_text_column("best_ask_amount"@),
            table::opt_text_column("index_price"@),
            table::opt_text_column("mark_price"@),
            table::opt_text_column("last_price"@),
            table::opt_text_column("underlying_price"@),
            table::opt_text_column("underlying_index"@),
            table::opt_text_column("open_interest"@),
            table::opt_text_column("settlement_price"@),
            table::opt_text_column("estimated_delivery_price"@),
            table::opt_text_column("min_price"@),
            table::opt_text_column("max_price"@),
            table::opt_text_column("bid_iv"@),
            table::opt_text_column("ask_iv"@),
            table::opt_text_column("mark_iv"@),
            table::opt_text_column("funding_8h"@),
            table::opt_text_column("current_funding"@),
            table::opt_text_column("stats_volume"@),
            table::opt_text_column("stats_volume_usd"@),
            table::opt_text_column("stats_volume_notional"@),
            table::opt_text_column("stats_high"@),
            table::opt_text_column("stats_low"@),
            table::opt_text_column("stats_price_change"@),
            table::opt_text_column("delta"@),
            table::opt_text_column("gamma"@),
            table::opt_text_column("theta"@),
            table::opt_text_column("vega"@),
            table::opt_text_column("rho"@),
        ]
    }

    open spec fn cells(self) -> Seq<CellView> {
        seq![
            CellView::Text(self.exchange@),
            CellView::Text(self.symbol@),
            CellView::Text(self.received_at@),
            CellView::Int(self.received_mts),
            CellView::Text(self.connection_id@),
            CellView::Text(self.subscription_channel@),
            CellView::Text(self.instrument_name@),
            table::opt_text_view(self.kind),
            table::opt_int_view(self.expiration_timestamp),
            table::opt_text_view(self.strike),
            table::opt_text_view(self.option_type),
            table::opt_text_view(self.settlement_period),
            table::opt_int_view(self.ticker_timestamp),
            table::opt_text_view(self.ticker_type),
            table::opt_text_view(self.state),
            table::opt_text_view(self.best_bid_price),
            table::opt_text_view(self.best_bid_amount),
            table::opt_text_view(self.best_ask_price),
            table::opt_text_view(self.best_ask_amount),
            table::opt_text_view(self.index_price),
            table::opt_text_view(self.mark_price),
            table::opt_text_view(self.last_price),
            table::opt_text_view(self.underlying_price),
            table::opt_text_view(self.underlying_index),
            table::opt_text_view(self.open_interest),
            table::opt_text_view(self.settlement_price),
            table::opt_text_view(self.estimated_delivery_price),
            table::opt_text_view(self.min_price),
            table::opt_text_view(self.max_price),
            table::opt_text_view(self.bid_iv),
            table::opt_text_view(self.ask_iv),
            table::opt_text_view(self.mark_iv),
            table::opt_text_view(self.funding_8h),
            table::opt_text_view(self.current_funding),
            table::opt_text_view(self.stats_volume),
            table::opt_text_view(self.stats_volume_usd),
            table::opt_text_view(self.stats_volume_notional),
            table::opt_text_view(self.stats_high),
            table::opt_text_view(self.stats_low),
            table::opt_text_view(self.stats_price_change),
            table::opt_text_view(self.delta),
            table::opt_text_view(self.gamma),
            table::opt_text_view(self.theta),
            table::opt_text_view(self.vega),
            table::opt_text_view(self.rho),
        ]
    }

    proof fn cells_fit_schema(self) {
        let cells = self.cells();
        let schema = Self::schema();
        assert(cells.len() == 45 && schema.len() == 45);
        assert(table::cell_fits(cells[0], schema[0]));
        assert(table::cell_fits(cells[1], schema[1]));
        assert(table::cell_fits(cells[2], schema[2]));
        assert(table::cell_fits(cells[3], schema[3]));
        assert(table::cell_fits(cells[4], schema[4]));
        assert(table::cell_fits(cells[5], schema[5]));
        assert(table::cell_fits(cells[6], schema[6]));
        assert(table::cell_fits(cells[7], schema[7]));
        assert(table::cell_fits(cells[8], schema[8]));
        assert(table::cell_fits(cells[9], schema[9]));
        assert(table::cell_fits(cells[10], schema[10]));
        assert(table::cell_fits(cells[11], schema[11]));
        assert(table::cell_fits(cells[12], schema[12]));
        assert(table::cell_fits(cells[13], schema[13]));
        assert(table::cell_fits(cells[14], schema[14]));
        assert(table::cell_fits(cells[15], schema[15]));
        assert(table::cell_fits(cells[16], schema[16]));
        assert(table::cell_fits(cells[17], schema[17]));
        assert(table::cell_fits(cells[18], schema[18]));
        assert(table::cell_fits(cells[19], schema[19]));
        assert(table::cell_fits(cells[20], schema[20]));
        assert(table::cell_fits(cells[21], schema[21]));
        assert(table::cell_fits(cells[22], schema[22]));
        assert(table::cell_fits(cells[23], schema[23]));
        assert(table::cell_fits(cells[24], schema[24]));
        assert(table::cell_fits(cells[25], schema[25]));
        assert(table::cell_fits(cells[26], schema[26]));
        assert(table::cell_fits(cells[27], schema[27]));
        assert(table::cell_fits(cells[28], schema[28]));
        assert(table::cell_fits(cells[29], schema[29]));
        assert(table::cell_fits(cells[30], schema[30]));
        assert(table::cell_fits(cells[31], schema[31]));
        assert(table::cell_fits(cells[32], schema[32]));
        assert(table::cell_fits(cells[33], schema[33]));
        assert(table::cell_fits(cells[34], schema[34]));
        assert(table::cell_fits(cells[35], schema[35]));
        assert(table::cell_fits(cells[36], schema[36]));
        assert(table::cell_fits(cells[37], schema[37]));
        assert(table::cell_fits(cells[38], schema[38]));
        assert(table::cell_fits(cells[39], schema[39]));
        assert(table::cell_fits(cells[40], schema[40]));
        assert(table::cell_fits(cells[41], schema[41]));
        assert(table::cell_fits(cells[42], schema[42]));
        assert(table::cell_fits(cells[43], schema[43]));
        assert(table::cell_fits(cells[44], schema[44]));
    }

    fn fields() -> (fields: Vec<ColumnField>) {
        let fields: Vec<ColumnField> = vec![
            text_field("exchange"),
            text_field("symbol"),
            text_field("received_at"),
            int_field("received_mts"),
            text_field("connection_id"),
            text_field("subscription_channel"),
            text_field("instrument_name"),
            opt_text_field("kind"),
            opt_int_field("expiration_timestamp"),
            opt_text_field("strike"),
            opt_text_field("option_type"),
            opt_text_field("settlement_period"),
            opt_int_field("ticker_timestamp"),
            opt_text_field("ticker_type"),
            opt_text_field("state"),
            opt_text_field("best_bid_price"),
            opt_text_field("best_bid_amount"),
            opt_text_field("best_ask_price"),
            opt_text_field("best_ask_amount"),
            opt_text_field("index_price"),
            opt_text_field("mark_price"),
            opt_text_field("last_price"),
            opt_text_field("underlying_price"),
            opt_text_field("underlying_index"),
            opt_text_field("open_interest"),
            opt_text_field("settlement_price"),
            opt_text_field("estimated_delivery_price"),
            opt_text_field("min_price"),
            opt_text_field("max_price"),
            opt_text_field("bid_iv"),
            opt_text_field("ask_iv"),
            opt_text_field("mark_iv"),
            opt_text_field("funding_8h"),
            opt_text_field("current_funding"),
            opt_text_field("stats_volume"),
            opt_text_field("stats_volume_usd"),
            opt_text_field("stats_volume_notional"),
            opt_text_field("stats_high"),
            opt_text_field("stats_low"),
            opt_text_field("stats_price_change"),
            opt_text_field("delta"),
            opt_text_field("gamma"),
            opt_text_field("theta"),
            opt_text_field("vega"),
            opt_text_field("rho"),
        ];
        assert(table::field_views(fields@) =~= Self::schema());
        fields
    }

    fn row_cells(&self) -> (cells: Vec<Cell>) {
        let cells: Vec<Cell> = vec![
            text_cell(self.exchange.as_str()),
            text_cell(self.symbol.as_str()),
            text_cell(self.received_at.as_str()),
            Cell::Int(self.received_mts),
            text_cell(self.connection_id.as_str()),
            text_cell(self.subscription_channel.as_str()),
            text_cell(self.instrument_name.as_str()),
            opt_text_cell(&self.kind),
            opt_int_cell(self.expiration_timestamp),
            opt_text_cell(&self.strike),
            opt_text_cell(&self.option_type),
            opt_text_cell(&self.settlement_period),
            opt_int_cell(self.ticker_timestamp),
            opt_text_cell(&self.ticker_type),
            opt_text_cell(&self.state),
            opt_text_cell(&self.best_bid_price),
            opt_text_cell(&self.best_bid_amount),
            opt_text_cell(&self.best_ask_price),
            opt_text_cell(&self.best_ask_amount),
            opt_text_cell(&self.index_price),
            opt_text_cell(&self.mark_price),
            opt_text_cell(&self.last_price),
            opt_text_cell(&self.underlying_price),
            opt_text_cell(&self.underlying_index),
            opt_text_cell(&self.open_interest),
            opt_text_cell(&self.settlement_price),
            opt_text_cell(&self.estimated_delivery_price),
            opt_text_cell(&self.min_price),
            opt_text_cell(&self.max_price),
            opt_text_cell(&self.bid_iv),
            opt_text_cell(&self.ask_iv),
            opt_text_cell(&self.mark_iv),
            opt_text_cell(&self.funding_8h),
            opt_text_cell(&self.current_funding),
            opt_text_cell(&self.stats_volume),
            opt_text_cell(&self.stats_volume_usd),
            opt_text_cell(&self.stats_volume_notional),
            opt_text_cell(&self.stats_high),
            opt_text_cell(&self.stats_low),
            opt_text_cell(&self.stats_price_change),
            opt_text_cell(&self.delta),
            opt_text_cell(&self.gamma),
            opt_text_cell(&self.theta),
            opt_text_cell(&self.vega),
            opt_text_cell(&self.rho),
        ];
        assert(table::cell_views(cells@) =~= self.cells());
        cells
    }
}

/// The columns of the Deribit tickers.
pub fn deribit_quote_schema() -> (fields: Vec<ColumnField>)
    ensures
        table::field_views(fields@) == <DeribitQuoteRow as TableRow>::schema(),
{
    <DeribitQuoteRow as TableRow>::fields()
}

/// The columns of a list of rows of the Deribit tickers.
pub fn deribit_quote_columns(rows: &Vec<DeribitQuoteRow>) -> (columns: Vec<Vec<Cell>>)
    ensures
        table::holds_rows(columns@, rows@),
{
    columns_of(rows)
}

/// The subscription channel of a message, or else the channel under which it was recorded.
pub open spec fn channel_or(message: JsonTree, recorded: Seq<char>) -> Seq<char> {
    match deribit::message_channel(message) {
        Some(channel) => channel,
        None => recorded,
    }
}

fn channel_or_recorded(message: &Json, event: &RawWsEventOwned) -> (channel: String)
    ensures
        channel@ == channel_or(message@, event.channel@),
{
    match deribit_message_channel(message) {
        Some(channel) => channel.to_owned(),
        None => event.channel.clone(),
    }
}

impl DeribitQuoteRow {
    /// The row says what the message and its ticker data say, joined with the instrument.
    pub open spec fn says(
        self,
        event: RawWsEventOwned,
        message: JsonTree,
        data: JsonTree,
        meta: Option<DeribitInstrumentMeta>,
    ) -> bool {
        &&& self.exchange@ == event.exchange@
        &&& self.symbol@ == event.symbol@
        &&& self.received_at@ == event.received_at@
        &&& self.received_mts == event.received_mts
        &&& self.connection_id@ == event.connection_id@
        &&& self.subscription_channel@ == channel_or(message, event.channel@)
        &&& Some(self.instrument_name@) == json::string_of(data.field("instrument_name"@))
        &&& json::opt_text(self.kind) == meta_text(meta, MetaField::Kind)
        &&& self.expiration_timestamp == meta_expiration(meta)
        &&& json::opt_text(self.strike) == meta_text(meta, MetaField::Strike)
        &&& json::opt_text(self.option_type) == meta_text(meta, MetaField::OptionType)
        &&& json::opt_text(self.settlement_period) == meta_text(meta, MetaField::SettlementPeriod)
        &&& self.ticker_timestamp == json::i64_of(data.field("timestamp"@))
        &&& json::opt_text(self.ticker_type) == json::scalar_of(data.field("type"@))
        &&& json::opt_text(self.state) == json::scalar_of(data.field("state"@))
        &&& json::opt_text(self.best_bid_price) == json::scalar_of(data.field("best_bid_price"@))
        &&& json::opt_text(self.best_bid_amount) == json::scalar_of(data.field("best_bid_amount"@))
        &&& json::opt_text(self.best_ask_price) == json::scalar_of(data.field("best_ask_price"@))
        &&& json::opt_text(self.best_ask_amount) == json::scalar_of(data.field("best_ask_amount"@))
        &&& json::opt_text(self.index_price) == json::scalar_of(data.field("index_price"@))
        &&& json::opt_text(self.mark_price) == json::scalar_of(data.field("mark_price"@))
        &&& json::opt_text(self.last_price) == json::scalar_of(data.field("last_price"@))
        &&& json::opt_text(self.underlying_price) == json::scalar_of(data.field("underlying_price"@))
        &&& json::opt_text(self.underlying_index) == json::scalar_of(data.field("underlying_index"@))
        &&& json::opt_text(self.open_interest) == json::scalar_of(data.field("open_interest"@))
        &&& json::opt_text(self.settlement_price) == json::scalar_of(data.field("settlement_price"@))
        &&& json::opt_text(self.estimated_delivery_price) == json::scalar_of(data.field("estimated_delivery_price"@))
        &&& json::opt_text(self.min_price) == json::scalar_of(data.field("min_price"@))
        &&& json::opt_text(self.max_price) == json::scalar_of(data.field("max_price"@))
        &&& json::opt_text(self.bid_iv) == json::scalar_of(data.field("bid_iv"@))
        &&& json::opt_text(self.ask_iv) == json::scalar_of(data.field("ask_iv"@))
        &&& json::opt_text(self.mark_iv) == json::scalar_of(data.field("mark_iv"@))
        &&& json::opt_text(self.funding_8h) == json::scalar_of(data.field("funding_8h"@))
        &&& json::opt_text(self.current_funding) == json::scalar_of(data.field("current_funding"@))
        &&& json::opt_text(self.stats_volume) == json::scalar_of(json::under(data.field("stats"@), "volume"@))
        &&& json::opt_text(self.stats_volume_usd) == json::scalar_of(json::under(data.field("stats"@), "volume_usd"@))
        &&& json::opt_text(self.stats_volume_notional) == json::scalar_of(json::under(data.field("stats"@), "volume_notional"@))
        &&& json::opt_text(self.stats_high) == json::scalar_of(json::under(data.field("stats"@), "high"@))
        &&& json::opt_text(self.stats_low) == json::scalar_of(json::under(data.field("stats"@), "low"@))
        &&& json::opt_text(self.stats_price_change) == json::scalar_of(json::under(data.field("stats"@), "price_change"@))
        &&& json::opt_text(self.delta) == json::scalar_of(json::under(data.field("greeks"@), "delta"@))
        &&& json::opt_text(self.gamma) == json::scalar_of(json::under(data.field("greeks"@), "gamma"@))
        &&& json::opt_text(self.theta) == json::scalar_of(json::under(data.field("greeks"@), "theta"@))
        &&& json::opt_text(self.vega) == json::scalar_of(json::under(data.field("greeks"@), "vega"@))
        &&& json::opt_text(self.rho) == json::scalar_of(json::under(data.field("greeks"@), "rho"@))
    }
}

/// The ticker row of a message; there is one where its data name an instrument.
pub fn deribit_quote_row_from_message(
    event: &RawWsEventOwned,
    message: &Json,
    instruments: &InstrumentTable,
) -> (row: Option<DeribitQuoteRow>)
    requires
        instruments.well_formed(),
    ensures
        match named_data(deribit::message_data(message@)) {
            None => row is None,
            Some((data, name)) => row is Some && row->Some_0.says(
                *event,
                message@,
                data,
                instruments.lookup(name),
            ),
        },
{
    let data = match deribit_message_data(message) {
        Some(data) => data,
        None => return None,
    };
    let instrument_name = match json::str_of(data.get("instrument_name")) {
        Some(name) => name.to_owned(),
        None => return None,
    };
    let meta = instruments.get(instrument_name.as_str());
    Some(
        DeribitQuoteRow {
            exchange: event.exchange.clone(),
            symbol: event.symbol.clone(),
            received_at: event.received_at.clone(),
            received_mts: event.received_mts,
            connection_id: event.connection_id.clone(),
            subscription_channel: channel_or_recorded(message, event),
            instrument_name,
            kind: meta_string(meta, MetaField::Kind),
            expiration_timestamp: meta_expiration_timestamp(meta),
            strike: meta_string(meta, MetaField::Strike),
            option_type: meta_string(meta, MetaField::OptionType),
            settlement_period: meta_string(meta, MetaField::SettlementPeriod),
            ticker_timestamp: json_field_i64(data, "timestamp"),
            ticker_type: json_field_string(data, "type"),
            state: json_field_string(data, "state"),
            best_bid_price: json_field_string(data, "best_bid_price"),
            best_bid_amount: json_field_string(data, "best_bid_amount"),
            best_ask_price: json_field_string(data, "best_ask_price"),
            best_ask_amount: json_field_string(data, "best_ask_amount"),
            index_price: json_field_string(data, "index_price"),
            mark_price: json_field_string(data, "mark_price"),
            last_price: json_field_string(data, "last_price"),
            underlying_price: json_field_string(data, "underlying_price"),
            underlying_index: json_field_string(data, "underlying_index"),
            open_interest: json_field_string(data, "open_interest"),
            settlement_price: json_field_string(data, "settlement_price"),
            estimated_delivery_price: json_field_string(data, "estimated_delivery_price"),
            min_price: json_field_string(data, "min_price"),
            max_price: json_field_string(data, "max_price"),
            bid_iv: json_field_string(data, "bid_iv"),
            ask_iv: json_field_string(data, "ask_iv"),
            mark_iv: json_field_string(data, "mark_iv"),
            funding_8h: json_field_string(data, "funding_8h"),
            current_funding: json_field_string(data, "current_funding"),
            stats_volume: json_pointer_string(data, "stats", "volume"),
            stats_volume_usd: json_pointer_string(data, "stats", "volume_usd"),
            stats_volume_notional: json_pointer_string(data, "stats", "volume_notional"),
            stats_high: json_pointer_string(data, "stats", "high"),
            stats_low: json_pointer_string(data, "stats", "low"),
            stats_price_change: json_pointer_string(data, "stats", "price_change"),
            delta: json_pointer_string(data, "greeks", "delta"),
            gamma: json_pointer_string(data, "greeks", "gamma"),
            theta: json_pointer_string(data, "greeks", "theta"),
            vega: json_pointer_string(data, "greeks", "vega"),
            rho: json_pointer_string(data, "greeks", "rho"),
        },
    )
}

/// Data that name an instrument, with the name.
pub open spec fn named_data(data: Option<JsonTree>) -> Option<(JsonTree, Seq<char>)> {
    match data {
        Some(d) => match json::string_of(d.field("instrument_name"@)) {
            Some(name) => Some((d, name)),
            None => None,
        },
        None => None,
    }
}

/// One trade.
#[derive(Clone, Debug)]
pub struct DeribitTradeRow {
    pub exchange: String,
    pub symbol: String,
    pub received_at: String,
    pub received_mts: i64,
    pub connection_id: String,
    pub subscription_channel: String,
    pub instrument_name: String,
    pub kind: Option<String>,
    pub expiration_timestamp: Option<i64>,
    pub strike: Option<String>,
    pub option_type: Option<String>,
    pub settlement_period: Option<String>,
    pub trade_timestamp: Option<i64>,
    pub trade_id: Option<String>,
    pub trade_seq: Option<i64>,
    pub direction: Option<String>,
    pub tick_direction: Option<i64>,
    pub price: Option<String>,
    pub amount: Option<String>,
    pub contracts: Option<String>,
    pub mark_price: Option<String>,
    pub index_price: Option<String>,
    pub iv: Option<String>,
    pub liquidation: Option<String>,
    pub block_trade_id: Option<String>,
    pub combo_id: Option<String>,
    pub combo_trade_id: Option<String>,
    pub block_rfq_id: Option<i64>,
}

impl TableRow for DeribitTradeRow {
    open spec fn schema() -> Seq<FieldView> {
        seq![
            table::text_column("exchange"@),
            table::text_column("symbol"@),
            table::text_column("received_at"@),
            table::int_column("received_mts"@),
            table::text_column("connection_id"@),
            table::text_column("subscription_channel"@),
            table::text_column("instrument_name"@),
            table::opt_text_column("kind"@),
            table::opt_int_column("expiration_timestamp"@),
            table::opt_text_column("strike"@),
            table::opt_text_column("option_type"@),
            table::opt_text_column("settlement_period"@),
            table::opt_int_column("trade_timestamp"@),
            table::opt_text_column("trade_id"@),
            table::opt_int_column("trade_seq"@),
            table::opt_text_column("direction"@),
            table::opt_int_column("tick_direction"@),
            table::opt_text_column("price"@),
            table::opt_text_column("amount"@),
            table::opt_text_column("contracts"@),
            table::opt_text_column("mark_price"@),
            table::opt_text_column("index_price"@),
            table::opt_text_column("iv"@),
            table::opt_text_column("liquidation"@),
            table::opt_text_column("block_trade_id"@),
            table::opt_text_column("combo_id"@),
            table::opt_text_column("combo_trade_id"@),
            table::opt_int_column("block_rfq_id"@),
        ]
    }

    open spec fn cells(self) -> Seq<CellView> {
        seq![
            CellView::Text(self.exchange@),
            CellView::Text(self.symbol@),
            CellView::Text(self.received_at@),
            CellView::Int(self.received_mts),
            CellView::Text(self.connection_id@),
            CellView::Text(self.subscription_channel@),
            CellView::Text(self.instrument_name@),
            table::opt_text_view(self.kind),
            table::opt_int_view(self.expiration_timestamp),
            table::opt_text_view(self.strike),
            table::opt_text_view(self.option_type),
            table::opt_text_view(self.settlement_period),
            table::opt_int_view(self.trade_timestamp),
            table::opt_text_view(self.trade_id),
            table::opt_int_view(self.trade_seq),
            table::opt_text_view(self.direction),
            table::opt_int_view(self.tick_direction),
            table::opt_text_view(self.price),
            table::opt_text_view(self.amount),
            table::opt_text_view(self.contracts),
            table::opt_text_view(self.mark_price),
            table::opt_text_view(self.index_price),
            table::opt_text_view(self.iv),
            table::opt_text_view(self.liquidation),
            table::opt_text_view(self.block_trade_id),
            table::opt_text_view(self.combo_id),
            table::opt_text_view(self.combo_trade_id),
            table::opt_int_view(self.block_rfq_id),
        ]
    }

    proof fn cells_fit_schema(self) {
        let cells = self.cells();
        let schema = Self::schema();
        assert(cells.len() == 28 && schema.len() == 28);
        assert(table::cell_fits(cells[0], schema[0]));
        assert(table::cell_fits(cells[1], schema[1]));
        assert(table::cell_fits(cells[2], schema[2]));
        assert(table::cell_fits(cells[3], schema[3]));
        assert(table::cell_fits(cells[4], schema[4]));
        assert(table::cell_fits(cells[5], schema[5]));
        assert(table::cell_fits(cells[6], schema[6]));
        assert(table::cell_fits(cells[7], schema[7]));
        assert(table::cell_fits(cells[8], schema[8]));
        assert(table::cell_fits(cells[9], schema[9]));
        assert(table::cell_fits(cells[10], schema[10]));
        assert(table::cell_fits(cells[11], schema[11]));
        assert(table::cell_fits(cells[12], schema[12]));
        assert(table::cell_fits(cells[13], schema[13]));
        assert(table::cell_fits(cells[14], schema[14]));
        assert(table::cell_fits(cells[15], schema[15]));
        assert(table::cell_fits(cells[16], schema[16]));
        assert(table::cell_fits(cells[17], schema[17]));
        assert(table::cell_fits(cells[18], schema[18]));
        assert(table::cell_fits(cells[19], schema[19]));
        assert(table::cell_fits(cells[20], schema[20]));
        assert(table::cell_fits(cells[21], schema[21]));
        assert(table::cell_fits(cells[22], schema[22]));
        assert(table::cell_fits(cells[23], schema[23]));
        assert(table::cell_fits(cells[24], schema[24]));
        assert(table::cell_fits(cells[25], schema[25]));
        assert(table::cell_fits(cells[26], schema[26]));
        assert(table::cell_fits(cells[27], schema[27]));
    }

    fn fields() -> (fields: Vec<ColumnField>) {
        let fields: Vec<ColumnField> = vec![
            text_field("exchange"),
            text_field("symbol"),
            text_field("received_at"),
            int_field("received_mts"),
            text_field("connection_id"),
            text_field("subscription_channel"),
            text_field("instrument_name"),
            opt_text_field("kind"),
            opt_int_field("expiration_timestamp"),
            opt_text_field("strike"),
            opt_text_field("option_type"),
            opt_text_field("settlement_period"),
            opt_int_field("trade_timestamp"),
            opt_text_field("trade_id"),
            opt_int_field("trade_seq"),
            opt_text_field("direction"),
            opt_int_field("tick_direction"),
            opt_text_field("price"),
            opt_text_field("amount"),
            opt_text_field("contracts"),
            opt_text_field("mark_price"),
            opt_text_field("index_price"),
            opt_text_field("iv"),
            opt_text_field("liquidation"),
            opt_text_field("block_trade_id"),
            opt_text_field("combo_id"),
            opt_text_field("combo_trade_id"),
            opt_int_field("block_rfq_id"),
        ];
        assert(table::field_views(fields@) =~= Self::schema());
        fields
    }

    fn row_cells(&self) -> (cells: Vec<Cell>) {
        let cells: Vec<Cell> = vec![
            text_cell(self.exchange.as_str()),
            text_cell(self.symbol.as_str()),
            text_cell(self.received_at.as_str()),
            Cell::Int(self.received_mts),
            text_cell(self.connection_id.as_str()),
            text_cell(self.subscription_channel.as_str()),
            text_cell(self.instrument_name.as_str()),
            opt_text_cell(&self.kind),
            opt_int_cell(self.expiration_timestamp),
            opt_text_cell(&self.strike),
            opt_text_cell(&self.option_type),
            opt_text_cell(&self.settlement_period),
            opt_int_cell(self.trade_timestamp),
            opt_text_cell(&self.trade_id),
            opt_int_cell(self.trade_seq),
            opt_text_cell(&self.direction),
            opt_int_cell(self.tick_direction),
            opt_text_cell(&self.price),
            opt_text_cell(&self.amount),
            opt_text_cell(&self.contracts),
            opt_text_cell(&self.mark_price),
            opt_text_cell(&self.index_price),
            opt_text_cell(&self.iv),
            opt_text_cell(&self.liquidation),
            opt_text_cell(&self.block_trade_id),
            opt_text_cell(&self.combo_id),
            opt_text_cell(&self.combo_trade_id),
            opt_int_cell(self.block_rfq_id),
        ];
        assert(table::cell_views(cells@) =~= self.cells());
        cells
    }
}

/// The columns of the Deribit trades.
pub fn deribit_trade_schema() -> (fields: Vec<ColumnField>)
    ensures
        table::field_views(fields@) == <DeribitTradeRow as TableRow>::schema(),
{
    <DeribitTradeRow as TableRow>::fields()
}

/// The columns of a list of rows of the Deribit trades.
pub fn deribit_trade_columns(rows: &Vec<DeribitTradeRow>) -> (columns: Vec<Vec<Cell>>)
    ensures
        table::holds_rows(columns@, rows@),
{
    columns_of(rows)
}

impl DeribitTradeRow {
    /// The row says what the message and one of its trades say, joined with the instrument. The
    /// direction is the canonical word for the side.
    pub open spec fn says(
        self,
        event: RawWsEventOwned,
        message: JsonTree,
        trade: JsonTree,
        meta: Option<DeribitInstrumentMeta>,
    ) -> bool {
        &&& self.exchange@ == event.exchange@
        &&& self.symbol@ == event.symbol@
        &&& self.received_at@ == event.received_at@
        &&& self.received_mts == event.received_mts
        &&& self.connection_id@ == event.connection_id@
        &&& self.subscription_channel@ == channel_or(message, event.channel@)
        &&& Some(self.instrument_name@) == json::string_of(trade.field("instrument_name"@))
        &&& json::opt_text(self.kind) == meta_text(meta, MetaField::Kind)
        &&& self.expiration_timestamp == meta_expiration(meta)
        &&& json::opt_text(self.strike) == meta_text(meta, MetaField::Strike)
        &&& json::opt_text(self.option_type) == meta_text(meta, MetaField::OptionType)
        &&& json::opt_text(self.settlement_period) == meta_text(meta, MetaField::SettlementPeriod)
        &&& self.trade_timestamp == json::i64_of(trade.field("timestamp"@))
        &&& json::opt_text(self.trade_id) == json::scalar_of(trade.field("trade_id"@))
        &&& self.trade_seq == json::i64_of(trade.field("trade_seq"@))
        &&& json::opt_text(self.direction) == sides::canonical_of(
            json::scalar_of(trade.field("direction"@)),
        )
        &&& self.tick_direction == json::i64_of(trade.field("tick_direction"@))
        &&& json::opt_text(self.price) == json::scalar_of(trade.field("price"@))
        &&& json::opt_text(self.amount) == json::scalar_of(trade.field("amount"@))
        &&& json::opt_text(self.contracts) == json::scalar_of(trade.field("contracts"@))
        &&& json::opt_text(self.mark_price) == json::scalar_of(trade.field("mark_price"@))
        &&& json::opt_text(self.index_price) == json::scalar_of(trade.field("index_price"@))
        &&& json::opt_text(self.iv) == json::scalar_of(trade.field("iv"@))
        &&& json::opt_text(self.liquidation) == json::scalar_of(trade.field("liquidation"@))
        &&& json::opt_text(self.block_trade_id) == json::scalar_of(trade.field("block_trade_id"@))
        &&& json::opt_text(self.combo_id) == json::scalar_of(trade.field("combo_id"@))
        &&& json::opt_text(self.combo_trade_id) == json::scalar_of(trade.field("combo_trade_id"@))
        &&& self.block_rfq_id == json::i64_of(trade.field("block_rfq_id"@))
    }
}

/// The row of a trade; there is one where the trade names an instrument.
pub fn deribit_trade_row_from_value(
    event: &RawWsEventOwned,
    message: &Json,
    trade: &Json,
    instruments: &InstrumentTable,
) -> (row: Option<DeribitTradeRow>)
    requires
        instruments.well_formed(),
    ensures
        match json::string_of(trade@.field("instrument_name"@)) {
            None => row is None,
            Some(name) => row is Some && row->Some_0.says(
                *event,
                message@,
                trade@,
                instruments.lookup(name),
            ),
        },
{
    let instrument_name = match json::str_of(trade.get("instrument_name")) {
        Some(name) => name.to_owned(),
        None => return None,
    };
    let meta = instruments.get(instrument_name.as_str());
    let side = json_field_string(trade, "direction");
    Some(
        DeribitTradeRow {
            exchange: event.exchange.clone(),
            symbol: event.symbol.clone(),
            received_at: event.received_at.clone(),
            received_mts: event.received_mts,
            connection_id: event.connection_id.clone(),
            subscription_channel: channel_or_recorded(message, event),
            instrument_name,
            kind: meta_string(meta, MetaField::Kind),
            expiration_timestamp: meta_expiration_timestamp(meta),
            strike: meta_string(meta, MetaField::Strike),
            option_type: meta_string(meta, MetaField::OptionType),
            settlement_period: meta_string(meta, MetaField::SettlementPeriod),
            trade_timestamp: json_field_i64(trade, "timestamp"),
            trade_id: json_field_string(trade, "trade_id"),
            trade_seq: json_field_i64(trade, "trade_seq"),
            direction: sides::canonical_side_of(&side),
            tick_direction: json_field_i64(trade, "tick_direction"),
            price: json_field_string(trade, "price"),
            amount: json_field_string(trade, "amount"),
            contracts: json_field_string(trade, "contracts"),
            mark_price: json_field_string(trade, "mark_price"),
            index_price: json_field_string(trade, "index_price"),
            iv: json_field_string(trade, "iv"),
            liquidation: json_field_string(trade, "liquidation"),
            block_trade_id: json_field_string(trade, "block_trade_id"),
            combo_id: json_field_string(trade, "combo_id"),
            combo_trade_id: json_field_string(trade, "combo_trade_id"),
            block_rfq_id: json_field_i64(trade, "block_rfq_id"),
        },
    )
}

/// The trades of a message's data that name an instrument: of a list all of these, in order; of a
/// single trade this one.
pub open spec fn named_trades(data: Option<JsonTree>) -> Seq<JsonTree> {
    match data {
        Some(JsonTree::Array(list)) => list.filter(|t: JsonTree| names_instrument(t)),
        Some(JsonTree::Object(entries)) => if names_instrument(JsonTree::Object(entries)) {
            seq![JsonTree::Object(entries)]
        } else {
            Seq::empty()
        },
        _ => Seq::empty(),
    }
}

/// The value names an instrument.
pub open spec fn names_instrument(value: JsonTree) -> bool {
    json::string_of(value.field("instrument_name"@)) is Some
}

/// Each row says what its trade says.
pub open spec fn rows_say(
    rows: Seq<DeribitTradeRow>,
    event: RawWsEventOwned,
    message: JsonTree,
    trades: Seq<JsonTree>,
    instruments: InstrumentTable,
) -> bool {
    &&& rows.len() == trades.len()
    &&& forall|i: int|
        0 <= i < rows.len() ==> (#[trigger] rows[i]).says(
            event,
            message,
            trades[i],
            instruments.lookup(json::string_of(trades[i].field("instrument_name"@))->Some_0),
        )
}

/// The rows of the trades of a message.
pub fn deribit_trade_rows_from_message(
    event: &RawWsEventOwned,
    message: &Json,
    instruments: &InstrumentTable,
) -> (rows: Vec<DeribitTradeRow>)
    requires
        instruments.well_formed(),
    ensures
        rows_say(
            rows@,
            *event,
            message@,
            named_trades(deribit::message_data(message@)),
            *instruments,
        ),
{
    let mut rows: Vec<DeribitTradeRow> = Vec::new();
    let data = match deribit_message_data(message) {
        Some(data) => data,
        None => return rows,
    };
    match data {
        Json::Array(_) => {
            let list = data.as_array().unwrap();
            let ghost trees = data@->Array_0;
            let ghost keep = |t: JsonTree| names_instrument(t);
            let mut i: usize = 0;
            assert(trees.take(0).filter(keep) =~= Seq::empty()) by {
                reveal(Seq::filter);
            }
            while i < list.len()
                invariant
                    i <= list@.len(),
                    instruments.well_formed(),
                    trees.len() == list@.len(),
                    keep == (|t: JsonTree| names_instrument(t)),
                    forall|j: int| 0 <= j < trees.len() ==> #[trigger] trees[j] == list@[j]@,
                    rows_say(
                        rows@,
                        *event,
                        message@,
                        trees.take(i as int).filter(keep),
                        *instruments,
                    ),
                decreases list@.len() - i,
            {
                let ghost front = trees.take(i as int).filter(keep);
                proof {
                    assert(trees.take(i + 1).drop_last() =~= trees.take(i as int));
                    assert(trees.take(i + 1).last() == list@[i as int]@);
                    reveal(Seq::filter);
                }
                if let Some(row) = deribit_trade_row_from_value(
                    event,
                    message,
                    &list[i],
                    instruments,
                ) {
                    rows.push(row);
                }
                i = i + 1;
            }
            assert(trees.take(i as int) =~= trees);
        },
        Json::Object(_) => {
            if let Some(row) = deribit_trade_row_from_value(event, message, data, instruments) {
                rows.push(row);
            }
        },
        _ => {},
    }
    rows
}

/// One change of an instrument's state.
#[derive(Clone, Debug)]
pub struct DeribitInstrumentStateRow {
    pub exchange: String,
    pub symbol: String,
    pub received_at: String,
    pub received_mts: i64,
    pub connection_id: String,
    pub subscription_channel: String,
    pub instrument_name: Option<String>,
    pub kind: Option<String>,
    pub timestamp: Option<i64>,
    pub state: Option<String>,
    pub raw_data: Option<String>,
}

impl TableRow for DeribitInstrumentStateRow {
    open spec fn schema() -> Seq<FieldView> {
        seq![
            table::text_column("exchange"@),
            table::text_column("symbol"@),
            table::text_column("received_at"@),
            table::int_column("received_mts"@),
            table::text_column("connection_id"@),
            table::text_column("subscription_channel"@),
            table::opt_text_column("instrument_name"@),
            table::opt_text_column("kind"@),
            table::opt_int_column("timestamp"@),
            table::opt_text_column("state"@),
            table::opt_text_column("raw_data"@),
        ]
    }

    open spec fn cells(self) -> Seq<CellView> {
        seq![
            CellView::Text(self.exchange@),
            CellView::Text(self.symbol@),
            CellView::Text(self.received_at@),
            CellView::Int(self.received_mts),
            CellView::Text(self.connection_id@),
            CellView::Text(self.subscription_channel@),
            table::opt_text_view(self.instrument_name),
            table::opt_text_view(self.kind),
            table::opt_int_view(self.timestamp),
            table::opt_text_view(self.state),
            table::opt_text_view(self.raw_data),
        ]
    }

    proof fn cells_fit_schema(self) {
    }

    fn fields() -> (fields: Vec<ColumnField>) {
        let fields: Vec<ColumnField> = vec![
            text_field("exchange"),
            text_field("symbol"),
            text_field("received_at"),
            int_field("received_mts"),
            text_field("connection_id"),
            text_field("subscription_channel"),
            opt_text_field("instrument_name"),
            opt_text_field("kind"),
            opt_int_field("timestamp"),
            opt_text_field("state"),
            opt_text_field("raw_data"),
        ];
        assert(table::field_views(fields@) =~= Self::schema());
        fields
    }

    fn row_cells(&self) -> (cells: Vec<Cell>) {
        let cells: Vec<Cell> = vec![
            text_cell(self.exchange.as_str()),
            text_cell(self.symbol.as_str()),
            text_cell(self.received_at.as_str()),
            Cell::Int(self.received_mts),
            text_cell(self.connection_id.as_str()),
            text_cell(self.subscription_channel.as_str()),
            opt_text_cell(&self.instrument_name),
            opt_text_cell(&self.kind),
            opt_int_cell(self.timestamp),
            opt_text_cell(&self.state),
            opt_text_cell(&self.raw_data),
        ];
        assert(table::cell_views(cells@) =~= self.cells());
        cells
    }
}

/// The columns of the Deribit instrument states.
pub fn deribit_instrument_state_schema() -> (fields: Vec<ColumnField>)
    ensures
        table::field_views(fields@) == <DeribitInstrumentStateRow as TableRow>::schema(),
{
    <DeribitInstrumentStateRow as TableRow>::fields()
}

/// The columns of a list of rows of the Deribit instrument states.
pub fn deribit_instrument_state_columns(rows: &Vec<DeribitInstrumentStateRow>) -> (columns: Vec<Vec<Cell>>)
    ensures
        table::holds_rows(columns@, rows@),
{
    columns_of(rows)
}

impl DeribitInstrumentStateRow {
    /// The row says what the message and its data say, and keeps the data whole.
    pub open spec fn says(self, event: RawWsEventOwned, message: JsonTree, data: JsonTree) -> bool {
        &&& self.exchange@ == event.exchange@
        &&& self.symbol@ == event.symbol@
        &&& self.received_at@ == event.received_at@
        &&& self.received_mts == event.received_mts
        &&& self.connection_id@ == event.connection_id@
        &&& self.subscription_channel@ == channel_or(message, event.channel@)
        &&& json::opt_text(self.instrument_name) == json::scalar_of(
            data.field("instrument_name"@),
        )
        &&& json::opt_text(self.kind) == json::scalar_of(data.field("kind"@))
        &&& self.timestamp == json::i64_of(data.field("timestamp"@))
        &&& json::opt_text(self.state) == json::scalar_of(data.field("state"@))
        &&& json::opt_text(self.raw_data) == Some(wire::written_document(data))
    }
}

/// The state row of a message; there is one where it has data.
pub fn deribit_instrument_state_row_from_message(event: &RawWsEventOwned, message: &Json) -> (row:
    Option<DeribitInstrumentStateRow>)
    ensures
        match deribit::message_data(message@) {
            None => row is None,
            Some(data) => row is Some && row->Some_0.says(*event, message@, data),
        },
{
    let data = match deribit_message_data(message) {
        Some(data) => data,
        None => return None,
    };
    Some(
        DeribitInstrumentStateRow {
            exchange: event.exchange.clone(),
            symbol: event.symbol.clone(),
            received_at: event.received_at.clone(),
            received_mts: event.received_mts,
            connection_id: event.connection_id.clone(),
            subscription_channel: channel_or_recorded(message, event),
            instrument_name: json_field_string(data, "instrument_name"),
            kind: json_field_string(data, "kind"),
            timestamp: json_field_i64(data, "timestamp"),
            state: json_field_string(data, "state"),
            raw_data: Some(wire::json_document(data)),
        },
    )
}

} // verus!
