//! Names of directories and files.

use vstd::prelude::*;

use crate::calendar::CivilDate;
use crate::calendar::date_label;
use crate::text;
use crate::text::joined3;
use crate::text::lower_char;

verus! {

/// A character of a symbol as a path holds it: letters in lower case, digits, `-` and `_` as they
/// are, `_` for every other.
pub open spec fn path_char(c: char) -> char {
    if 'a' <= c <= 'z' || 'A' <= c <= 'Z' || '0' <= c <= '9' || c == '-' || c == '_' {
        text::ascii_lower(c)
    } else {
        '_'
    }
}

/// A symbol as a path holds it.
pub open spec fn partition_name(symbol: Seq<char>) -> Seq<char> {
    symbol.map_values(|c: char| path_char(c))
}

/// The name of a symbol's partition; there is none for an empty symbol.
pub fn symbol_partition_name(symbol: &str) -> (r: Result<String, String>)
    ensures
        r is Ok <==> symbol@.len() > 0,
        r is Ok ==> r->Ok_0@ == partition_name(symbol@),
        r is Err ==> r->Err_0@ == "symbol cannot be empty after path normalization"@,
{
    if text::is_empty_text(symbol) {
        return Err("symbol cannot be empty after path normalization".to_owned());
    }
    let mut name = String::new();
    for c in it: symbol.chars()
        invariant
            name@ == partition_name(symbol@.take(it.index())),
            it.seq() == symbol@,
    {
        let kept = ('a' <= c && c <= 'z') || ('A' <= c && c <= 'Z') || ('0' <= c && c <= '9') || c
            == '-' || c == '_';
        assert(partition_name(symbol@.take(it.index() + 1)) =~= partition_name(
            symbol@.take(it.index()),
        ).push(path_char(c)));
        name.push(
            if kept {
                lower_char(c)
            } else {
                '_'
            },
        );
    }
    Ok(name)
}

/// A character that a partition name can hold.
pub open spec fn is_path_char(c: char) -> bool {
    'a' <= c <= 'z' || '0' <= c <= '9' || c == '-' || c == '_'
}

/// A partition name is safe as a single path component: it holds only lower-case letters, digits,
/// `-` and `_`, has the length of the symbol, and is its own partition name.
pub proof fn partition_names_are_stable(symbol: Seq<char>)
    ensures
        partition_name(symbol).len() == symbol.len(),
        forall|i: int|
            0 <= i < symbol.len() ==> is_path_char(#[trigger] partition_name(symbol)[i]),
        partition_name(partition_name(symbol)) == partition_name(symbol),
{
    let name = partition_name(symbol);
    assert forall|i: int| 0 <= i < symbol.len() implies is_path_char(#[trigger] name[i]) by {
        assert(name[i] == path_char(symbol[i]));
    }
    assert forall|i: int| 0 <= i < symbol.len() implies partition_name(name)[i] == name[i] by {
        assert(is_path_char(name[i]));
        assert(partition_name(name)[i] == path_char(name[i]));
    }
    assert(partition_name(name) =~= name);
}

/// The name of the file of a day's trades.
pub open spec fn trade_file_name(symbol_name: Seq<char>, date: CivilDate) -> Seq<char> {
    symbol_name + "_"@ + date.label() + ".parquet"@
}

/// The name of the file of a day's trades.
pub fn daily_file_name(symbol_name: &str, date: CivilDate) -> (name: String)
    requires
        date.valid(),
    ensures
        name@ == trade_file_name(symbol_name@, date),
{
    let mut name = joined3(symbol_name, "_", date_label(date).as_str());
    name.append(".parquet");
    name
}

/// The name of the file of a day's raw messages.
pub open spec fn raw_file_name(
    symbol_name: Seq<char>,
    channel_name: Seq<char>,
    date: CivilDate,
) -> Seq<char> {
    symbol_name + "_"@ + channel_name + "_"@ + date.label() + ".jsonl.zst"@
}

/// The name of the file of a day's raw messages.
pub fn daily_stream_file_name(symbol_name: &str, channel_name: &str, date: CivilDate) -> (name:
    String)
    requires
        date.valid(),
    ensures
        name@ == raw_file_name(symbol_name@, channel_name@, date),
{
    let mut name = joined3(symbol_name, "_", channel_name);
    name.append("_");
    name.append(date_label(date).as_str());
    name.append(".jsonl.zst");
    name
}

/// The name of the file of a day's normalized rows.
pub open spec fn dataset_file_name(
    symbol_name: Seq<char>,
    dataset: Seq<char>,
    date: CivilDate,
) -> Seq<char> {
    symbol_name + "_"@ + dataset + "_"@ + date.label() + ".parquet"@
}

/// The name of the file of a day's normalized rows.
pub fn normalized_file_name(symbol_name: &str, dataset: &str, date: CivilDate) -> (name: String)
    requires
        date.valid(),
    ensures
        name@ == dataset_file_name(symbol_name@, dataset@, date),
{
    let mut name = joined3(symbol_name, "_", dataset);
    name.append("_");
    name.append(date_label(date).as_str());
    name.append(".parquet");
    name
}

/// The name under which a file is written until it is complete.
pub fn parquet_tmp_name(file_name: &str) -> (name: String)
    ensures
        name@ == file_name@ + ".tmp"@,
{
    let mut name = file_name.to_owned();
    name.append(".tmp");
    name
}

} // verus!
