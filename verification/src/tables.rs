//! Stored tables, and what a Delta client is told of them.

use crate::error::{BackendResult, DeltaBackendError, ErrorKind, Failure};
use crate::host::{GenericTableId, Location};
use crate::properties::{Entry, TableProperties};
use crate::{error, text};
use iceberg::NamespaceIdent;
use vstd::prelude::*;

verus! {

/// A table as the catalog stores it. `J` is the free-form schema blob, which by
/// convention holds a Delta schema.
#[derive(Debug)]
pub struct GenericTableInfo<J> {
    pub generic_table_id: GenericTableId,
    pub namespace: NamespaceIdent,
    pub name: String,
    pub format: String,
    pub location: Location,
    pub schema: Option<J>,
    pub properties: TableProperties,
}

/// Who owns the files of a Delta table.
#[derive(Clone, Copy, Debug, PartialEq, Eq, Structural)]
pub enum DeltaTableType {
    External,
}

/// The format of a Delta table.
#[derive(Clone, Copy, Debug, PartialEq, Eq, Structural)]
pub enum DeltaDataSourceFormat {
    Delta,
}

/// A table as a Delta client is told of it. `C` is a column.
#[derive(Debug)]
pub struct ResolvedTable<C> {
    pub table_id: Option<String>,
    pub location: String,
    pub table_type: Option<DeltaTableType>,
    pub data_source_format: Option<DeltaDataSourceFormat>,
    pub columns: Vec<C>,
    pub properties: TableProperties,
    pub created_at_ms: Option<i64>,
    pub updated_at_ms: Option<i64>,
    /// The version for optimistic writes; 0 says that none is tracked.
    pub version: i64,
}

/// A [`ResolvedTable`] by the characters of its parts.
pub struct ResolvedView<C> {
    pub table_id: Option<Seq<char>>,
    pub location: Seq<char>,
    pub table_type: Option<DeltaTableType>,
    pub data_source_format: Option<DeltaDataSourceFormat>,
    pub columns: Seq<C>,
    pub properties: Seq<Entry>,
    pub created_at_ms: Option<i64>,
    pub updated_at_ms: Option<i64>,
    pub version: int,
}

impl<C> View for ResolvedTable<C> {
    type V = ResolvedView<C>;

    open spec fn view(&self) -> ResolvedView<C> {
        ResolvedView {
            table_id: match self.table_id {
                Some(id) => Some(id@),
                None => None,
            },
            location: self.location@,
            table_type: self.table_type,
            data_source_format: self.data_source_format,
            columns: self.columns@,
            properties: self.properties@,
            created_at_ms: self.created_at_ms,
            updated_at_ms: self.updated_at_ms,
            version: self.version as int,
        }
    }
}

/// Whether a stored table is a Delta table.
pub open spec fn is_delta<J>(info: GenericTableInfo<J>) -> bool {
    info.format@ == "delta"@
}

/// What a Delta client is told of a stored table with these columns. A Delta
/// table is external; any other has neither a Delta type nor a Delta format.
pub open spec fn resolved<J, C>(info: GenericTableInfo<J>, columns: Seq<C>) -> ResolvedView<C> {
    ResolvedView {
        table_id: Some(info.generic_table_id.0@),
        location: info.location.0@,
        table_type: if is_delta(info) {
            Some(DeltaTableType::External)
        } else {
            None
        },
        data_source_format: if is_delta(info) {
            Some(DeltaDataSourceFormat::Delta)
        } else {
            None
        },
        columns,
        properties: info.properties@,
        created_at_ms: None,
        updated_at_ms: None,
        version: 0,
    }
}

/// What comes of a stored schema: its columns, at once where there is no schema,
/// else after it was parsed.
#[derive(Debug)]
pub enum SchemaColumns<'a, J, C> {
    Columns(Vec<C>),
    Parse(ParseSchema<'a, J>),
}

/// Asks that `schema` be parsed as a Delta schema.
#[derive(Debug)]
pub struct ParseSchema<'a, J> {
    pub schema: &'a J,
}

/// Asks that a parsed Delta schema be converted into columns.
#[derive(Debug)]
pub struct ConvertSchema<S> {
    pub struct_type: S,
}

/// What a parse that failed with this text is told as, and what follows one that
/// did not fail.
pub open spec fn schema_parsed<S>(reply: Result<S, String>) -> Result<ConvertSchema<S>, Failure> {
    match reply {
        Ok(struct_type) => Ok(ConvertSchema { struct_type }),
        Err(reason) => Err(
            Failure {
                kind: ErrorKind::Internal,
                message: "stored table schema is not a valid Delta schema: "@ + reason@,
            },
        ),
    }
}

/// What a conversion that failed with this text is told as, and the columns of
/// one that did not fail.
pub open spec fn schema_converted<C>(reply: Result<Vec<C>, String>) -> Result<Vec<C>, Failure> {
    match reply {
        Ok(columns) => Ok(columns),
        Err(reason) => Err(
            Failure {
                kind: ErrorKind::Internal,
                message: "stored Delta schema could not be converted: "@ + reason@,
            },
        ),
    }
}

/// The columns of a stored schema. Without a schema there are none; one that is
/// there has to be parsed.
pub fn columns_from_schema<J, C>(schema: Option<&J>) -> (next: SchemaColumns<'_, J, C>)
    ensures
        match schema {
            None => next matches SchemaColumns::Columns(columns) && columns@.len() == 0,
            Some(blob) => next == SchemaColumns::<J, C>::Parse(ParseSchema { schema: blob }),
        },
{
    match schema {
        None => SchemaColumns::Columns(Vec::new()),
        Some(schema) => SchemaColumns::Parse(ParseSchema { schema }),
    }
}

impl<'a, J> ParseSchema<'a, J> {
    /// Takes the parsed schema, or the text of the parse error.
    pub fn parsed<S>(self, reply: Result<S, String>) -> (next: BackendResult<ConvertSchema<S>>)
        ensures
            error::seen(next) == schema_parsed(reply),
    {
        match reply {
            Ok(struct_type) => Ok(ConvertSchema { struct_type }),
            Err(reason) => Err(
                DeltaBackendError::Internal(
                    text::joined(
                        "stored table schema is not a valid Delta schema: ",
                        reason.as_str(),
                    ),
                ),
            ),
        }
    }
}

impl<S> ConvertSchema<S> {
    /// Takes the columns, or the text of the conversion error.
    pub fn converted<C>(self, reply: Result<Vec<C>, String>) -> (columns: BackendResult<Vec<C>>)
        ensures
            error::seen(columns) == schema_converted(reply),
    {
        match reply {
            Ok(columns) => Ok(columns),
            Err(reason) => Err(
                DeltaBackendError::Internal(
                    text::joined("stored Delta schema could not be converted: ", reason.as_str()),
                ),
            ),
        }
    }
}

/// What comes of a stored table: what a client is told of it, at once where it
/// has no schema, else after the schema was read.
#[derive(Debug)]
pub enum TableToResolved<'a, J, C> {
    Resolved(ResolvedTable<C>),
    Parse(ParseTableSchema<'a, J>),
}

/// Asks that the schema of a stored table be parsed.
#[derive(Debug)]
pub struct ParseTableSchema<'a, J> {
    pub info: &'a GenericTableInfo<J>,
    pub parse: ParseSchema<'a, J>,
}

/// Asks that the parsed schema of a stored table be converted.
#[derive(Debug)]
pub struct ConvertTableSchema<'a, J, S> {
    pub info: &'a GenericTableInfo<J>,
    pub convert: ConvertSchema<S>,
}

/// A stored table, told with these columns.
fn with_columns<J, C>(info: &GenericTableInfo<J>, columns: Vec<C>) -> (table: ResolvedTable<C>)
    ensures
        table@ == resolved(*info, columns@),
        table.table_type == Some(DeltaTableType::External) <==> info.format@ == "delta"@,
        table.data_source_format == Some(DeltaDataSourceFormat::Delta) <==> info.format@
            == "delta"@,
        table.table_id matches Some(id) && id@ == info.generic_table_id.0@,
        table.location@ == info.location.0@,
        table.columns@ == columns@,
        table.properties@ == info.properties@,
{
    let is_delta = text::same_text(info.format.as_str(), "delta");
    ResolvedTable {
        table_id: Some(info.generic_table_id.0.clone()),
        location: info.location.0.clone(),
        table_type: if is_delta {
            Some(DeltaTableType::External)
        } else {
            None
        },
        data_source_format: if is_delta {
            Some(DeltaDataSourceFormat::Delta)
        } else {
            None
        },
        columns,
        properties: info.properties.copied(),
        created_at_ms: None,
        updated_at_ms: None,
        version: 0,
    }
}

/// Whether `next` is what comes of a stored table.
pub open spec fn resolution<'a, J, C>(
    info: &'a GenericTableInfo<J>,
    next: TableToResolved<'a, J, C>,
) -> bool {
    match info.schema {
        None => next matches TableToResolved::Resolved(table) && table@ == resolved(
            *info,
            Seq::<C>::empty(),
        ),
        Some(schema) => next == TableToResolved::<J, C>::Parse(
            ParseTableSchema { info, parse: ParseSchema { schema: &schema } },
        ),
    }
}

/// What a Delta client is told of a stored table. A table without a schema has no
/// columns; a schema that is there has to be read.
pub fn table_to_resolved<J, C>(info: &GenericTableInfo<J>) -> (next: TableToResolved<'_, J, C>)
    ensures
        resolution(info, next),
{
    let columns: SchemaColumns<'_, J, C> = columns_from_schema(info.schema.as_ref());
    match columns {
        SchemaColumns::Columns(columns) => {
            assert(columns@ =~= Seq::<C>::empty());
            TableToResolved::Resolved(with_columns(info, columns))
        },
        SchemaColumns::Parse(parse) => TableToResolved::Parse(ParseTableSchema { info, parse }),
    }
}

/// What follows the parse of a table's schema.
pub open spec fn table_schema_parsed<'a, J, S>(
    state: ParseTableSchema<'a, J>,
    reply: Result<S, String>,
) -> Result<ConvertTableSchema<'a, J, S>, Failure> {
    match schema_parsed(reply) {
        Ok(convert) => Ok(ConvertTableSchema { info: state.info, convert }),
        Err(failure) => Err(failure),
    }
}

/// What follows the conversion of a table's schema.
pub open spec fn table_schema_converted<'a, J, S, C>(
    state: ConvertTableSchema<'a, J, S>,
    reply: Result<Vec<C>, String>,
) -> Result<ResolvedView<C>, Failure> {
    match schema_converted(reply) {
        Ok(columns) => Ok(resolved(*state.info, columns@)),
        Err(failure) => Err(failure),
    }
}

impl<'a, J> ParseTableSchema<'a, J> {
    /// Takes the parsed schema, or the text of the parse error.
    pub fn parsed<S>(self, reply: Result<S, String>) -> (next: BackendResult<
        ConvertTableSchema<'a, J, S>,
    >)
        ensures
            error::seen(next) == table_schema_parsed(self, reply),
    {
        match self.parse.parsed(reply) {
            Ok(convert) => Ok(ConvertTableSchema { info: self.info, convert }),
            Err(error) => Err(error),
        }
    }
}

impl<'a, J, S> ConvertTableSchema<'a, J, S> {
    /// Takes the columns, or the text of the conversion error.
    pub fn converted<C>(self, reply: Result<Vec<C>, String>) -> (table: BackendResult<
        ResolvedTable<C>,
    >)
        ensures
            error::viewed(table) == table_schema_converted(self, reply),
    {
        match self.convert.converted(reply) {
            Ok(columns) => Ok(with_columns(self.info, columns)),
            Err(error) => Err(error),
        }
    }
}

/// A table is told as a Delta table exactly where it is stored with the format
/// `delta`, whatever its columns, its location and its properties are. Its
/// identifier, location and properties are those that are stored, and its columns
/// those that it is told with; nothing is said of times, nor of a version.
pub proof fn tables_are_told_as_they_are_stored<J, C>(info: GenericTableInfo<J>, columns: Seq<C>)
    ensures
        ({
            let table = resolved(info, columns);
            &&& is_delta(info) <==> info.format@ == "delta"@
            &&& table.table_type == Some(DeltaTableType::External) <==> info.format@ == "delta"@
            &&& table.table_type is None <==> info.format@ != "delta"@
            &&& table.data_source_format == Some(DeltaDataSourceFormat::Delta) <==> info.format@
                == "delta"@
            &&& table.data_source_format is None <==> info.format@ != "delta"@
            &&& table.table_id == Some(info.generic_table_id.0@)
            &&& table.location == info.location.0@
            &&& table.properties == info.properties@
            &&& table.columns == columns
            &&& table.created_at_ms is None && table.updated_at_ms is None
            &&& table.version == 0
        }),
{
}

/// Columns show nowhere but in the columns: a table told with other columns is told
/// the same in all else.
pub proof fn columns_change_nothing_else<J, C>(
    info: GenericTableInfo<J>,
    some: Seq<C>,
    others: Seq<C>,
)
    ensures
        (ResolvedView { columns: others, ..resolved(info, some) }) == resolved(info, others),
{
}

/// What a client is told of a table does not depend on where in the catalog it is
/// stored, nor on how its schema is: only its identifier, format, location and
/// properties count.
pub proof fn names_do_not_show<J, K, C>(
    a: GenericTableInfo<J>,
    b: GenericTableInfo<K>,
    columns: Seq<C>,
)
    requires
        a.generic_table_id == b.generic_table_id,
        a.format@ == b.format@,
        a.location == b.location,
        a.properties@ == b.properties@,
    ensures
        resolved(a, columns) == resolved(b, columns),
{
}

/// A resolved table says exactly what it holds.
pub proof fn tables_say_what_they_hold<C>(table: ResolvedTable<C>)
    ensures
        table@.table_id is Some <==> table.table_id is Some,
        table.table_id matches Some(id) ==> table@.table_id->0 == id@,
        table@.location == table.location@,
        table@.table_type == table.table_type,
        table@.data_source_format == table.data_source_format,
        table@.columns == table.columns@,
        table@.properties == table.properties@,
        table@.created_at_ms == table.created_at_ms,
        table@.updated_at_ms == table.updated_at_ms,
        table@.version == table.version,
{
}

/// A schema is read exactly where it was parsed and converted, with the columns of the
/// conversion. A schema that could not be read is a failure of the server, which says
/// at which of the two steps it failed and why.
pub proof fn schemas_are_read_or_told_as_unreadable<S, C>(
    parse: Result<S, String>,
    convert: Result<Vec<C>, String>,
)
    ensures
        schema_parsed(parse) is Ok <==> parse is Ok,
        parse matches Ok(struct_type) ==> schema_parsed(parse)->Ok_0.struct_type == struct_type,
        parse matches Err(reason) ==> {
            &&& schema_parsed(parse)->Err_0.kind is Internal
            &&& schema_parsed(parse)->Err_0.message
                == "stored table schema is not a valid Delta schema: "@ + reason@
        },
        schema_converted(convert) is Ok <==> convert is Ok,
        convert matches Ok(columns) ==> schema_converted(convert)->Ok_0 == columns,
        convert matches Err(reason) ==> {
            &&& schema_converted(convert)->Err_0.kind is Internal
            &&& schema_converted(convert)->Err_0.message
                == "stored Delta schema could not be converted: "@ + reason@
        },
{
}

/// A table with a stored schema is never told before that very schema was read, and
/// one without is told at once, with no columns.
pub proof fn stored_schemas_are_always_read<'a, J, C>(
    info: &'a GenericTableInfo<J>,
    next: TableToResolved<'a, J, C>,
)
    requires
        resolution(info, next),
    ensures
        next is Parse <==> info.schema is Some,
        next matches TableToResolved::Parse(state) ==> {
            &&& *state.info == *info
            &&& *state.parse.schema == info.schema->0
        },
        next matches TableToResolved::Resolved(table) ==> {
            &&& table.columns@.len() == 0
            &&& table.table_type == Some(DeltaTableType::External) <==> info.format@ == "delta"@
            &&& table.data_source_format == Some(DeltaDataSourceFormat::Delta) <==> info.format@
                == "delta"@
            &&& table.table_id matches Some(id)
            &&& id@ == info.generic_table_id.0@
            &&& table.location@ == info.location.0@
            &&& table.properties@ == info.properties@
        },
{
    if next is Resolved {
        assert(next->Resolved_0@.columns == Seq::<C>::empty());
    }
}

/// A table keeps its place through the reading of its schema: what is parsed and
/// converted leads to the table that the reading was begun for.
pub proof fn read_schemas_belong_to_their_table<'a, J, S, C>(
    state: ParseTableSchema<'a, J>,
    parse: Result<S, String>,
    convert: Result<Vec<C>, String>,
)
    ensures
        table_schema_parsed(state, parse) is Ok <==> parse is Ok,
        table_schema_parsed(state, parse) matches Ok(next) ==> {
            &&& *next.info == *state.info
            &&& next.convert.struct_type == parse->Ok_0
            &&& table_schema_converted(next, convert) is Ok <==> convert is Ok
            &&& table_schema_converted(next, convert) matches Ok(table) ==> {
                &&& table.columns == convert->Ok_0@
                &&& table.table_id == Some(state.info.generic_table_id.0@)
                &&& table.location == state.info.location.0@
                &&& table.properties == state.info.properties@
                &&& table.table_type == Some(DeltaTableType::External) <==> state.info.format@
                    == "delta"@
                &&& table.data_source_format == Some(DeltaDataSourceFormat::Delta)
                    <==> state.info.format@ == "delta"@
            }
            &&& table_schema_converted(next, convert) matches Err(failure) ==> failure.kind
                is Internal && failure.message == "stored Delta schema could not be converted: "@
                + convert->Err_0@
        },
        table_schema_parsed(state, parse) matches Err(failure) ==> failure.kind is Internal
            && failure.message == "stored table schema is not a valid Delta schema: "@
            + parse->Err_0@,
{
}

} // verus!
