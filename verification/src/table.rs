//! One table of a viewing session: where it lies, how it is partitioned,
//! through which provider it is registered, and which statements are run
//! against it.
//!
//! The session itself belongs to the query engine. A [`TableContext`] holds
//! what the viewer knows of the table and how far the session has come; it
//! says what is to be registered and what is to be run, and is told how the
//! registration went.

use vstd::prelude::*;
use vstd::string::StringExecFns;
use crate::cli::Format;
use crate::error::{ErrorKind, Failure, ViewerError};
use crate::location::{Location, LocationView};
use crate::partitions::{
    get_partitions_spec, spec_columns_view, spec_get_partitions_spec, ColumnView,
};
use crate::query;
use crate::store::{object_store, spec_object_store, StorePlan, StorePlanView};
use crate::utils::{ensure_scheme, spec_ensure_scheme, DataType, PathProbe};

verus! {

/// How a session of the query engine is to be set up.
#[derive(Clone, Debug, PartialEq, Eq)]
pub struct SessionSetup {
    /// Whether the session answers questions about its own tables, such as
    /// the statement that shows a table's columns.
    pub information_schema: bool,
    /// The formats, by name, that statements can create external tables of
    /// besides those that the engine brings along.
    pub table_factories: Vec<String>,
}

/// A table that is a directory of data files, listed when it is read.
#[derive(Clone, Debug, PartialEq, Eq)]
pub struct ListingPlan {
    /// The object store to register first, for a table in a bucket.
    pub store: Option<StorePlan>,
    /// The URL of the directory.
    pub table_url: String,
    /// The ending of the names of the data files.
    pub file_extension: String,
    /// Whether row groups are left out by their statistics.
    pub enable_pruning: bool,
    /// Whether the metadata in the files' schemas is set aside.
    pub skip_metadata: bool,
    /// The partition columns, outermost directory first.
    pub partition_cols: Vec<(String, DataType)>,
}

/// A table that is read from its transaction log.
#[derive(Clone, Debug, PartialEq, Eq)]
pub struct DeltaPlan {
    /// The URL of the table.
    pub table_uri: String,
    /// Whether the store handlers for buckets are set up before the table is
    /// opened.
    pub register_handlers: bool,
    /// Whether the records of removed files are left unread.
    pub without_tombstones: bool,
}

/// The provider of a table: one case for each format, each with what it
/// needs and no more.
#[derive(Clone, Debug, PartialEq, Eq)]
pub enum Provider {
    Listing(ListingPlan),
    Delta(DeltaPlan),
}

/// What is to be registered with the session: a provider, under a name.
#[derive(Clone, Debug, PartialEq, Eq)]
pub struct Registration {
    pub name: String,
    pub provider: Provider,
}

/// A listing plan as a mathematical value.
pub struct ListingPlanView {
    pub store: Option<StorePlanView>,
    pub table_url: Seq<char>,
    pub file_extension: Seq<char>,
    pub enable_pruning: bool,
    pub skip_metadata: bool,
    pub partition_cols: Seq<ColumnView>,
}

/// A plan for a transaction log table as a mathematical value.
pub struct DeltaPlanView {
    pub table_uri: Seq<char>,
    pub register_handlers: bool,
    pub without_tombstones: bool,
}

/// A provider as a mathematical value.
pub enum ProviderView {
    Listing(ListingPlanView),
    Delta(DeltaPlanView),
}

/// A registration as a mathematical value.
pub struct RegistrationView {
    pub name: Seq<char>,
    pub provider: ProviderView,
}

impl View for ListingPlan {
    type V = ListingPlanView;

    open spec fn view(&self) -> ListingPlanView {
        ListingPlanView {
            store: match self.store {
                Some(s) => Some(s@),
                None => None,
            },
            table_url: self.table_url@,
            file_extension: self.file_extension@,
            enable_pruning: self.enable_pruning,
            skip_metadata: self.skip_metadata,
            partition_cols: spec_columns_view(self.partition_cols@),
        }
    }
}

impl View for DeltaPlan {
    type V = DeltaPlanView;

    open spec fn view(&self) -> DeltaPlanView {
        DeltaPlanView {
            table_uri: self.table_uri@,
            register_handlers: self.register_handlers,
            without_tombstones: self.without_tombstones,
        }
    }
}

impl View for Provider {
    type V = ProviderView;

    open spec fn view(&self) -> ProviderView {
        match self {
            Provider::Listing(p) => ProviderView::Listing(p@),
            Provider::Delta(p) => ProviderView::Delta(p@),
        }
    }
}

impl View for Registration {
    type V = RegistrationView;

    open spec fn view(&self) -> RegistrationView {
        RegistrationView { name: self.name@, provider: self.provider@ }
    }
}

/// The columns of an optional list: none where there is no list.
pub open spec fn spec_columns_or_none(columns: Option<Seq<ColumnView>>) -> Seq<ColumnView> {
    match columns {
        Some(c) => c,
        None => Seq::empty(),
    }
}

/// The listing of the Parquet files under a location: files that end in
/// `.parquet`, read with pruning and without schema metadata, behind the
/// object store that the location calls for.
pub open spec fn spec_parquet_plan(
    path: LocationView,
    partition_spec: Option<Seq<ColumnView>>,
) -> Result<ListingPlanView, Failure> {
    match spec_object_store(path) {
        Err(e) => Err(e),
        Ok(store) => Ok(
            ListingPlanView {
                store,
                table_url: path.text,
                file_extension: ".parquet"@,
                enable_pruning: true,
                skip_metadata: true,
                partition_cols: spec_columns_or_none(partition_spec),
            },
        ),
    }
}

/// A copy of a list of columns.
pub fn copy_columns(columns: &Vec<(String, DataType)>) -> (copy: Vec<(String, DataType)>)
    ensures
        spec_columns_view(copy@) == spec_columns_view(columns@),
{
    let mut copy: Vec<(String, DataType)> = Vec::new();
    let mut i: usize = 0;
    while i < columns.len()
        invariant
            i <= columns.len(),
            copy.len() == i,
            forall|j: int| 0 <= j < i ==> copy@[j].0@ == columns@[j].0@ && copy@[j].1 == columns@[j].1,
        decreases columns.len() - i,
    {
        copy.push((columns[i].0.clone(), columns[i].1));
        i += 1;
    }
    assert(spec_columns_view(copy@) =~= spec_columns_view(columns@));
    copy
}

/// Plans the listing of the Parquet files under a location.
pub fn parquet_plan(path: &Location, partition_spec: &Option<Vec<(String, DataType)>>) -> (r:
    Result<ListingPlan, ViewerError>)
    ensures
        match r {
            Ok(p) => Ok::<ListingPlanView, Failure>(p@),
            Err(e) => Err::<ListingPlanView, Failure>(e@),
        } == spec_parquet_plan(
            path@,
            match *partition_spec {
                Some(c) => Some(spec_columns_view(c@)),
                None => None,
            },
        ),
{
    let store = match object_store(path) {
        Ok(s) => s,
        Err(e) => {
            return Err(e);
        },
    };
    let partition_cols = match partition_spec {
        Some(c) => copy_columns(c),
        None => Vec::new(),
    };
    proof {
        if partition_spec is None {
            assert(spec_columns_view(partition_cols@) =~= Seq::<ColumnView>::empty());
        }
    }
    Ok(
        ListingPlan {
            store,
            table_url: String::from_str(path.as_str()),
            file_extension: String::from_str(".parquet"),
            enable_pruning: true,
            skip_metadata: true,
            partition_cols,
        },
    )
}

/// How far a session has come.
#[derive(Clone, Copy, Debug, PartialEq, Eq, Hash, Structural)]
pub enum Stage {
    /// Nothing is registered yet.
    Created,
    /// The registration was handed out and its outcome is awaited.
    Registering,
    /// The table is registered: statements can be run.
    Registered,
    /// The registration failed. The session is of no further use.
    Failed,
}

/// What the viewer knows of the one table of a session.
#[derive(Debug)]
pub struct TableContext {
    path: Location,
    partition_spec: Option<Vec<(String, DataType)>>,
    fmt: Format,
    stage: Stage,
}

/// A table context as a mathematical value.
pub struct TableContextView {
    pub path: LocationView,
    pub partition_spec: Option<Seq<ColumnView>>,
    pub fmt: Format,
    pub stage: Stage,
}

impl View for TableContext {
    type V = TableContextView;

    closed spec fn view(&self) -> TableContextView {
        TableContextView {
            path: self.path@,
            partition_spec: match self.partition_spec {
                Some(c) => Some(spec_columns_view(c@)),
                None => None,
            },
            fmt: self.fmt,
            stage: self.stage,
        }
    }
}

/// The context of a table given by path, partition string and format. The
/// path is resolved first and the partition string read second; the first
/// failure is the failure of the whole. A new context is in stage `Created`.
pub open spec fn spec_new(
    table_path: Seq<char>,
    probe: PathProbe,
    partitions: Option<String>,
    fmt: Format,
) -> Result<TableContextView, Failure> {
    match spec_ensure_scheme(table_path, probe) {
        Err(e) => Err(e),
        Ok(path) => match spec_get_partitions_spec(partitions) {
            Err(e) => Err(e),
            Ok(partition_spec) => Ok(
                TableContextView { path, partition_spec, fmt, stage: Stage::Created },
            ),
        },
    }
}

/// The provider that a table is registered through. A Parquet table is
/// listed, with its partition columns. A Delta table is opened from its
/// transaction log, which knows its partitioning by itself: the partition
/// columns of the command line play no part.
pub open spec fn spec_provider(ctx: TableContextView) -> Result<ProviderView, Failure> {
    match ctx.fmt {
        Format::Parquet => match spec_parquet_plan(ctx.path, ctx.partition_spec) {
            Ok(p) => Ok(ProviderView::Listing(p)),
            Err(e) => Err(e),
        },
        Format::Delta => Ok(
            ProviderView::Delta(
                DeltaPlanView {
                    table_uri: ctx.path.text,
                    register_handlers: true,
                    without_tombstones: true,
                },
            ),
        ),
    }
}

/// What registering the table asks for: in stage `Created` the table's
/// provider under the table's name, and in any other stage a failure of kind
/// `TableRegistration`, since a session registers its table once.
pub open spec fn spec_registration(ctx: TableContextView) -> Result<RegistrationView, Failure> {
    if ctx.stage == Stage::Created {
        match spec_provider(ctx) {
            Ok(provider) => Ok(RegistrationView { name: query::spec_table_name(), provider }),
            Err(e) => Err(e),
        }
    } else {
        Err(
            Failure {
                kind: ErrorKind::TableRegistration,
                detail: "the table of this session was registered before"@,
            },
        )
    }
}

/// The stage after `register_table`: the outcome is awaited where a
/// registration was handed out, the session has failed where none could be
/// planned, and a session past `Created` stays where it is.
pub open spec fn spec_stage_after_registration(ctx: TableContextView) -> Stage {
    if ctx.stage == Stage::Created {
        if spec_provider(ctx) is Ok {
            Stage::Registering
        } else {
            Stage::Failed
        }
    } else {
        ctx.stage
    }
}

/// A statement for a session in the given stage: the statement itself once
/// the table is registered, and before that a failure of kind
/// `QueryExecution`.
pub open spec fn spec_statement(stage: Stage, statement: Seq<char>) -> Result<Seq<char>, Failure> {
    if stage == Stage::Registered {
        Ok(statement)
    } else {
        Err(
            Failure {
                kind: ErrorKind::QueryExecution,
                detail: "no table is registered with this session"@,
            },
        )
    }
}

/// The outcome of asking for a statement as a mathematical value.
pub open spec fn spec_statement_outcome(r: Result<String, ViewerError>) -> Result<
    Seq<char>,
    Failure,
> {
    match r {
        Ok(s) => Ok(s@),
        Err(e) => Err(e@),
    }
}

impl TableContext {
    /// Sets up the context of a table. The probe says what the local file
    /// system holds at `table_path`; it is looked at only where the path is
    /// no URL. Nothing is registered yet.
    pub fn new(table_path: &str, probe: &PathProbe, partitions: &Option<String>, fmt: Format) -> (r:
        Result<TableContext, ViewerError>)
        ensures
            match r {
                Ok(ctx) => Ok::<TableContextView, Failure>(ctx@),
                Err(e) => Err::<TableContextView, Failure>(e@),
            } == spec_new(table_path@, *probe, *partitions, fmt),
    {
        let path = match ensure_scheme(table_path, probe) {
            Ok(l) => l,
            Err(e) => {
                return Err(e);
            },
        };
        let partition_spec = match get_partitions_spec(partitions) {
            Ok(p) => p,
            Err(e) => {
                return Err(e);
            },
        };
        Ok(TableContext { path, partition_spec, fmt, stage: Stage::Created })
    }

    /// The setup of the session that the table is registered with: it can
    /// show the table's columns.
    pub fn session_setup() -> (setup: SessionSetup)
        ensures
            setup.information_schema,
            setup.table_factories@.len() == 0,
    {
        SessionSetup { information_schema: true, table_factories: Vec::new() }
    }

    /// The location of the table.
    pub fn path(&self) -> (l: &Location)
        ensures
            l@ == self@.path,
    {
        &self.path
    }

    /// The partition columns of the table, if the command line named any.
    pub fn partition_spec(&self) -> (p: &Option<Vec<(String, DataType)>>)
        ensures
            match *p {
                Some(c) => self@.partition_spec == Some(spec_columns_view(c@)),
                None => self@.partition_spec is None,
            },
    {
        &self.partition_spec
    }

    /// The format of the table.
    pub fn format(&self) -> (f: Format)
        ensures
            f == self@.fmt,
    {
        self.fmt
    }

    /// How far the session has come.
    pub fn stage(&self) -> (s: Stage)
        ensures
            s == self@.stage,
    {
        self.stage
    }

    /// Plans the listing of the table's Parquet files.
    pub fn parquet_table_provider(&self) -> (r: Result<ListingPlan, ViewerError>)
        ensures
            match r {
                Ok(p) => Ok::<ListingPlanView, Failure>(p@),
                Err(e) => Err::<ListingPlanView, Failure>(e@),
            } == spec_parquet_plan(self@.path, self@.partition_spec),
    {
        parquet_plan(&self.path, &self.partition_spec)
    }

    /// Plans the opening of the table from its transaction log.
    pub fn delta_table_provider(&self) -> (p: DeltaPlan)
        ensures
            p@ == (DeltaPlanView {
                table_uri: self@.path.text,
                register_handlers: true,
                without_tombstones: true,
            }),
    {
        DeltaPlan {
            table_uri: String::from_str(self.path.as_str()),
            register_handlers: true,
            without_tombstones: true,
        }
    }

    /// Says what is to be registered with the session, and moves on to
    /// await the outcome. The caller carries the registration out and
    /// reports back through [`TableContext::registration_done`].
    pub fn register_table(&mut self) -> (r: Result<Registration, ViewerError>)
        ensures
            match r {
                Ok(reg) => Ok::<RegistrationView, Failure>(reg@),
                Err(e) => Err::<RegistrationView, Failure>(e@),
            } == spec_registration(old(self)@),
            final(self)@ == (TableContextView {
                stage: spec_stage_after_registration(old(self)@),
                ..old(self)@
            }),
    {
        match self.stage {
            Stage::Created => {},
            _ => {
                return Err(
                    ViewerError::new(
                        ErrorKind::TableRegistration,
                        "the table of this session was registered before",
                    ),
                );
            },
        }
        let planned = match self.fmt {
            Format::Parquet => match self.parquet_table_provider() {
                Ok(p) => Ok(Provider::Listing(p)),
                Err(e) => Err(e),
            },
            Format::Delta => Ok(Provider::Delta(self.delta_table_provider())),
        };
        match planned {
            Ok(provider) => {
                self.stage = Stage::Registering;
                Ok(Registration { name: String::from_str(query::table_name()), provider })
            },
            Err(e) => {
                self.stage = Stage::Failed;
                Err(e)
            },
        }
    }

    /// Takes note of how the registration went. Success makes the table
    /// ready for statements. An error of the engine ends the session with a
    /// failure of kind `TableRegistration` about the engine's message. Told
    /// in any stage but `Registering`, the outcome changes nothing and is
    /// itself a failure of that kind.
    pub fn registration_done(&mut self, outcome: Result<(), String>) -> (r: Result<(), ViewerError>)
        ensures
            final(self)@ == (TableContextView {
                stage: if old(self)@.stage == Stage::Registering {
                    if outcome is Ok {
                        Stage::Registered
                    } else {
                        Stage::Failed
                    }
                } else {
                    old(self)@.stage
                },
                ..old(self)@
            }),
            r is Ok <==> old(self)@.stage == Stage::Registering && outcome is Ok,
            r is Err ==> r->Err_0@.kind == ErrorKind::TableRegistration,
            r is Err && old(self)@.stage == Stage::Registering ==> r->Err_0@.detail
                == outcome->Err_0@,
            r is Err && old(self)@.stage != Stage::Registering ==> r->Err_0@.detail
                == "no registration is under way"@,
    {
        match self.stage {
            Stage::Registering => {},
            _ => {
                return Err(
                    ViewerError::new(ErrorKind::TableRegistration, "no registration is under way"),
                );
            },
        }
        match outcome {
            Ok(()) => {
                self.stage = Stage::Registered;
                Ok(())
            },
            Err(message) => {
                self.stage = Stage::Failed;
                Err(ViewerError { kind: ErrorKind::TableRegistration, detail: message })
            },
        }
    }

    fn statement(&self, statement: String) -> (r: Result<String, ViewerError>)
        ensures
            spec_statement_outcome(r) == spec_statement(self@.stage, statement@),
    {
        match self.stage {
            Stage::Registered => Ok(statement),
            _ => Err(
                ViewerError::new(
                    ErrorKind::QueryExecution,
                    "no table is registered with this session",
                ),
            ),
        }
    }

    /// The statement that shows the table's schema. It is there as soon as
    /// the table is registered.
    pub fn schema(&self) -> (r: Result<String, ViewerError>)
        ensures
            spec_statement_outcome(r) == spec_statement(self@.stage, query::spec_schema_query()),
    {
        self.statement(String::from_str(query::schema_query()))
    }

    /// The statement to run for a query with a row limit.
    pub fn build_query(&self, query: String, limit: usize) -> (full: String)
        ensures
            full@ == query::spec_build_query(query@, limit),
    {
        query::build_query(query.as_str(), limit)
    }

    /// The statement to send to the engine for a query with a row limit,
    /// once the table is registered.
    pub fn exec_query(&self, query: String, limit: usize) -> (r: Result<String, ViewerError>)
        ensures
            spec_statement_outcome(r) == spec_statement(
                self@.stage,
                query::spec_build_query(query@, limit),
            ),
    {
        self.statement(self.build_query(query, limit))
    }
}

} // verus!
