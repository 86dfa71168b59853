//! The single-command form of the viewer: one table, one statement, both
//! taken from the arguments of the run.

use vstd::prelude::*;
use vstd::string::StringExecFns;
use crate::args::{Args, Format};
use crate::error::{Failure, ViewerError};
use crate::location::{Location, LocationView};
use crate::partitions::{
    get_partitions_spec, spec_columns_view, spec_get_partitions_spec, ColumnView,
};
use crate::query;
use crate::store::{
    object_store, spec_object_store, spec_store_outcome, StorePlan, StorePlanView,
};
use crate::table::{
    copy_columns, spec_columns_or_none, DeltaPlan, DeltaPlanView, ListingPlan, ListingPlanView,
    Provider, ProviderView, Registration, RegistrationView, SessionSetup,
};
use crate::utils::{ensure_scheme, spec_ensure_scheme, DataType, PathProbe};

verus! {

/// What the arguments say of the table: where it lies and how it is
/// partitioned.
#[derive(Debug)]
pub struct Config {
    path: Location,
    partition_spec: Option<Vec<(String, DataType)>>,
}

/// A configuration as a mathematical value.
pub struct ConfigView {
    pub path: LocationView,
    pub partition_spec: Option<Seq<ColumnView>>,
}

impl View for Config {
    type V = ConfigView;

    closed spec fn view(&self) -> ConfigView {
        ConfigView {
            path: self.path@,
            partition_spec: match self.partition_spec {
                Some(c) => Some(spec_columns_view(c@)),
                None => None,
            },
        }
    }
}

/// The configuration that arguments stand for. The path is resolved first
/// and the partition string read second; the first failure is the failure of
/// the whole.
pub open spec fn spec_from_args(args: Args, probe: PathProbe) -> Result<ConfigView, Failure> {
    match spec_ensure_scheme(args.table_path@, probe) {
        Err(e) => Err(e),
        Ok(path) => match spec_get_partitions_spec(args.partitions) {
            Err(e) => Err(e),
            Ok(partition_spec) => Ok(ConfigView { path, partition_spec }),
        },
    }
}

/// The listing of the Parquet files of a configured table, behind a given
/// object store.
pub open spec fn spec_listing(
    config: ConfigView,
    store: Option<StorePlanView>,
) -> ListingPlanView {
    ListingPlanView {
        store,
        table_url: config.path.text,
        file_extension: ".parquet"@,
        enable_pruning: true,
        skip_metadata: true,
        partition_cols: spec_columns_or_none(config.partition_spec),
    }
}

/// The provider of a configured table in a given format. A Parquet table is
/// listed behind the object store that its location calls for. A Delta table
/// is opened as it stands, records of removed files included.
pub open spec fn spec_provider(config: ConfigView, format: Format) -> Result<
    ProviderView,
    Failure,
> {
    match format {
        Format::Parquet => match spec_object_store(config.path) {
            Err(e) => Err(e),
            Ok(store) => Ok(ProviderView::Listing(spec_listing(config, store))),
        },
        Format::Delta => Ok(
            ProviderView::Delta(
                DeltaPlanView {
                    table_uri: config.path.text,
                    register_handlers: false,
                    without_tombstones: false,
                },
            ),
        ),
    }
}

/// What registering the table of the arguments asks for.
pub open spec fn spec_register_table(args: Args, probe: PathProbe) -> Result<
    RegistrationView,
    Failure,
> {
    match spec_from_args(args, probe) {
        Err(e) => Err(e),
        Ok(config) => match spec_provider(config, args.format) {
            Err(e) => Err(e),
            Ok(provider) => Ok(RegistrationView { name: query::spec_table_name(), provider }),
        },
    }
}

impl Config {
    /// Reads the table's configuration off the arguments. The probe says
    /// what the local file system holds at the table's path.
    pub fn from_args(args: &Args, probe: &PathProbe) -> (r: Result<Config, ViewerError>)
        ensures
            match r {
                Ok(c) => Ok::<ConfigView, Failure>(c@),
                Err(e) => Err::<ConfigView, Failure>(e@),
            } == spec_from_args(*args, *probe),
    {
        let path = match ensure_scheme(args.table_path.as_str(), probe) {
            Ok(l) => l,
            Err(e) => {
                return Err(e);
            },
        };
        let partition_spec = match get_partitions_spec(&args.partitions) {
            Ok(p) => p,
            Err(e) => {
                return Err(e);
            },
        };
        Ok(Config { path, partition_spec })
    }

    /// The location of the table.
    pub fn path(&self) -> (l: &Location)
        ensures
            l@ == self@.path,
    {
        &self.path
    }
}

/// The decisions of a run. The session of the query engine is the
/// caller's.
#[derive(Clone, Copy, Debug, PartialEq, Eq, Structural)]
pub struct AppState {}

impl AppState {
    /// The decisions of a new run.
    pub fn new() -> (state: AppState)
        ensures
            state == (AppState {  }),
    {
        AppState {  }
    }

    /// The setup of the session: the engine's own, with nothing added.
    pub fn session_setup() -> (setup: SessionSetup)
        ensures
            !setup.information_schema,
            setup.table_factories@.len() == 0,
    {
        SessionSetup { information_schema: false, table_factories: Vec::new() }
    }

    /// The object store to register before a table at this location is
    /// read, if it needs one.
    pub fn register_store(&self, url: &Location) -> (r: Result<Option<StorePlan>, ViewerError>)
        ensures
            spec_store_outcome(r) == spec_object_store(url@),
    {
        object_store(url)
    }

    /// Plans the listing of the table's Parquet files behind the given
    /// object store.
    pub fn parquet_table_provider(&self, config: &Config, store: Option<StorePlan>) -> (p:
        ListingPlan)
        ensures
            p@ == spec_listing(
                config@,
                match store {
                    Some(s) => Some(s@),
                    None => None,
                },
            ),
    {
        let partition_cols = match &config.partition_spec {
            Some(c) => copy_columns(c),
            None => Vec::new(),
        };
        proof {
            if config.partition_spec is None {
                assert(spec_columns_view(partition_cols@) =~= Seq::<ColumnView>::empty());
            }
        }
        ListingPlan {
            store,
            table_url: String::from_str(config.path.as_str()),
            file_extension: String::from_str(".parquet"),
            enable_pruning: true,
            skip_metadata: true,
            partition_cols,
        }
    }

    /// Plans the opening of the table from its transaction log.
    pub fn delta_table_provider(&self, config: &Config) -> (p: DeltaPlan)
        ensures
            p@ == (DeltaPlanView {
                table_uri: config@.path.text,
                register_handlers: false,
                without_tombstones: false,
            }),
    {
        DeltaPlan {
            table_uri: String::from_str(config.path.as_str()),
            register_handlers: false,
            without_tombstones: false,
        }
    }

    /// Says what is to be registered with the session for the table of the
    /// arguments.
    pub fn register_table(&self, args: &Args, probe: &PathProbe) -> (r: Result<
        Registration,
        ViewerError,
    >)
        ensures
            match r {
                Ok(reg) => Ok::<RegistrationView, Failure>(reg@),
                Err(e) => Err::<RegistrationView, Failure>(e@),
            } == spec_register_table(*args, *probe),
    {
        let config = match Config::from_args(args, probe) {
            Ok(c) => c,
            Err(e) => {
                return Err(e);
            },
        };
        let provider = match args.format {
            Format::Parquet => {
                let store = match self.register_store(&config.path) {
                    Ok(s) => s,
                    Err(e) => {
                        return Err(e);
                    },
                };
                Provider::Listing(self.parquet_table_provider(&config, store))
            },
            Format::Delta => Provider::Delta(self.delta_table_provider(&config)),
        };
        Ok(Registration { name: String::from_str(query::table_name()), provider })
    }

    /// The statement to send to the engine for the query of the arguments:
    /// a selection with the limit of the arguments behind it, any other
    /// statement as it stands.
    pub fn exec_query(&self, args: &Args) -> (full: String)
        ensures
            full@ == query::spec_build_query(args.query@, args.limit),
    {
        query::build_query(args.query.as_str(), args.limit)
    }
}

} // verus!
