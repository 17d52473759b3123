//! The start-up of the query service's process-wide services: which
//! services start, in which order, and with what settings.
//!
//! Starting a service is outside work; the plan of what to start next, and
//! with which settings, is decided here.

use vstd::prelude::*;

use crate::show_create::text_lt;

verus! {

/// The settings start-up reads from the service configuration.
pub struct ServiceConfig {
    pub tenant_id: String,
    pub cluster_id: String,
    pub node_id: String,
    /// The CPUs the storage layer may use; each runtime gets as many threads.
    pub num_cpus: u64,
    pub share_endpoint_address: String,
    pub share_endpoint_auth_token_file: String,
    pub cloud_control_grpc_server_address: Option<String>,
}

/// The catalogs that can be created besides the default one.
#[derive(Debug, Clone, Copy, PartialEq, Eq, Structural)]
pub enum CatalogKind {
    Iceberg,
    Hive,
}

/// One service to start, with the settings it is started with.
pub enum InitStep {
    /// Marks the process as a production instance (only in `init`).
    ProductionInstance,
    GlobalConfig,
    /// The logger, under the application name and with labels sorted by key.
    Logger { app_name: String, labels: Vec<(String, String)> },
    IoRuntime { threads: usize },
    QueryRuntime { threads: usize },
    ClusterDiscovery,
    /// The default catalog and the creators of the other kinds, in order.
    Catalogs { creators: Vec<CatalogKind> },
    HttpQueryManager,
    DataExchangeManager,
    SessionManager,
    LockManager,
    AuthManager,
    UserApi { tenant_id: String },
    RoleCache,
    ShareEndpoints,
    DataOperator,
    ShareTableConfig { endpoint_address: String, auth_token_file: String, tenant_id: String },
    CacheManager { tenant_id: String },
    CloudControl { address: String },
}

/// The process-wide services of the query node.
pub struct GlobalServices;

pub open spec fn app_name(cluster_id: Seq<char>) -> Seq<char> {
    "databend-query-"@ + cluster_id
}

/// The labels of the logger, by key: `cluster_id`, `node_id`, `service`,
/// `tenant_id`.
pub open spec fn log_labels(c: ServiceConfig) -> Seq<(Seq<char>, Seq<char>)> {
    seq![
        ("cluster_id"@, c.cluster_id@),
        ("node_id"@, c.node_id@),
        ("service"@, "databend-query"@),
        ("tenant_id"@, c.tenant_id@),
    ]
}

/// The number of start-up steps: one more when a cloud control address is
/// set.
pub open spec fn init_step_count(c: ServiceConfig) -> nat {
    if c.cloud_control_grpc_server_address is Some { 18 } else { 17 }
}

pub open spec fn labels_view(labels: Vec<(String, String)>) -> Seq<(Seq<char>, Seq<char>)> {
    labels@.map_values(|kv: (String, String)| (kv.0@, kv.1@))
}

/// Step `k` of `init_with`, in the order the services depend on each other:
/// the configuration, the logger, the runtimes, cluster discovery, the
/// catalogs, and then the managers.
pub open spec fn init_step_is(c: ServiceConfig, k: nat, s: InitStep) -> bool {
    if k == 0 {
        s is GlobalConfig
    } else if k == 1 {
        s matches InitStep::Logger { app_name: a, labels } && a@ == app_name(c.cluster_id@)
            && labels_view(labels) == log_labels(c)
    } else if k == 2 {
        s matches InitStep::IoRuntime { threads } && threads as int == c.num_cpus as usize as int
    } else if k == 3 {
        s matches InitStep::QueryRuntime { threads } && threads as int == c.num_cpus as usize as int
    } else if k == 4 {
        s is ClusterDiscovery
    } else if k == 5 {
        s matches InitStep::Catalogs { creators } && creators@ == seq![CatalogKind::Iceberg, CatalogKind::Hive]
    } else if k == 6 {
        s is HttpQueryManager
    } else if k == 7 {
        s is DataExchangeManager
    } else if k == 8 {
        s is SessionManager
    } else if k == 9 {
        s is LockManager
    } else if k == 10 {
        s is AuthManager
    } else if k == 11 {
        s matches InitStep::UserApi { tenant_id } && tenant_id@ == c.tenant_id@
    } else if k == 12 {
        s is RoleCache
    } else if k == 13 {
        s is ShareEndpoints
    } else if k == 14 {
        s is DataOperator
    } else if k == 15 {
        s matches InitStep::ShareTableConfig { endpoint_address, auth_token_file, tenant_id }
            && endpoint_address@ == c.share_endpoint_address@
            && auth_token_file@ == c.share_endpoint_auth_token_file@ && tenant_id@ == c.tenant_id@
    } else if k == 16 {
        s matches InitStep::CacheManager { tenant_id } && tenant_id@ == c.tenant_id@
    } else {
        c.cloud_control_grpc_server_address matches Some(addr)
            && s matches InitStep::CloudControl { address } && address@ == addr@
    }
}

impl GlobalServices {
    /// The step of `init_with` after `done` steps succeeded, or `None` when
    /// all have; the caller runs it and stops at the first that fails.
    pub fn init_with(config: &ServiceConfig, done: usize) -> (r: Option<InitStep>)
        ensures
            match r {
                Some(s) => done < init_step_count(*config) && init_step_is(*config, done as nat, s),
                None => done >= init_step_count(*config),
            },
    {
        if done == 0 {
            Some(InitStep::GlobalConfig)
        } else if done == 1 {
            let mut name = String::from_str("databend-query-");
            name.append(config.cluster_id.as_str());
            let labels = vec![
                (String::from_str("cluster_id"), config.cluster_id.clone()),
                (String::from_str("node_id"), config.node_id.clone()),
                (String::from_str("service"), String::from_str("databend-query")),
                (String::from_str("tenant_id"), config.tenant_id.clone()),
            ];
            assert(labels_view(labels) =~= log_labels(*config));
            Some(InitStep::Logger { app_name: name, labels })
        } else if done == 2 {
            Some(InitStep::IoRuntime { threads: config.num_cpus as usize })
        } else if done == 3 {
            Some(InitStep::QueryRuntime { threads: config.num_cpus as usize })
        } else if done == 4 {
            Some(InitStep::ClusterDiscovery)
        } else if done == 5 {
            let creators = vec![CatalogKind::Iceberg, CatalogKind::Hive];
            assert(creators@ =~= seq![CatalogKind::Iceberg, CatalogKind::Hive]);
            Some(InitStep::Catalogs { creators })
        } else if done == 6 {
            Some(InitStep::HttpQueryManager)
        } else if done == 7 {
            Some(InitStep::DataExchangeManager)
        } else if done == 8 {
            Some(InitStep::SessionManager)
        } else if done == 9 {
            Some(InitStep::LockManager)
        } else if done == 10 {
            Some(InitStep::AuthManager)
        } else if done == 11 {
            Some(InitStep::UserApi { tenant_id: config.tenant_id.clone() })
        } else if done == 12 {
            Some(InitStep::RoleCache)
        } else if done == 13 {
            Some(InitStep::ShareEndpoints)
        } else if done == 14 {
            Some(InitStep::DataOperator)
        } else if done == 15 {
            Some(InitStep::ShareTableConfig {
                endpoint_address: config.share_endpoint_address.clone(),
                auth_token_file: config.share_endpoint_auth_token_file.clone(),
                tenant_id: config.tenant_id.clone(),
            })
        } else if done == 16 {
            Some(InitStep::CacheManager { tenant_id: config.tenant_id.clone() })
        } else if done == 17 {
            match &config.cloud_control_grpc_server_address {
                Some(addr) => Some(InitStep::CloudControl { address: addr.clone() }),
                None => None,
            }
        } else {
            None
        }
    }

    /// The step of `init` after `done` steps succeeded: the production mark,
    /// then the steps of `init_with`.
    pub fn init(config: &ServiceConfig, done: usize) -> (r: Option<InitStep>)
        ensures
            done == 0 ==> r matches Some(InitStep::ProductionInstance),
            done > 0 ==> match r {
                Some(s) => done - 1 < init_step_count(*config) && init_step_is(*config, (done - 1) as nat, s),
                None => done - 1 >= init_step_count(*config),
            },
    {
        if done == 0 {
            Some(InitStep::ProductionInstance)
        } else {
            GlobalServices::init_with(config, done - 1)
        }
    }
}

/// The logger's labels are sorted by key, with no key twice, and they carry
/// the configuration's cluster, node and tenant.
pub proof fn law_log_labels_sorted(c: ServiceConfig)
    ensures
        forall|i: int, j: int| 0 <= i < j < log_labels(c).len() ==> text_lt(log_labels(c)[i].0, log_labels(c)[j].0),
        log_labels(c).len() == 4,
        log_labels(c)[0].1 == c.cluster_id@,
        log_labels(c)[1].1 == c.node_id@,
        log_labels(c)[3].1 == c.tenant_id@,
{
    reveal_strlit("cluster_id");
    reveal_strlit("node_id");
    reveal_strlit("service");
    reveal_strlit("tenant_id");
    let l = log_labels(c);
    assert(text_lt(l[0].0, l[1].0));
    assert(text_lt(l[1].0, l[2].0));
    assert(text_lt(l[2].0, l[3].0));
    assert(text_lt(l[0].0, l[2].0));
    assert(text_lt(l[0].0, l[3].0));
    assert(text_lt(l[1].0, l[3].0));
}

} // verus!
