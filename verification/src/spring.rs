//! The Spring-shaped configuration model: the typed structures the
//! merged tree materializes into. Every block is optional; required
//! fields live in the leaf holders. Unknown entries in the tree are
//! ignored.

use vstd::prelude::*;

use crate::decode::opt_bool_of;
use crate::decode::opt_bool_ok;
use crate::decode::opt_node;
use crate::decode::opt_str_list_matches;
use crate::decode::opt_str_list_ok;
use crate::decode::opt_str_matches;
use crate::decode::opt_str_of;
use crate::decode::opt_str_ok;
use crate::decode::opt_str_table_matches;
use crate::decode::opt_str_table_ok;
use crate::decode::opt_u16_matches;
use crate::decode::opt_u16_of;
use crate::decode::opt_u16_ok;
use crate::decode::read_opt_bool;
use crate::decode::read_opt_str;
use crate::decode::read_opt_str_list;
use crate::decode::read_opt_str_table;
use crate::decode::read_opt_u16;
use crate::error::ConfigError;
use crate::value::ConfigValue;
use crate::value::Tree;
use crate::value::arr_views;
use crate::value::lemma_arr_views;
use crate::value::obj_get;

verus! {

/// The whole effective configuration, materialized from the merged tree.
#[derive(Clone, Debug)]
pub struct DyConfiguration {
    pub spring: Option<SpringConfig>,
    pub logging: Option<LoggingConfig>,
    pub server: Option<ServerConfig>,
    pub knife4j: Option<KfConfig>,
    pub yudao: Option<YuDaoConfig>,
}

/// The `spring` section.
#[derive(Clone, Debug)]
pub struct SpringConfig {
    pub profiles: Option<SpringProfileConfig>,
    pub application: Option<ApplicationConfig>,
    pub http: Option<HttpConfig>,
    pub jackson: Option<JacksonConfig>,
    pub main: Option<MainConfig>,
    pub config: Option<SpringImportConfig>,
    pub cloud: Option<CloudConfig>,
}

/// Gateway settings under the cloud section.
#[derive(Clone, Debug)]
pub struct GatewayCloudConfig {
    pub server: Option<GatewayServerConfig>,
    pub x_forwarded: Option<XForwardedConfig>,
}

/// The gateway server block.
#[derive(Clone, Debug)]
pub struct GatewayServerConfig {
    pub webflux: Option<WebfluxConfig>,
}

/// Reactive routing definitions.
#[derive(Clone, Debug)]
pub struct WebfluxConfig {
    pub routes: Option<Vec<RouteDefinition>>,
}

/// One declared route.
#[derive(Clone, Debug)]
pub struct RouteDefinition {
    pub id: Option<String>,
    pub uri: Option<String>,
    pub predicates: Option<Vec<String>>,
    pub filters: Option<Vec<String>>,
}

/// Forwarded-header handling.
#[derive(Clone, Debug)]
pub struct XForwardedConfig {
    pub prefix_enabled: Option<bool>,
}

/// A profile selection block.
#[derive(Clone, Debug)]
pub struct ProfilesConfig {
    pub active: Option<String>,
}

/// HTTP handling settings.
#[derive(Clone, Debug)]
pub struct HttpConfig {
    pub codecs: Option<HttpCodecConfig>,
}

/// Codec limits.
#[derive(Clone, Debug)]
pub struct HttpCodecConfig {
    pub max_in_memory_size: Option<String>,
}

/// Serialization settings.
#[derive(Clone, Debug)]
pub struct JacksonConfig {
    pub serialization: Option<JacksonSerializationConfig>,
}

/// Serialization toggles.
#[derive(Clone, Debug)]
pub struct JacksonSerializationConfig {
    pub write_dates_as_timestamps: Option<bool>,
    pub write_date_timestamps_as_nanoseconds: Option<bool>,
    pub write_durations_as_timestamps: Option<bool>,
    pub fail_on_empty_beans: Option<bool>,
}

/// Container bootstrap toggles.
#[derive(Clone, Debug)]
pub struct MainConfig {
    pub allow_circular_references: Option<bool>,
}

/// The active profile.
#[derive(Clone, Debug)]
pub struct SpringProfileConfig {
    pub active: Option<String>,
}

/// The application's identity.
#[derive(Clone, Debug)]
pub struct ApplicationConfig {
    pub name: Option<String>,
}

/// The declared import directives.
#[derive(Clone, Debug)]
pub struct SpringImportConfig {
    pub import: Option<Vec<String>>,
}

/// The cloud section.
#[derive(Clone, Debug)]
pub struct CloudConfig {
    pub nacos: Option<NacosConfig>,
}

/// Remote-source connection settings read from the tree.
#[derive(Clone, Debug)]
pub struct NacosConfig {
    pub server_addr: Option<String>,
    pub username: Option<String>,
    pub password: Option<String>,
    pub discovery: Option<NacosNamespace>,
    pub config: Option<NacosNamespace>,
}

/// A namespace and group pair.
#[derive(Clone, Debug)]
pub struct NacosNamespace {
    pub namespace: Option<String>,
    pub group: Option<String>,
}

/// Logging levels by target.
#[derive(Clone, Debug)]
pub struct LoggingConfig {
    pub level: Option<Vec<(String, String)>>,
}

/// The log file's location.
#[derive(Clone, Debug)]
pub struct LoggingFileConfig {
    pub name: Option<String>,
}

/// The listener settings.
#[derive(Clone, Debug)]
pub struct ServerConfig {
    pub port: Option<u16>,
}

/// Documentation gateway settings.
#[derive(Clone, Debug)]
pub struct KfConfig {
    pub gateway: Option<KfGatewayConfig>,
}

/// The documentation gateway block.
#[derive(Clone, Debug)]
pub struct KfGatewayConfig {
    pub enabled: Option<bool>,
    pub routes: Option<Vec<KfGatewayRoute>>,
}

/// One documented service route.
#[derive(Clone, Debug)]
pub struct KfGatewayRoute {
    pub name: Option<String>,
    pub service_name: Option<String>,
    pub url: Option<String>,
}

/// Project information settings.
#[derive(Clone, Debug)]
pub struct YuDaoConfig {
    pub info: Option<YuDaoInfo>,
}

/// Project version information.
#[derive(Clone, Debug)]
pub struct YuDaoInfo {
    pub version: Option<String>,
}

/// Whether every element of an array materializes as one entry.
pub open spec fn kf_gateway_route_list_decodable(items: Seq<Tree>) -> bool {
    forall|i: int| 0 <= i < items.len() ==> KfGatewayRoute::decodable(#[trigger] items[i])
}

/// What the elements materialize to, one for one.
pub open spec fn kf_gateway_route_list_matches(items: Seq<Tree>, rs: Seq<KfGatewayRoute>) -> bool {
    rs.len() == items.len() && forall|i: int|
        0 <= i < items.len() ==> KfGatewayRoute::decodes_to(#[trigger] items[i], rs[i])
}

#[verifier::loop_isolation(false)]
fn decode_kf_gateway_route_list(items: &Vec<ConfigValue>) -> (r: Result<Vec<KfGatewayRoute>, ConfigError>)
    ensures
        r is Ok <==> kf_gateway_route_list_decodable(arr_views(items@)),
        r matches Ok(v) ==> kf_gateway_route_list_matches(arr_views(items@), v@),
        r matches Err(e) ==> e@ is Decode,
{
    let ghost views = arr_views(items@);
    proof {
        lemma_arr_views(items@);
    }
    let mut out: Vec<KfGatewayRoute> = Vec::new();
    let mut i: usize = 0;
    while i < items.len()
        invariant
            i <= items.len(),
            out@.len() == i,
            forall|m: int| 0 <= m < i ==> KfGatewayRoute::decodable(#[trigger] views[m]),
            forall|m: int| 0 <= m < i ==> KfGatewayRoute::decodes_to(#[trigger] views[m], out@[m]),
        decreases items.len() - i,
    {
        let d = KfGatewayRoute::decode(&items[i])?;
        out.push(d);
        i = i + 1;
    }
    Ok(out)
}

/// Whether every element of an array materializes as one entry.
pub open spec fn route_definition_list_decodable(items: Seq<Tree>) -> bool {
    forall|i: int| 0 <= i < items.len() ==> RouteDefinition::decodable(#[trigger] items[i])
}

/// What the elements materialize to, one for one.
pub open spec fn route_definition_list_matches(items: Seq<Tree>, rs: Seq<RouteDefinition>) -> bool {
    rs.len() == items.len() && forall|i: int|
        0 <= i < items.len() ==> RouteDefinition::decodes_to(#[trigger] items[i], rs[i])
}

#[verifier::loop_isolation(false)]
fn decode_route_definition_list(items: &Vec<ConfigValue>) -> (r: Result<Vec<RouteDefinition>, ConfigError>)
    ensures
        r is Ok <==> route_definition_list_decodable(arr_views(items@)),
        r matches Ok(v) ==> route_definition_list_matches(arr_views(items@), v@),
        r matches Err(e) ==> e@ is Decode,
{
    let ghost views = arr_views(items@);
    proof {
        lemma_arr_views(items@);
    }
    let mut out: Vec<RouteDefinition> = Vec::new();
    let mut i: usize = 0;
    while i < items.len()
        invariant
            i <= items.len(),
            out@.len() == i,
            forall|m: int| 0 <= m < i ==> RouteDefinition::decodable(#[trigger] views[m]),
            forall|m: int| 0 <= m < i ==> RouteDefinition::decodes_to(#[trigger] views[m], out@[m]),
        decreases items.len() - i,
    {
        let d = RouteDefinition::decode(&items[i])?;
        out.push(d);
        i = i + 1;
    }
    Ok(out)
}

impl DyConfiguration {
    /// Whether a tree materializes into this structure.
    pub open spec fn decodable(t: Tree) -> bool {
        &&& t is Obj
        &&& match opt_node(t, "spring"@) {
            None => true,
            Some(sub) => SpringConfig::decodable(sub),
        }
        &&& match opt_node(t, "logging"@) {
            None => true,
            Some(sub) => LoggingConfig::decodable(sub),
        }
        &&& match opt_node(t, "server"@) {
            None => true,
            Some(sub) => ServerConfig::decodable(sub),
        }
        &&& match opt_node(t, "knife4j"@) {
            None => true,
            Some(sub) => KfConfig::decodable(sub),
        }
        &&& match opt_node(t, "yudao"@) {
            None => true,
            Some(sub) => YuDaoConfig::decodable(sub),
        }
    }

    /// What the materialization yields.
    pub open spec fn decodes_to(t: Tree, c: Self) -> bool {
        &&& match opt_node(t, "spring"@) {
            None => c.spring is None,
            Some(sub) => c.spring matches Some(x) && SpringConfig::decodes_to(sub, x),
        }
        &&& match opt_node(t, "logging"@) {
            None => c.logging is None,
            Some(sub) => c.logging matches Some(x) && LoggingConfig::decodes_to(sub, x),
        }
        &&& match opt_node(t, "server"@) {
            None => c.server is None,
            Some(sub) => c.server matches Some(x) && ServerConfig::decodes_to(sub, x),
        }
        &&& match opt_node(t, "knife4j"@) {
            None => c.knife4j is None,
            Some(sub) => c.knife4j matches Some(x) && KfConfig::decodes_to(sub, x),
        }
        &&& match opt_node(t, "yudao"@) {
            None => c.yudao is None,
            Some(sub) => c.yudao matches Some(x) && YuDaoConfig::decodes_to(sub, x),
        }
    }

    /// Materializes the structure; a mistyped field is an error.
    pub fn decode(t: &ConfigValue) -> (r: Result<Self, ConfigError>)
        ensures
            r is Ok <==> Self::decodable(t@),
            r matches Ok(c) ==> Self::decodes_to(t@, c),
            r matches Err(e) ==> e@ is Decode,
    {
        if !matches!(t, ConfigValue::Obj(_)) {
            return Err(ConfigError::Decode("DyConfiguration".to_owned()));
        }
        let spring = match obj_get(t, &"spring".to_owned()) {
            None => None,
            Some(sub) => match sub {
                ConfigValue::Null => None,
                _ => Some(SpringConfig::decode(sub)?),
            },
        };
        let logging = match obj_get(t, &"logging".to_owned()) {
            None => None,
            Some(sub) => match sub {
                ConfigValue::Null => None,
                _ => Some(LoggingConfig::decode(sub)?),
            },
        };
        let server = match obj_get(t, &"server".to_owned()) {
            None => None,
            Some(sub) => match sub {
                ConfigValue::Null => None,
                _ => Some(ServerConfig::decode(sub)?),
            },
        };
        let knife4j = match obj_get(t, &"knife4j".to_owned()) {
            None => None,
            Some(sub) => match sub {
                ConfigValue::Null => None,
                _ => Some(KfConfig::decode(sub)?),
            },
        };
        let yudao = match obj_get(t, &"yudao".to_owned()) {
            None => None,
            Some(sub) => match sub {
                ConfigValue::Null => None,
                _ => Some(YuDaoConfig::decode(sub)?),
            },
        };
        Ok(DyConfiguration { spring, logging, server, knife4j, yudao })
    }
}

impl SpringConfig {
    /// Whether a tree materializes into this structure.
    pub open spec fn decodable(t: Tree) -> bool {
        &&& t is Obj
        &&& match opt_node(t, "profiles"@) {
            None => true,
            Some(sub) => SpringProfileConfig::decodable(sub),
        }
        &&& match opt_node(t, "application"@) {
            None => true,
            Some(sub) => ApplicationConfig::decodable(sub),
        }
        &&& match opt_node(t, "http"@) {
            None => true,
            Some(sub) => HttpConfig::decodable(sub),
        }
        &&& match opt_node(t, "jackson"@) {
            None => true,
            Some(sub) => JacksonConfig::decodable(sub),
        }
        &&& match opt_node(t, "main"@) {
            None => true,
            Some(sub) => MainConfig::decodable(sub),
        }
        &&& match opt_node(t, "config"@) {
            None => true,
            Some(sub) => SpringImportConfig::decodable(sub),
        }
        &&& match opt_node(t, "cloud"@) {
            None => true,
            Some(sub) => CloudConfig::decodable(sub),
        }
    }

    /// What the materialization yields.
    pub open spec fn decodes_to(t: Tree, c: Self) -> bool {
        &&& match opt_node(t, "profiles"@) {
            None => c.profiles is None,
            Some(sub) => c.profiles matches Some(x) && SpringProfileConfig::decodes_to(sub, x),
        }
        &&& match opt_node(t, "application"@) {
            None => c.application is None,
            Some(sub) => c.application matches Some(x) && ApplicationConfig::decodes_to(sub, x),
        }
        &&& match opt_node(t, "http"@) {
            None => c.http is None,
            Some(sub) => c.http matches Some(x) && HttpConfig::decodes_to(sub, x),
        }
        &&& match opt_node(t, "jackson"@) {
            None => c.jackson is None,
            Some(sub) => c.jackson matches Some(x) && JacksonConfig::decodes_to(sub, x),
        }
        &&& match opt_node(t, "main"@) {
            None => c.main is None,
            Some(sub) => c.main matches Some(x) && MainConfig::decodes_to(sub, x),
        }
        &&& match opt_node(t, "config"@) {
            None => c.config is None,
            Some(sub) => c.config matches Some(x) && SpringImportConfig::decodes_to(sub, x),
        }
        &&& match opt_node(t, "cloud"@) {
            None => c.cloud is None,
            Some(sub) => c.cloud matches Some(x) && CloudConfig::decodes_to(sub, x),
        }
    }

    /// Materializes the structure; a mistyped field is an error.
    pub fn decode(t: &ConfigValue) -> (r: Result<Self, ConfigError>)
        ensures
            r is Ok <==> Self::decodable(t@),
            r matches Ok(c) ==> Self::decodes_to(t@, c),
            r matches Err(e) ==> e@ is Decode,
    {
        if !matches!(t, ConfigValue::Obj(_)) {
            return Err(ConfigError::Decode("SpringConfig".to_owned()));
        }
        let profiles = match obj_get(t, &"profiles".to_owned()) {
            None => None,
            Some(sub) => match sub {
                ConfigValue::Null => None,
                _ => Some(SpringProfileConfig::decode(sub)?),
            },
        };
        let application = match obj_get(t, &"application".to_owned()) {
            None => None,
            Some(sub) => match sub {
                ConfigValue::Null => None,
                _ => Some(ApplicationConfig::decode(sub)?),
            },
        };
        let http = match obj_get(t, &"http".to_owned()) {
            None => None,
            Some(sub) => match sub {
                ConfigValue::Null => None,
                _ => Some(HttpConfig::decode(sub)?),
            },
        };
        let jackson = match obj_get(t, &"jackson".to_owned()) {
            None => None,
            Some(sub) => match sub {
                ConfigValue::Null => None,
                _ => Some(JacksonConfig::decode(sub)?),
            },
        };
        let main = match obj_get(t, &"main".to_owned()) {
            None => None,
            Some(sub) => match sub {
                ConfigValue::Null => None,
                _ => Some(MainConfig::decode(sub)?),
            },
        };
        let config = match obj_get(t, &"config".to_owned()) {
            None => None,
            Some(sub) => match sub {
                ConfigValue::Null => None,
                _ => Some(SpringImportConfig::decode(sub)?),
            },
        };
        let cloud = match obj_get(t, &"cloud".to_owned()) {
            None => None,
            Some(sub) => match sub {
                ConfigValue::Null => None,
                _ => Some(CloudConfig::decode(sub)?),
            },
        };
        Ok(SpringConfig { profiles, application, http, jackson, main, config, cloud })
    }
}

impl GatewayCloudConfig {
    /// Whether a tree materializes into this structure.
    pub open spec fn decodable(t: Tree) -> bool {
        &&& t is Obj
        &&& match opt_node(t, "server"@) {
            None => true,
            Some(sub) => GatewayServerConfig::decodable(sub),
        }
        &&& match opt_node(t, "x-forwarded"@) {
            None => true,
            Some(sub) => XForwardedConfig::decodable(sub),
        }
    }

    /// What the materialization yields.
    pub open spec fn decodes_to(t: Tree, c: Self) -> bool {
        &&& match opt_node(t, "server"@) {
            None => c.server is None,
            Some(sub) => c.server matches Some(x) && GatewayServerConfig::decodes_to(sub, x),
        }
        &&& match opt_node(t, "x-forwarded"@) {
            None => c.x_forwarded is None,
            Some(sub) => c.x_forwarded matches Some(x) && XForwardedConfig::decodes_to(sub, x),
        }
    }

    /// Materializes the structure; a mistyped field is an error.
    pub fn decode(t: &ConfigValue) -> (r: Result<Self, ConfigError>)
        ensures
            r is Ok <==> Self::decodable(t@),
            r matches Ok(c) ==> Self::decodes_to(t@, c),
            r matches Err(e) ==> e@ is Decode,
    {
        if !matches!(t, ConfigValue::Obj(_)) {
            return Err(ConfigError::Decode("GatewayCloudConfig".to_owned()));
        }
        let server = match obj_get(t, &"server".to_owned()) {
            None => None,
            Some(sub) => match sub {
                ConfigValue::Null => None,
                _ => Some(GatewayServerConfig::decode(sub)?),
            },
        };
        let x_forwarded = match obj_get(t, &"x-forwarded".to_owned()) {
            None => None,
            Some(sub) => match sub {
                ConfigValue::Null => None,
                _ => Some(XForwardedConfig::decode(sub)?),
            },
        };
        Ok(GatewayCloudConfig { server, x_forwarded })
    }
}

impl GatewayServerConfig {
    /// Whether a tree materializes into this structure.
    pub open spec fn decodable(t: Tree) -> bool {
        &&& t is Obj
        &&& match opt_node(t, "webflux"@) {
            None => true,
            Some(sub) => WebfluxConfig::decodable(sub),
        }
    }

    /// What the materialization yields.
    pub open spec fn decodes_to(t: Tree, c: Self) -> bool {
        &&& match opt_node(t, "webflux"@) {
            None => c.webflux is None,
            Some(sub) => c.webflux matches Some(x) && WebfluxConfig::decodes_to(sub, x),
        }
    }

    /// Materializes the structure; a mistyped field is an error.
    pub fn decode(t: &ConfigValue) -> (r: Result<Self, ConfigError>)
        ensures
            r is Ok <==> Self::decodable(t@),
            r matches Ok(c) ==> Self::decodes_to(t@, c),
            r matches Err(e) ==> e@ is Decode,
    {
        if !matches!(t, ConfigValue::Obj(_)) {
            return Err(ConfigError::Decode("GatewayServerConfig".to_owned()));
        }
        let webflux = match obj_get(t, &"webflux".to_owned()) {
            None => None,
            Some(sub) => match sub {
                ConfigValue::Null => None,
                _ => Some(WebfluxConfig::decode(sub)?),
            },
        };
        Ok(GatewayServerConfig { webflux })
    }
}

impl WebfluxConfig {
    /// Whether a tree materializes into this structure.
    pub open spec fn decodable(t: Tree) -> bool {
        &&& t is Obj
        &&& match opt_node(t, "routes"@) {
            None => true,
            Some(Tree::Arr(items)) => route_definition_list_decodable(items),
            Some(_) => false,
        }
    }

    /// What the materialization yields.
    pub open spec fn decodes_to(t: Tree, c: Self) -> bool {
        &&& match opt_node(t, "routes"@) {
            None => c.routes is None,
            Some(Tree::Arr(items)) => c.routes matches Some(v) && route_definition_list_matches(items, v@),
            Some(_) => false,
        }
    }

    /// Materializes the structure; a mistyped field is an error.
    pub fn decode(t: &ConfigValue) -> (r: Result<Self, ConfigError>)
        ensures
            r is Ok <==> Self::decodable(t@),
            r matches Ok(c) ==> Self::decodes_to(t@, c),
            r matches Err(e) ==> e@ is Decode,
    {
        if !matches!(t, ConfigValue::Obj(_)) {
            return Err(ConfigError::Decode("WebfluxConfig".to_owned()));
        }
        let routes = match obj_get(t, &"routes".to_owned()) {
            None => None,
            Some(sub) => match sub {
                ConfigValue::Null => None,
                ConfigValue::Arr(items) => Some(decode_route_definition_list(items)?),
                _ => {
                    return Err(ConfigError::Decode("routes".to_owned()));
                },
            },
        };
        Ok(WebfluxConfig { routes })
    }
}

impl RouteDefinition {
    /// Whether a tree materializes into this structure.
    pub open spec fn decodable(t: Tree) -> bool {
        &&& t is Obj
        &&& opt_str_ok(t, "id"@)
        &&& opt_str_ok(t, "uri"@)
        &&& opt_str_list_ok(t, "predicates"@)
        &&& opt_str_list_ok(t, "filters"@)
    }

    /// What the materialization yields.
    pub open spec fn decodes_to(t: Tree, c: Self) -> bool {
        &&& opt_str_matches(c.id, opt_str_of(t, "id"@))
        &&& opt_str_matches(c.uri, opt_str_of(t, "uri"@))
        &&& opt_str_list_matches(c.predicates, t, "predicates"@)
        &&& opt_str_list_matches(c.filters, t, "filters"@)
    }

    /// Materializes the structure; a mistyped field is an error.
    pub fn decode(t: &ConfigValue) -> (r: Result<Self, ConfigError>)
        ensures
            r is Ok <==> Self::decodable(t@),
            r matches Ok(c) ==> Self::decodes_to(t@, c),
            r matches Err(e) ==> e@ is Decode,
    {
        if !matches!(t, ConfigValue::Obj(_)) {
            return Err(ConfigError::Decode("RouteDefinition".to_owned()));
        }
        let id = read_opt_str(t, "id")?;
        let uri = read_opt_str(t, "uri")?;
        let predicates = read_opt_str_list(t, "predicates")?;
        let filters = read_opt_str_list(t, "filters")?;
        Ok(RouteDefinition { id, uri, predicates, filters })
    }
}

impl XForwardedConfig {
    /// Whether a tree materializes into this structure.
    pub open spec fn decodable(t: Tree) -> bool {
        &&& t is Obj
        &&& opt_bool_ok(t, "prefix-enabled"@)
    }

    /// What the materialization yields.
    pub open spec fn decodes_to(t: Tree, c: Self) -> bool {
        &&& c.prefix_enabled == opt_bool_of(t, "prefix-enabled"@)
    }

    /// Materializes the structure; a mistyped field is an error.
    pub fn decode(t: &ConfigValue) -> (r: Result<Self, ConfigError>)
        ensures
            r is Ok <==> Self::decodable(t@),
            r matches Ok(c) ==> Self::decodes_to(t@, c),
            r matches Err(e) ==> e@ is Decode,
    {
        if !matches!(t, ConfigValue::Obj(_)) {
            return Err(ConfigError::Decode("XForwardedConfig".to_owned()));
        }
        let prefix_enabled = read_opt_bool(t, "prefix-enabled")?;
        Ok(XForwardedConfig { prefix_enabled })
    }
}

impl ProfilesConfig {
    /// Whether a tree materializes into this structure.
    pub open spec fn decodable(t: Tree) -> bool {
        &&& t is Obj
        &&& opt_str_ok(t, "active"@)
    }

    /// What the materialization yields.
    pub open spec fn decodes_to(t: Tree, c: Self) -> bool {
        &&& opt_str_matches(c.active, opt_str_of(t, "active"@))
    }

    /// Materializes the structure; a mistyped field is an error.
    pub fn decode(t: &ConfigValue) -> (r: Result<Self, ConfigError>)
        ensures
            r is Ok <==> Self::decodable(t@),
            r matches Ok(c) ==> Self::decodes_to(t@, c),
            r matches Err(e) ==> e@ is Decode,
    {
        if !matches!(t, ConfigValue::Obj(_)) {
            return Err(ConfigError::Decode("ProfilesConfig".to_owned()));
        }
        let active = read_opt_str(t, "active")?;
        Ok(ProfilesConfig { active })
    }
}

impl HttpConfig {
    /// Whether a tree materializes into this structure.
    pub open spec fn decodable(t: Tree) -> bool {
        &&& t is Obj
        &&& match opt_node(t, "codecs"@) {
            None => true,
            Some(sub) => HttpCodecConfig::decodable(sub),
        }
    }

    /// What the materialization yields.
    pub open spec fn decodes_to(t: Tree, c: Self) -> bool {
        &&& match opt_node(t, "codecs"@) {
            None => c.codecs is None,
            Some(sub) => c.codecs matches Some(x) && HttpCodecConfig::decodes_to(sub, x),
        }
    }

    /// Materializes the structure; a mistyped field is an error.
    pub fn decode(t: &ConfigValue) -> (r: Result<Self, ConfigError>)
        ensures
            r is Ok <==> Self::decodable(t@),
            r matches Ok(c) ==> Self::decodes_to(t@, c),
            r matches Err(e) ==> e@ is Decode,
    {
        if !matches!(t, ConfigValue::Obj(_)) {
            return Err(ConfigError::Decode("HttpConfig".to_owned()));
        }
        let codecs = match obj_get(t, &"codecs".to_owned()) {
            None => None,
            Some(sub) => match sub {
                ConfigValue::Null => None,
                _ => Some(HttpCodecConfig::decode(sub)?),
            },
        };
        Ok(HttpConfig { codecs })
    }
}

impl HttpCodecConfig {
    /// Whether a tree materializes into this structure.
    pub open spec fn decodable(t: Tree) -> bool {
        &&& t is Obj
        &&& opt_str_ok(t, "max-in-memory-size"@)
    }

    /// What the materialization yields.
    pub open spec fn decodes_to(t: Tree, c: Self) -> bool {
        &&& opt_str_matches(c.max_in_memory_size, opt_str_of(t, "max-in-memory-size"@))
    }

    /// Materializes the structure; a mistyped field is an error.
    pub fn decode(t: &ConfigValue) -> (r: Result<Self, ConfigError>)
        ensures
            r is Ok <==> Self::decodable(t@),
            r matches Ok(c) ==> Self::decodes_to(t@, c),
            r matches Err(e) ==> e@ is Decode,
    {
        if !matches!(t, ConfigValue::Obj(_)) {
            return Err(ConfigError::Decode("HttpCodecConfig".to_owned()));
        }
        let max_in_memory_size = read_opt_str(t, "max-in-memory-size")?;
        Ok(HttpCodecConfig { max_in_memory_size })
    }
}

impl JacksonConfig {
    /// Whether a tree materializes into this structure.
    pub open spec fn decodable(t: Tree) -> bool {
        &&& t is Obj
        &&& match opt_node(t, "serialization"@) {
            None => true,
            Some(sub) => JacksonSerializationConfig::decodable(sub),
        }
    }

    /// What the materialization yields.
    pub open spec fn decodes_to(t: Tree, c: Self) -> bool {
        &&& match opt_node(t, "serialization"@) {
            None => c.serialization is None,
            Some(sub) => c.serialization matches Some(x) && JacksonSerializationConfig::decodes_to(sub, x),
        }
    }

    /// Materializes the structure; a mistyped field is an error.
    pub fn decode(t: &ConfigValue) -> (r: Result<Self, ConfigError>)
        ensures
            r is Ok <==> Self::decodable(t@),
            r matches Ok(c) ==> Self::decodes_to(t@, c),
            r matches Err(e) ==> e@ is Decode,
    {
        if !matches!(t, ConfigValue::Obj(_)) {
            return Err(ConfigError::Decode("JacksonConfig".to_owned()));
        }
        let serialization = match obj_get(t, &"serialization".to_owned()) {
            None => None,
            Some(sub) => match sub {
                ConfigValue::Null => None,
                _ => Some(JacksonSerializationConfig::decode(sub)?),
            },
        };
        Ok(JacksonConfig { serialization })
    }
}

impl JacksonSerializationConfig {
    /// Whether a tree materializes into this structure.
    pub open spec fn decodable(t: Tree) -> bool {
        &&& t is Obj
        &&& opt_bool_ok(t, "write-dates-as-timestamps"@)
        &&& opt_bool_ok(t, "write-date-timestamps-as-nanoseconds"@)
        &&& opt_bool_ok(t, "write-durations-as-timestamps"@)
        &&& opt_bool_ok(t, "fail-on-empty-beans"@)
    }

    /// What the materialization yields.
    pub open spec fn decodes_to(t: Tree, c: Self) -> bool {
        &&& c.write_dates_as_timestamps == opt_bool_of(t, "write-dates-as-timestamps"@)
        &&& c.write_date_timestamps_as_nanoseconds == opt_bool_of(t, "write-date-timestamps-as-nanoseconds"@)
        &&& c.write_durations_as_timestamps == opt_bool_of(t, "write-durations-as-timestamps"@)
        &&& c.fail_on_empty_beans == opt_bool_of(t, "fail-on-empty-beans"@)
    }

    /// Materializes the structure; a mistyped field is an error.
    pub fn decode(t: &ConfigValue) -> (r: Result<Self, ConfigError>)
        ensures
            r is Ok <==> Self::decodable(t@),
            r matches Ok(c) ==> Self::decodes_to(t@, c),
            r matches Err(e) ==> e@ is Decode,
    {
        if !matches!(t, ConfigValue::Obj(_)) {
            return Err(ConfigError::Decode("JacksonSerializationConfig".to_owned()));
        }
        let write_dates_as_timestamps = read_opt_bool(t, "write-dates-as-timestamps")?;
        let write_date_timestamps_as_nanoseconds = read_opt_bool(t, "write-date-timestamps-as-nanoseconds")?;
        let write_durations_as_timestamps = read_opt_bool(t, "write-durations-as-timestamps")?;
        let fail_on_empty_beans = read_opt_bool(t, "fail-on-empty-beans")?;
        Ok(JacksonSerializationConfig { write_dates_as_timestamps, write_date_timestamps_as_nanoseconds, write_durations_as_timestamps, fail_on_empty_beans })
    }
}

impl MainConfig {
    /// Whether a tree materializes into this structure.
    pub open spec fn decodable(t: Tree) -> bool {
        &&& t is Obj
        &&& opt_bool_ok(t, "allow-circular-references"@)
    }

    /// What the materialization yields.
    pub open spec fn decodes_to(t: Tree, c: Self) -> bool {
        &&& c.allow_circular_references == opt_bool_of(t, "allow-circular-references"@)
    }

    /// Materializes the structure; a mistyped field is an error.
    pub fn decode(t: &ConfigValue) -> (r: Result<Self, ConfigError>)
        ensures
            r is Ok <==> Self::decodable(t@),
            r matches Ok(c) ==> Self::decodes_to(t@, c),
            r matches Err(e) ==> e@ is Decode,
    {
        if !matches!(t, ConfigValue::Obj(_)) {
            return Err(ConfigError::Decode("MainConfig".to_owned()));
        }
        let allow_circular_references = read_opt_bool(t, "allow-circular-references")?;
        Ok(MainConfig { allow_circular_references })
    }
}

impl SpringProfileConfig {
    /// Whether a tree materializes into this structure.
    pub open spec fn decodable(t: Tree) -> bool {
        &&& t is Obj
        &&& opt_str_ok(t, "active"@)
    }

    /// What the materialization yields.
    pub open spec fn decodes_to(t: Tree, c: Self) -> bool {
        &&& opt_str_matches(c.active, opt_str_of(t, "active"@))
    }

    /// Materializes the structure; a mistyped field is an error.
    pub fn decode(t: &ConfigValue) -> (r: Result<Self, ConfigError>)
        ensures
            r is Ok <==> Self::decodable(t@),
            r matches Ok(c) ==> Self::decodes_to(t@, c),
            r matches Err(e) ==> e@ is Decode,
    {
        if !matches!(t, ConfigValue::Obj(_)) {
            return Err(ConfigError::Decode("SpringProfileConfig".to_owned()));
        }
        let active = read_opt_str(t, "active")?;
        Ok(SpringProfileConfig { active })
    }
}

impl ApplicationConfig {
    /// Whether a tree materializes into this structure.
    pub open spec fn decodable(t: Tree) -> bool {
        &&& t is Obj
        &&& opt_str_ok(t, "name"@)
    }

    /// What the materialization yields.
    pub open spec fn decodes_to(t: Tree, c: Self) -> bool {
        &&& opt_str_matches(c.name, opt_str_of(t, "name"@))
    }

    /// Materializes the structure; a mistyped field is an error.
    pub fn decode(t: &ConfigValue) -> (r: Result<Self, ConfigError>)
        ensures
            r is Ok <==> Self::decodable(t@),
            r matches Ok(c) ==> Self::decodes_to(t@, c),
            r matches Err(e) ==> e@ is Decode,
    {
        if !matches!(t, ConfigValue::Obj(_)) {
            return Err(ConfigError::Decode("ApplicationConfig".to_owned()));
        }
        let name = read_opt_str(t, "name")?;
        Ok(ApplicationConfig { name })
    }
}

impl SpringImportConfig {
    /// Whether a tree materializes into this structure.
    pub open spec fn decodable(t: Tree) -> bool {
        &&& t is Obj
        &&& opt_str_list_ok(t, "import"@)
    }

    /// What the materialization yields.
    pub open spec fn decodes_to(t: Tree, c: Self) -> bool {
        &&& opt_str_list_matches(c.import, t, "import"@)
    }

    /// Materializes the structure; a mistyped field is an error.
    pub fn decode(t: &ConfigValue) -> (r: Result<Self, ConfigError>)
        ensures
            r is Ok <==> Self::decodable(t@),
            r matches Ok(c) ==> Self::decodes_to(t@, c),
            r matches Err(e) ==> e@ is Decode,
    {
        if !matches!(t, ConfigValue::Obj(_)) {
            return Err(ConfigError::Decode("SpringImportConfig".to_owned()));
        }
        let import = read_opt_str_list(t, "import")?;
        Ok(SpringImportConfig { import })
    }
}

impl CloudConfig {
    /// Whether a tree materializes into this structure.
    pub open spec fn decodable(t: Tree) -> bool {
        &&& t is Obj
        &&& match opt_node(t, "nacos"@) {
            None => true,
            Some(sub) => NacosConfig::decodable(sub),
        }
    }

    /// What the materialization yields.
    pub open spec fn decodes_to(t: Tree, c: Self) -> bool {
        &&& match opt_node(t, "nacos"@) {
            None => c.nacos is None,
            Some(sub) => c.nacos matches Some(x) && NacosConfig::decodes_to(sub, x),
        }
    }

    /// Materializes the structure; a mistyped field is an error.
    pub fn decode(t: &ConfigValue) -> (r: Result<Self, ConfigError>)
        ensures
            r is Ok <==> Self::decodable(t@),
            r matches Ok(c) ==> Self::decodes_to(t@, c),
            r matches Err(e) ==> e@ is Decode,
    {
        if !matches!(t, ConfigValue::Obj(_)) {
            return Err(ConfigError::Decode("CloudConfig".to_owned()));
        }
        let nacos = match obj_get(t, &"nacos".to_owned()) {
            None => None,
            Some(sub) => match sub {
                ConfigValue::Null => None,
                _ => Some(NacosConfig::decode(sub)?),
            },
        };
        Ok(CloudConfig { nacos })
    }
}

impl NacosConfig {
    /// Whether a tree materializes into this structure.
    pub open spec fn decodable(t: Tree) -> bool {
        &&& t is Obj
        &&& opt_str_ok(t, "server-addr"@)
        &&& opt_str_ok(t, "username"@)
        &&& opt_str_ok(t, "password"@)
        &&& match opt_node(t, "discovery"@) {
            None => true,
            Some(sub) => NacosNamespace::decodable(sub),
        }
        &&& match opt_node(t, "config"@) {
            None => true,
            Some(sub) => NacosNamespace::decodable(sub),
        }
    }

    /// What the materialization yields.
    pub open spec fn decodes_to(t: Tree, c: Self) -> bool {
        &&& opt_str_matches(c.server_addr, opt_str_of(t, "server-addr"@))
        &&& opt_str_matches(c.username, opt_str_of(t, "username"@))
        &&& opt_str_matches(c.password, opt_str_of(t, "password"@))
        &&& match opt_node(t, "discovery"@) {
            None => c.discovery is None,
            Some(sub) => c.discovery matches Some(x) && NacosNamespace::decodes_to(sub, x),
        }
        &&& match opt_node(t, "config"@) {
            None => c.config is None,
            Some(sub) => c.config matches Some(x) && NacosNamespace::decodes_to(sub, x),
        }
    }

    /// Materializes the structure; a mistyped field is an error.
    pub fn decode(t: &ConfigValue) -> (r: Result<Self, ConfigError>)
        ensures
            r is Ok <==> Self::decodable(t@),
            r matches Ok(c) ==> Self::decodes_to(t@, c),
            r matches Err(e) ==> e@ is Decode,
    {
        if !matches!(t, ConfigValue::Obj(_)) {
            return Err(ConfigError::Decode("NacosConfig".to_owned()));
        }
        let server_addr = read_opt_str(t, "server-addr")?;
        let username = read_opt_str(t, "username")?;
        let password = read_opt_str(t, "password")?;
        let discovery = match obj_get(t, &"discovery".to_owned()) {
            None => None,
            Some(sub) => match sub {
                ConfigValue::Null => None,
                _ => Some(NacosNamespace::decode(sub)?),
            },
        };
        let config = match obj_get(t, &"config".to_owned()) {
            None => None,
            Some(sub) => match sub {
                ConfigValue::Null => None,
                _ => Some(NacosNamespace::decode(sub)?),
            },
        };
        Ok(NacosConfig { server_addr, username, password, discovery, config })
    }
}

impl NacosNamespace {
    /// Whether a tree materializes into this structure.
    pub open spec fn decodable(t: Tree) -> bool {
        &&& t is Obj
        &&& opt_str_ok(t, "namespace"@)
        &&& opt_str_ok(t, "group"@)
    }

    /// What the materialization yields.
    pub open spec fn decodes_to(t: Tree, c: Self) -> bool {
        &&& opt_str_matches(c.namespace, opt_str_of(t, "namespace"@))
        &&& opt_str_matches(c.group, opt_str_of(t, "group"@))
    }

    /// Materializes the structure; a mistyped field is an error.
    pub fn decode(t: &ConfigValue) -> (r: Result<Self, ConfigError>)
        ensures
            r is Ok <==> Self::decodable(t@),
            r matches Ok(c) ==> Self::decodes_to(t@, c),
            r matches Err(e) ==> e@ is Decode,
    {
        if !matches!(t, ConfigValue::Obj(_)) {
            return Err(ConfigError::Decode("NacosNamespace".to_owned()));
        }
        let namespace = read_opt_str(t, "namespace")?;
        let group = read_opt_str(t, "group")?;
        Ok(NacosNamespace { namespace, group })
    }
}

impl LoggingConfig {
    /// Whether a tree materializes into this structure.
    pub open spec fn decodable(t: Tree) -> bool {
        &&& t is Obj
        &&& opt_str_table_ok(t, "level"@)
    }

    /// What the materialization yields.
    pub open spec fn decodes_to(t: Tree, c: Self) -> bool {
        &&& opt_str_table_matches(c.level, t, "level"@)
    }

    /// Materializes the structure; a mistyped field is an error.
    pub fn decode(t: &ConfigValue) -> (r: Result<Self, ConfigError>)
        ensures
            r is Ok <==> Self::decodable(t@),
            r matches Ok(c) ==> Self::decodes_to(t@, c),
            r matches Err(e) ==> e@ is Decode,
    {
        if !matches!(t, ConfigValue::Obj(_)) {
            return Err(ConfigError::Decode("LoggingConfig".to_owned()));
        }
        let level = read_opt_str_table(t, "level")?;
        Ok(LoggingConfig { level })
    }
}

impl LoggingFileConfig {
    /// Whether a tree materializes into this structure.
    pub open spec fn decodable(t: Tree) -> bool {
        &&& t is Obj
        &&& opt_str_ok(t, "name"@)
    }

    /// What the materialization yields.
    pub open spec fn decodes_to(t: Tree, c: Self) -> bool {
        &&& opt_str_matches(c.name, opt_str_of(t, "name"@))
    }

    /// Materializes the structure; a mistyped field is an error.
    pub fn decode(t: &ConfigValue) -> (r: Result<Self, ConfigError>)
        ensures
            r is Ok <==> Self::decodable(t@),
            r matches Ok(c) ==> Self::decodes_to(t@, c),
            r matches Err(e) ==> e@ is Decode,
    {
        if !matches!(t, ConfigValue::Obj(_)) {
            return Err(ConfigError::Decode("LoggingFileConfig".to_owned()));
        }
        let name = read_opt_str(t, "name")?;
        Ok(LoggingFileConfig { name })
    }
}

impl ServerConfig {
    /// Whether a tree materializes into this structure.
    pub open spec fn decodable(t: Tree) -> bool {
        &&& t is Obj
        &&& opt_u16_ok(t, "port"@)
    }

    /// What the materialization yields.
    pub open spec fn decodes_to(t: Tree, c: Self) -> bool {
        &&& opt_u16_matches(c.port, opt_u16_of(t, "port"@))
    }

    /// Materializes the structure; a mistyped field is an error.
    pub fn decode(t: &ConfigValue) -> (r: Result<Self, ConfigError>)
        ensures
            r is Ok <==> Self::decodable(t@),
            r matches Ok(c) ==> Self::decodes_to(t@, c),
            r matches Err(e) ==> e@ is Decode,
    {
        if !matches!(t, ConfigValue::Obj(_)) {
            return Err(ConfigError::Decode("ServerConfig".to_owned()));
        }
        let port = read_opt_u16(t, "port")?;
        Ok(ServerConfig { port })
    }
}

impl KfConfig {
    /// Whether a tree materializes into this structure.
    pub open spec fn decodable(t: Tree) -> bool {
        &&& t is Obj
        &&& match opt_node(t, "gateway"@) {
            None => true,
            Some(sub) => KfGatewayConfig::decodable(sub),
        }
    }

    /// What the materialization yields.
    pub open spec fn decodes_to(t: Tree, c: Self) -> bool {
        &&& match opt_node(t, "gateway"@) {
            None => c.gateway is None,
            Some(sub) => c.gateway matches Some(x) && KfGatewayConfig::decodes_to(sub, x),
        }
    }

    /// Materializes the structure; a mistyped field is an error.
    pub fn decode(t: &ConfigValue) -> (r: Result<Self, ConfigError>)
        ensures
            r is Ok <==> Self::decodable(t@),
            r matches Ok(c) ==> Self::decodes_to(t@, c),
            r matches Err(e) ==> e@ is Decode,
    {
        if !matches!(t, ConfigValue::Obj(_)) {
            return Err(ConfigError::Decode("KfConfig".to_owned()));
        }
        let gateway = match obj_get(t, &"gateway".to_owned()) {
            None => None,
            Some(sub) => match sub {
                ConfigValue::Null => None,
                _ => Some(KfGatewayConfig::decode(sub)?),
            },
        };
        Ok(KfConfig { gateway })
    }
}

impl KfGatewayConfig {
    /// Whether a tree materializes into this structure.
    pub open spec fn decodable(t: Tree) -> bool {
        &&& t is Obj
        &&& opt_bool_ok(t, "enabled"@)
        &&& match opt_node(t, "routes"@) {
            None => true,
            Some(Tree::Arr(items)) => kf_gateway_route_list_decodable(items),
            Some(_) => false,
        }
    }

    /// What the materialization yields.
    pub open spec fn decodes_to(t: Tree, c: Self) -> bool {
        &&& c.enabled == opt_bool_of(t, "enabled"@)
        &&& match opt_node(t, "routes"@) {
            None => c.routes is None,
            Some(Tree::Arr(items)) => c.routes matches Some(v) && kf_gateway_route_list_matches(items, v@),
            Some(_) => false,
        }
    }

    /// Materializes the structure; a mistyped field is an error.
    pub fn decode(t: &ConfigValue) -> (r: Result<Self, ConfigError>)
        ensures
            r is Ok <==> Self::decodable(t@),
            r matches Ok(c) ==> Self::decodes_to(t@, c),
            r matches Err(e) ==> e@ is Decode,
    {
        if !matches!(t, ConfigValue::Obj(_)) {
            return Err(ConfigError::Decode("KfGatewayConfig".to_owned()));
        }
        let enabled = read_opt_bool(t, "enabled")?;
        let routes = match obj_get(t, &"routes".to_owned()) {
            None => None,
            Some(sub) => match sub {
                ConfigValue::Null => None,
                ConfigValue::Arr(items) => Some(decode_kf_gateway_route_list(items)?),
                _ => {
                    return Err(ConfigError::Decode("routes".to_owned()));
                },
            },
        };
        Ok(KfGatewayConfig { enabled, routes })
    }
}

impl KfGatewayRoute {
    /// Whether a tree materializes into this structure.
    pub open spec fn decodable(t: Tree) -> bool {
        &&& t is Obj
        &&& opt_str_ok(t, "name"@)
        &&& opt_str_ok(t, "service-name"@)
        &&& opt_str_ok(t, "url"@)
    }

    /// What the materialization yields.
    pub open spec fn decodes_to(t: Tree, c: Self) -> bool {
        &&& opt_str_matches(c.name, opt_str_of(t, "name"@))
        &&& opt_str_matches(c.service_name, opt_str_of(t, "service-name"@))
        &&& opt_str_matches(c.url, opt_str_of(t, "url"@))
    }

    /// Materializes the structure; a mistyped field is an error.
    pub fn decode(t: &ConfigValue) -> (r: Result<Self, ConfigError>)
        ensures
            r is Ok <==> Self::decodable(t@),
            r matches Ok(c) ==> Self::decodes_to(t@, c),
            r matches Err(e) ==> e@ is Decode,
    {
        if !matches!(t, ConfigValue::Obj(_)) {
            return Err(ConfigError::Decode("KfGatewayRoute".to_owned()));
        }
        let name = read_opt_str(t, "name")?;
        let service_name = read_opt_str(t, "service-name")?;
        let url = read_opt_str(t, "url")?;
        Ok(KfGatewayRoute { name, service_name, url })
    }
}

impl YuDaoConfig {
    /// Whether a tree materializes into this structure.
    pub open spec fn decodable(t: Tree) -> bool {
        &&& t is Obj
        &&& match opt_node(t, "info"@) {
            None => true,
            Some(sub) => YuDaoInfo::decodable(sub),
        }
    }

    /// What the materialization yields.
    pub open spec fn decodes_to(t: Tree, c: Self) -> bool {
        &&& match opt_node(t, "info"@) {
            None => c.info is None,
            Some(sub) => c.info matches Some(x) && YuDaoInfo::decodes_to(sub, x),
        }
    }

    /// Materializes the structure; a mistyped field is an error.
    pub fn decode(t: &ConfigValue) -> (r: Result<Self, ConfigError>)
        ensures
            r is Ok <==> Self::decodable(t@),
            r matches Ok(c) ==> Self::decodes_to(t@, c),
            r matches Err(e) ==> e@ is Decode,
    {
        if !matches!(t, ConfigValue::Obj(_)) {
            return Err(ConfigError::Decode("YuDaoConfig".to_owned()));
        }
        let info = match obj_get(t, &"info".to_owned()) {
            None => None,
            Some(sub) => match sub {
                ConfigValue::Null => None,
                _ => Some(YuDaoInfo::decode(sub)?),
            },
        };
        Ok(YuDaoConfig { info })
    }
}

impl YuDaoInfo {
    /// Whether a tree materializes into this structure.
    pub open spec fn decodable(t: Tree) -> bool {
        &&& t is Obj
        &&& opt_str_ok(t, "version"@)
    }

    /// What the materialization yields.
    pub open spec fn decodes_to(t: Tree, c: Self) -> bool {
        &&& opt_str_matches(c.version, opt_str_of(t, "version"@))
    }

    /// Materializes the structure; a mistyped field is an error.
    pub fn decode(t: &ConfigValue) -> (r: Result<Self, ConfigError>)
        ensures
            r is Ok <==> Self::decodable(t@),
            r matches Ok(c) ==> Self::decodes_to(t@, c),
            r matches Err(e) ==> e@ is Decode,
    {
        if !matches!(t, ConfigValue::Obj(_)) {
            return Err(ConfigError::Decode("YuDaoInfo".to_owned()));
        }
        let version = read_opt_str(t, "version")?;
        Ok(YuDaoInfo { version })
    }
}

} // verus!
