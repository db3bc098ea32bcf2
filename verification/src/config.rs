//! What the programs read from their environment.
//!
//! Each program takes the values of its variables, where they are set, and
//! either gets its configuration or the message that it stops with.

use crate::bytes::text_eq;
use crate::http_server::option_view;
use crate::numbers::{parse_port, port_value};
use vstd::prelude::*;

verus! {

/// The message that a program stops with.
#[derive(Debug, PartialEq)]
pub struct ConfigError {
    pub message: String,
}

/// The database that a program talks to.
#[derive(Debug, PartialEq)]
pub enum Backend {
    /// Scylla, through its DynamoDB interface.
    Scylla { endpoint: String },
    /// A local DynamoDB.
    Local { endpoint: String },
    /// DynamoDB in the region of the environment.
    Cloud,
}

/// What a [`Backend`] holds.
pub enum BackendView {
    Scylla { endpoint: Seq<char> },
    Local { endpoint: Seq<char> },
    Cloud,
}

impl View for Backend {
    type V = BackendView;

    open spec fn view(&self) -> BackendView {
        match self {
            Backend::Scylla { endpoint } => BackendView::Scylla { endpoint: endpoint@ },
            Backend::Local { endpoint } => BackendView::Local { endpoint: endpoint@ },
            Backend::Cloud => BackendView::Cloud,
        }
    }
}

impl Backend {
    /// The region that is used: a fixed one, or the fallback where the
    /// environment names none.
    pub fn region(&self) -> (region: String)
        ensures
            region@ == match self@ {
                BackendView::Scylla { .. } => "None"@,
                BackendView::Local { .. } => "local"@,
                BackendView::Cloud => "eu-central-1"@,
            },
    {
        match self {
            Backend::Scylla { .. } => "None".to_owned(),
            Backend::Local { .. } => "local".to_owned(),
            Backend::Cloud => "eu-central-1".to_owned(),
        }
    }
}

/// A variable switches something on where it is set to `true`.
pub open spec fn switched_on(variable: Option<Seq<char>>) -> bool {
    variable == Some("true"@)
}

/// The value of a variable, or a default.
pub open spec fn value_or(variable: Option<Seq<char>>, default: Seq<char>) -> Seq<char> {
    match variable {
        Some(value) => value,
        None => default,
    }
}

/// Scylla or the database in the cloud. Scylla needs an endpoint.
pub open spec fn chosen_backend(
    use_scylla: Option<Seq<char>>,
    scylla_ep: Option<Seq<char>>,
    message: Seq<char>,
) -> Result<BackendView, Seq<char>> {
    if switched_on(use_scylla) {
        match scylla_ep {
            Some(endpoint) => Ok(BackendView::Scylla { endpoint }),
            None => Err(message),
        }
    } else {
        Ok(BackendView::Cloud)
    }
}

/// Whether a variable is set to `true`.
fn is_on(variable: &Option<String>) -> (on: bool)
    ensures
        on == switched_on(option_view(*variable)),
{
    match variable {
        Some(value) => text_eq(value.as_str(), "true"),
        None => false,
    }
}

/// The value of a variable, or a default.
pub(crate) fn or_default(variable: Option<String>, default: &str) -> (value: String)
    ensures
        value@ == value_or(option_view(variable), default@),
{
    match variable {
        Some(value) => value,
        None => default.to_owned(),
    }
}

/// The value of a variable that must be set.
pub(crate) fn required(variable: Option<String>, message: &str) -> (r: Result<String, ConfigError>)
    ensures
        match r {
            Ok(value) => option_view(variable) == Some(value@),
            Err(error) => variable is None && error.message@ == message@,
        },
{
    match variable {
        Some(value) => Ok(value),
        None => Err(ConfigError { message: message.to_owned() }),
    }
}

/// The port that a variable names.
pub(crate) fn port_of(variable: Option<String>, default: &str, message: &str) -> (r: Result<
    u16,
    ConfigError,
>)
    ensures
        match r {
            Ok(port) => port_value(value_or(option_view(variable), default@)) == Some(port),
            Err(error) => {
                &&& port_value(value_or(option_view(variable), default@)) is None
                &&& error.message@ == message@
            },
        },
{
    let text: String = or_default(variable, default);
    match parse_port(text.as_str()) {
        Some(port) => Ok(port),
        None => Err(ConfigError { message: message.to_owned() }),
    }
}

/// Scylla or the database in the cloud.
pub(crate) fn choose_backend(
    use_scylla: &Option<String>,
    scylla_ep: Option<String>,
    message: &str,
) -> (r: Result<Backend, ConfigError>)
    ensures
        match r {
            Ok(backend) => chosen_backend(
                option_view(*use_scylla),
                option_view(scylla_ep),
                message@,
            ) == Ok::<BackendView, Seq<char>>(backend@),
            Err(error) => chosen_backend(
                option_view(*use_scylla),
                option_view(scylla_ep),
                message@,
            ) == Err::<BackendView, Seq<char>>(error.message@),
        },
{
    if is_on(use_scylla) {
        match required(scylla_ep, message) {
            Ok(endpoint) => Ok(Backend::Scylla { endpoint }),
            Err(error) => Err(error),
        }
    } else {
        Ok(Backend::Cloud)
    }
}

/// The variables of the server that runs functions at the edge.
#[derive(Debug)]
pub struct EdgeHandlerEnv {
    pub port: Option<String>,
    pub check_url: Option<String>,
    pub remote_url: Option<String>,
    pub edge_id: Option<String>,
    pub edge_endpoint: Option<String>,
    pub use_scylla: Option<String>,
    pub scylla_ep: Option<String>,
    pub functions_dir: Option<String>,
}

/// The configuration of the server that runs functions at the edge.
#[derive(Debug, PartialEq)]
pub struct EdgeHandlerConfig {
    pub port: u16,
    pub check_url: String,
    pub remote_url: String,
    pub edge_id: String,
    pub edge_endpoint: String,
    pub functions_dir: String,
    pub backend: Backend,
}

/// What an [`EdgeHandlerConfig`] holds.
pub struct EdgeHandlerConfigView {
    pub port: u16,
    pub check_url: Seq<char>,
    pub remote_url: Seq<char>,
    pub edge_id: Seq<char>,
    pub edge_endpoint: Seq<char>,
    pub functions_dir: Seq<char>,
    pub backend: BackendView,
}

impl View for EdgeHandlerConfig {
    type V = EdgeHandlerConfigView;

    open spec fn view(&self) -> EdgeHandlerConfigView {
        EdgeHandlerConfigView {
            port: self.port,
            check_url: self.check_url@,
            remote_url: self.remote_url@,
            edge_id: self.edge_id@,
            edge_endpoint: self.edge_endpoint@,
            functions_dir: self.functions_dir@,
            backend: self.backend@,
        }
    }
}

/// The configuration of the server at the edge, or the message that it stops
/// with: that of the first variable that is wrong.
pub open spec fn edge_handler_config(env: EdgeHandlerEnv) -> Result<
    EdgeHandlerConfigView,
    Seq<char>,
> {
    let port = port_value(value_or(option_view(env.port), "8080"@));
    let backend = chosen_backend(
        option_view(env.use_scylla),
        option_view(env.scylla_ep),
        "SCYLLA_EP must be set when USE_SCYLLA=true"@,
    );
    if port is None {
        Err("PORT must be a valid port number"@)
    } else if env.check_url is None {
        Err("CHECK_URL must be set"@)
    } else if env.remote_url is None {
        Err("REMOTE_URL must be set"@)
    } else if env.edge_id is None {
        Err("EDGE_ID must be set"@)
    } else if env.edge_endpoint is None {
        Err("EDGE_ENDPOINT must be set"@)
    } else {
        match backend {
            Err(message) => Err(message),
            Ok(backend) => Ok(
                EdgeHandlerConfigView {
                    port: port->0,
                    check_url: env.check_url->0@,
                    remote_url: env.remote_url->0@,
                    edge_id: env.edge_id->0@,
                    edge_endpoint: env.edge_endpoint->0@,
                    functions_dir: value_or(option_view(env.functions_dir), "src/functions"@),
                    backend,
                },
            ),
        }
    }
}

/// Reads the configuration of the server that runs functions at the edge.
pub fn read_edge_handler_config(env: EdgeHandlerEnv) -> (r: Result<EdgeHandlerConfig, ConfigError>)
    ensures
        match r {
            Ok(config) => edge_handler_config(env) == Ok::<EdgeHandlerConfigView, Seq<char>>(
                config@,
            ),
            Err(error) => edge_handler_config(env) == Err::<EdgeHandlerConfigView, Seq<char>>(
                error.message@,
            ),
        },
{
    let port: u16 = match port_of(env.port, "8080", "PORT must be a valid port number") {
        Ok(port) => port,
        Err(error) => return Err(error),
    };
    let check_url: String = match required(env.check_url, "CHECK_URL must be set") {
        Ok(value) => value,
        Err(error) => return Err(error),
    };
    let remote_url: String = match required(env.remote_url, "REMOTE_URL must be set") {
        Ok(value) => value,
        Err(error) => return Err(error),
    };
    let edge_id: String = match required(env.edge_id, "EDGE_ID must be set") {
        Ok(value) => value,
        Err(error) => return Err(error),
    };
    let edge_endpoint: String = match required(env.edge_endpoint, "EDGE_ENDPOINT must be set") {
        Ok(value) => value,
        Err(error) => return Err(error),
    };
    let functions_dir: String = or_default(env.functions_dir, "src/functions");
    match choose_backend(
        &env.use_scylla,
        env.scylla_ep,
        "SCYLLA_EP must be set when USE_SCYLLA=true",
    ) {
        Ok(backend) => Ok(
            EdgeHandlerConfig {
                port,
                check_url,
                remote_url,
                edge_id,
                edge_endpoint,
                functions_dir,
                backend,
            },
        ),
        Err(error) => Err(error),
    }
}

/// The variables of the server that runs functions in the datacenter.
#[derive(Debug)]
pub struct DcHandlerEnv {
    pub port: Option<String>,
    pub check_url: Option<String>,
    pub use_scylla: Option<String>,
    pub scylla_ep: Option<String>,
    pub functions_dir: Option<String>,
}

/// The configuration of the server that runs functions in the datacenter.
#[derive(Debug, PartialEq)]
pub struct DcHandlerConfig {
    pub port: u16,
    pub check_url: String,
    pub functions_dir: String,
    pub backend: Backend,
}

/// What a [`DcHandlerConfig`] holds.
pub struct DcHandlerConfigView {
    pub port: u16,
    pub check_url: Seq<char>,
    pub functions_dir: Seq<char>,
    pub backend: BackendView,
}

impl View for DcHandlerConfig {
    type V = DcHandlerConfigView;

    open spec fn view(&self) -> DcHandlerConfigView {
        DcHandlerConfigView {
            port: self.port,
            check_url: self.check_url@,
            functions_dir: self.functions_dir@,
            backend: self.backend@,
        }
    }
}

/// The configuration of the server in the datacenter, or the message that it
/// stops with.
pub open spec fn dc_handler_config(env: DcHandlerEnv) -> Result<DcHandlerConfigView, Seq<char>> {
    match port_value(value_or(option_view(env.port), "8080"@)) {
        None => Err("PORT must be a valid port number"@),
        Some(port) => match chosen_backend(
            option_view(env.use_scylla),
            option_view(env.scylla_ep),
            "SCYLLA_EP must be set when USE_SCYLLA=true"@,
        ) {
            Err(message) => Err(message),
            Ok(backend) => Ok(
                DcHandlerConfigView {
                    port,
                    check_url: value_or(option_view(env.check_url), "http://localhost:8000"@),
                    functions_dir: value_or(option_view(env.functions_dir), "src/functions"@),
                    backend,
                },
            ),
        },
    }
}

/// Reads the configuration of the server that runs functions in the datacenter.
pub fn read_dc_handler_config(env: DcHandlerEnv) -> (r: Result<DcHandlerConfig, ConfigError>)
    ensures
        match r {
            Ok(config) => dc_handler_config(env) == Ok::<DcHandlerConfigView, Seq<char>>(config@),
            Err(error) => dc_handler_config(env) == Err::<DcHandlerConfigView, Seq<char>>(
                error.message@,
            ),
        },
{
    let port: u16 = match port_of(env.port, "8080", "PORT must be a valid port number") {
        Ok(port) => port,
        Err(error) => return Err(error),
    };
    let check_url: String = or_default(env.check_url, "http://localhost:8000");
    let functions_dir: String = or_default(env.functions_dir, "src/functions");
    match choose_backend(
        &env.use_scylla,
        env.scylla_ep,
        "SCYLLA_EP must be set when USE_SCYLLA=true",
    ) {
        Ok(backend) => Ok(DcHandlerConfig { port, check_url, functions_dir, backend }),
        Err(error) => Err(error),
    }
}

/// The variables of the Lambda function.
#[derive(Debug)]
pub struct LambdaEnv {
    pub deployment: Option<String>,
    pub use_scylla: Option<String>,
    pub scylla_ep: Option<String>,
    pub dynamodb_local: Option<String>,
    pub dynamodb_local_endpoint: Option<String>,
    pub check_url: Option<String>,
}

/// The configuration of the Lambda function.
#[derive(Debug, PartialEq)]
pub struct LambdaConfig {
    pub near_user: bool,
    pub backend: Backend,
    pub check_url: String,
}

/// What a [`LambdaConfig`] holds.
pub struct LambdaConfigView {
    pub near_user: bool,
    pub backend: BackendView,
    pub check_url: Seq<char>,
}

impl View for LambdaConfig {
    type V = LambdaConfigView;

    open spec fn view(&self) -> LambdaConfigView {
        LambdaConfigView {
            near_user: self.near_user,
            backend: self.backend@,
            check_url: self.check_url@,
        }
    }
}

/// Scylla, a local database or the one in the cloud.
pub open spec fn lambda_backend(env: LambdaEnv) -> Result<BackendView, Seq<char>> {
    if switched_on(option_view(env.use_scylla)) {
        match option_view(env.scylla_ep) {
            Some(endpoint) => Ok(BackendView::Scylla { endpoint }),
            None => Err("Trying to use scylla without a specified endpoint"@),
        }
    } else if switched_on(option_view(env.dynamodb_local)) {
        Ok(
            BackendView::Local {
                endpoint: value_or(
                    option_view(env.dynamodb_local_endpoint),
                    "http://localhost:8000"@,
                ),
            },
        )
    } else {
        Ok(BackendView::Cloud)
    }
}

/// The configuration of the Lambda function, or the message that it stops with.
pub open spec fn lambda_config(env: LambdaEnv) -> Result<LambdaConfigView, Seq<char>> {
    match option_view(env.deployment) {
        None => Err("DEPLOYMENT not set"@),
        Some(deployment) => if deployment != "edge"@ && deployment != "datacenter"@ {
            Err("unknown deployment env"@)
        } else {
            match lambda_backend(env) {
                Err(message) => Err(message),
                Ok(backend) => match option_view(env.check_url) {
                    None => Err("CHECK_URL not set"@),
                    Some(check_url) => Ok(
                        LambdaConfigView { near_user: deployment == "edge"@, backend, check_url },
                    ),
                },
            }
        },
    }
}

/// Reads the configuration of the Lambda function.
pub fn read_lambda_config(env: LambdaEnv) -> (r: Result<LambdaConfig, ConfigError>)
    ensures
        match r {
            Ok(config) => lambda_config(env) == Ok::<LambdaConfigView, Seq<char>>(config@),
            Err(error) => lambda_config(env) == Err::<LambdaConfigView, Seq<char>>(
                error.message@,
            ),
        },
{
    let deployment: String = match required(env.deployment, "DEPLOYMENT not set") {
        Ok(value) => value,
        Err(error) => return Err(error),
    };
    let near_user: bool = if text_eq(deployment.as_str(), "edge") {
        true
    } else if text_eq(deployment.as_str(), "datacenter") {
        false
    } else {
        return Err(ConfigError { message: "unknown deployment env".to_owned() });
    };
    let backend: Backend = if is_on(&env.use_scylla) {
        match required(env.scylla_ep, "Trying to use scylla without a specified endpoint") {
            Ok(endpoint) => Backend::Scylla { endpoint },
            Err(error) => return Err(error),
        }
    } else if is_on(&env.dynamodb_local) {
        Backend::Local {
            endpoint: or_default(env.dynamodb_local_endpoint, "http://localhost:8000"),
        }
    } else {
        Backend::Cloud
    };
    match required(env.check_url, "CHECK_URL not set") {
        Ok(check_url) => Ok(LambdaConfig { near_user, backend, check_url }),
        Err(error) => Err(error),
    }
}

} // verus!
