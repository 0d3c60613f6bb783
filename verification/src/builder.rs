//! The configuration of OpenTelemetry for a service: a builder that collects
//! the service's name, deployment environment, version, export endpoints and
//! extra resource attributes, and checks them into a `Config`.
use vstd::prelude::*;

verus! {

/// The value of a telemetry attribute (floating-point values are not held).
#[derive(Debug, Clone, PartialEq)]
pub enum Value {
    Bool(bool),
    I64(i64),
    String(String),
    BoolArray(Vec<bool>),
    I64Array(Vec<i64>),
    StringArray(Vec<String>),
}

/// The mathematical value of an attribute value.
pub enum ValueView {
    Bool(bool),
    I64(i64),
    String(Seq<char>),
    BoolArray(Seq<bool>),
    I64Array(Seq<i64>),
    StringArray(Seq<Seq<char>>),
}

impl View for Value {
    type V = ValueView;

    open spec fn view(&self) -> ValueView {
        match self {
            Value::Bool(b) => ValueView::Bool(*b),
            Value::I64(i) => ValueView::I64(*i),
            Value::String(s) => ValueView::String(s@),
            Value::BoolArray(v) => ValueView::BoolArray(v@),
            Value::I64Array(v) => ValueView::I64Array(v@),
            Value::StringArray(v) => ValueView::StringArray(v@.map_values(|s: String| s@)),
        }
    }
}

/// A telemetry attribute: a key and its value.
#[derive(Debug, Clone, PartialEq)]
pub struct KeyValue {
    pub key: String,
    pub value: Value,
}

/// The mathematical value of an attribute: its key and its value.
pub type Attribute = (Seq<char>, ValueView);

impl View for KeyValue {
    type V = Attribute;

    open spec fn view(&self) -> Attribute {
        (self.key@, self.value@)
    }
}

impl KeyValue {
    /// An attribute with a text value.
    pub fn new(key: &str, value: &str) -> (kv: KeyValue)
        ensures
            kv@ == (key@, ValueView::String(value@)),
    {
        KeyValue { key: key.to_owned(), value: Value::String(value.to_owned()) }
    }

    /// An attribute with any value.
    pub fn with_value(key: &str, value: Value) -> (kv: KeyValue)
        ensures
            kv@ == (key@, value@),
    {
        KeyValue { key: key.to_owned(), value }
    }
}

/// The attributes that a list of them stands for.
pub open spec fn attributes_view(v: Seq<KeyValue>) -> Seq<Attribute> {
    v.map_values(|kv: KeyValue| kv@)
}

/// `opentelemetry_semantic_conventions::attribute::SERVICE_VERSION`, the
/// attribute key of a service's version: `service.version`.
#[verifier::external_body]
fn service_version_key() -> (k: &'static str)
    ensures
        k@ == "service.version"@,
{
    opentelemetry_semantic_conventions::attribute::SERVICE_VERSION
}

/// `opentelemetry_semantic_conventions::attribute::DEPLOYMENT_ENVIRONMENT_NAME`,
/// the attribute key of a deployment environment: `deployment.environment.name`.
#[verifier::external_body]
fn deployment_environment_key() -> (k: &'static str)
    ensures
        k@ == "deployment.environment.name"@,
{
    opentelemetry_semantic_conventions::attribute::DEPLOYMENT_ENVIRONMENT_NAME
}

/// What a builder holds, as mathematical values.
pub struct BuilderView {
    pub attributes: Seq<Attribute>,
    pub project_name: Option<Seq<char>>,
    pub environment: Option<Seq<char>>,
    pub tracing_endpoint: Option<Seq<char>>,
    pub metrics_endpoint: Option<Seq<char>>,
}

/// The text of an optional string.
pub open spec fn opt_string_view(s: Option<String>) -> Option<Seq<char>> {
    match s {
        Some(t) => Some(t@),
        None => None,
    }
}

/// Collects the configuration of OpenTelemetry for a service.
#[derive(Debug)]
pub struct OtelBuilder {
    attributes: Vec<KeyValue>,
    project_name: Option<String>,
    environment: Option<String>,
    tracing_endpoint: Option<String>,
    metrics_endpoint: Option<String>,
}

impl View for OtelBuilder {
    type V = BuilderView;

    closed spec fn view(&self) -> BuilderView {
        BuilderView {
            attributes: attributes_view(self.attributes@),
            project_name: opt_string_view(self.project_name),
            environment: opt_string_view(self.environment),
            tracing_endpoint: opt_string_view(self.tracing_endpoint),
            metrics_endpoint: opt_string_view(self.metrics_endpoint),
        }
    }
}

/// A builder that holds nothing yet.
pub open spec fn empty_builder() -> BuilderView {
    BuilderView {
        attributes: Seq::empty(),
        project_name: None,
        environment: None,
        tracing_endpoint: None,
        metrics_endpoint: None,
    }
}

/// The builder with its project name set.
pub open spec fn with_project_name(b: BuilderView, name: Seq<char>) -> BuilderView {
    BuilderView { project_name: Some(name), ..b }
}

/// The builder with a `service.version` attribute added.
pub open spec fn with_version(b: BuilderView, version: Seq<char>) -> BuilderView {
    BuilderView {
        attributes: b.attributes.push(("service.version"@, ValueView::String(version))),
        ..b
    }
}

/// The builder with its environment set and a `deployment.environment.name`
/// attribute added.
pub open spec fn with_environment(b: BuilderView, environment: Seq<char>) -> BuilderView {
    BuilderView {
        attributes: b.attributes.push(
            ("deployment.environment.name"@, ValueView::String(environment)),
        ),
        environment: Some(environment),
        ..b
    }
}

/// The builder with its tracing endpoint set.
pub open spec fn with_tracing_endpoint(b: BuilderView, endpoint: Seq<char>) -> BuilderView {
    BuilderView { tracing_endpoint: Some(endpoint), ..b }
}

/// The builder with its metrics endpoint set.
pub open spec fn with_metrics_endpoint(b: BuilderView, endpoint: Seq<char>) -> BuilderView {
    BuilderView { metrics_endpoint: Some(endpoint), ..b }
}

/// The builder with extra attributes added after those it holds.
pub open spec fn with_attributes(b: BuilderView, attributes: Seq<Attribute>) -> BuilderView {
    BuilderView { attributes: b.attributes + attributes, ..b }
}

impl OtelBuilder {
    /// A builder that holds nothing yet.
    pub fn new() -> (b: Self)
        ensures
            b@ == empty_builder(),
    {
        let b = OtelBuilder {
            attributes: Vec::new(),
            project_name: None,
            environment: None,
            tracing_endpoint: None,
            metrics_endpoint: None,
        };
        assert(attributes_view(b.attributes@) =~= Seq::empty());
        b
    }

    /// Sets the name of the service.
    pub fn set_project_name(self, name: String) -> (b: Self)
        ensures
            b@ == with_project_name(self@, name@),
    {
        let mut b = self;
        b.project_name = Some(name);
        b
    }

    /// Adds the version of the service as the `service.version` attribute.
    pub fn set_version(self, version: String) -> (b: Self)
        ensures
            b@ == with_version(self@, version@),
    {
        let mut b = self;
        let key = service_version_key();
        b.attributes.push(KeyValue { key: key.to_owned(), value: Value::String(version) });
        proof {
            assert(attributes_view(b.attributes@) =~= self@.attributes.push(
                ("service.version"@, ValueView::String(version@)),
            ));
        }
        b
    }

    /// Sets the deployment environment, and adds it as the
    /// `deployment.environment.name` attribute.
    pub fn set_environment(self, environment: String) -> (b: Self)
        ensures
            b@ == with_environment(self@, environment@),
    {
        let mut b = self;
        let key = deployment_environment_key();
        let value = environment.clone();
        b.environment = Some(environment);
        b.attributes.push(KeyValue { key: key.to_owned(), value: Value::String(value) });
        proof {
            assert(attributes_view(b.attributes@) =~= self@.attributes.push(
                ("deployment.environment.name"@, ValueView::String(environment@)),
            ));
        }
        b
    }

    /// Sets the endpoint that traces are exported to.
    pub fn set_tracing_endpoint(self, endpoint: String) -> (b: Self)
        ensures
            b@ == with_tracing_endpoint(self@, endpoint@),
    {
        let mut b = self;
        b.tracing_endpoint = Some(endpoint);
        b
    }

    /// Sets the endpoint that metrics are exported to.
    pub fn set_metrics_endpoint(self, endpoint: String) -> (b: Self)
        ensures
            b@ == with_metrics_endpoint(self@, endpoint@),
    {
        let mut b = self;
        b.metrics_endpoint = Some(endpoint);
        b
    }

    /// Adds extra attributes to the telemetry, after those already held, in
    /// their order; `attributes` is left empty. E.g.
    /// `KeyValue::new(SERVICE_NAME, "my-service")`.
    pub fn set_attributes(self, attributes: &mut Vec<KeyValue>) -> (b: Self)
        ensures
            b@ == with_attributes(self@, attributes_view(old(attributes)@)),
            final(attributes)@.len() == 0,
    {
        let mut b = self;
        b.attributes.append(attributes);
        proof {
            assert(attributes_view(b.attributes@) =~= self@.attributes + attributes_view(old(attributes)@));
        }
        b
    }

    /// The attributes held so far, in the order they were added.
    pub fn attributes(&self) -> (r: &Vec<KeyValue>)
        ensures
            attributes_view(r@) == self@.attributes,
    {
        &self.attributes
    }
}

/// Why a builder could not be built into a configuration.
#[derive(Debug, Clone, Copy, PartialEq, Eq, Structural)]
pub enum BuildError {
    /// No environment was set.
    EnvironmentNotSet,
    /// The environment set is empty.
    EnvironmentEmpty,
    /// No project name was set.
    ProjectNameNotSet,
    /// The project name set is empty.
    ProjectNameEmpty,
}

impl BuildError {
    /// The message that describes the error.
    pub fn message(&self) -> (m: String)
        ensures
            m@ == build_error_message(*self),
    {
        match self {
            BuildError::EnvironmentNotSet => "Environment not set".to_owned(),
            BuildError::EnvironmentEmpty => "Environment cannot be empty".to_owned(),
            BuildError::ProjectNameNotSet => "Project name not set".to_owned(),
            BuildError::ProjectNameEmpty => "Project name cannot be empty".to_owned(),
        }
    }
}

/// The message of each build error.
pub open spec fn build_error_message(e: BuildError) -> Seq<char> {
    match e {
        BuildError::EnvironmentNotSet => "Environment not set"@,
        BuildError::EnvironmentEmpty => "Environment cannot be empty"@,
        BuildError::ProjectNameNotSet => "Project name not set"@,
        BuildError::ProjectNameEmpty => "Project name cannot be empty"@,
    }
}

/// The checked configuration of OpenTelemetry for a service.
#[derive(Debug, Clone, PartialEq)]
pub struct Config {
    project_name: String,
    attributes: Vec<KeyValue>,
    tracing_endpoint: Option<String>,
    metrics_endpoint: Option<String>,
}

/// What a configuration holds, as mathematical values.
pub struct ConfigView {
    pub project_name: Seq<char>,
    pub attributes: Seq<Attribute>,
    pub tracing_endpoint: Option<Seq<char>>,
    pub metrics_endpoint: Option<Seq<char>>,
}

impl View for Config {
    type V = ConfigView;

    closed spec fn view(&self) -> ConfigView {
        ConfigView {
            project_name: self.project_name@,
            attributes: attributes_view(self.attributes@),
            tracing_endpoint: opt_string_view(self.tracing_endpoint),
            metrics_endpoint: opt_string_view(self.metrics_endpoint),
        }
    }
}

/// What building gives: the configuration, where an environment and a
/// project name are set and neither is empty; otherwise the first of these
/// checks that fails, in the order environment, then project name.
pub open spec fn build_outcome(b: BuilderView) -> Result<ConfigView, BuildError> {
    match b.environment {
        None => Err(BuildError::EnvironmentNotSet),
        Some(environment) => if environment.len() == 0 {
            Err(BuildError::EnvironmentEmpty)
        } else {
            match b.project_name {
                None => Err(BuildError::ProjectNameNotSet),
                Some(name) => if name.len() == 0 {
                    Err(BuildError::ProjectNameEmpty)
                } else {
                    Ok(
                        ConfigView {
                            project_name: name,
                            attributes: b.attributes,
                            tracing_endpoint: b.tracing_endpoint,
                            metrics_endpoint: b.metrics_endpoint,
                        },
                    )
                },
            }
        },
    }
}

/// The mathematical value of the result of `build`.
pub open spec fn build_result_view(r: Result<Config, BuildError>) -> Result<ConfigView, BuildError> {
    match r {
        Ok(c) => Ok(c@),
        Err(e) => Err(e),
    }
}

impl OtelBuilder {
    /// Checks what the builder holds into a configuration: the environment
    /// and the project name must both be set and nonempty.
    pub fn build(self) -> (r: Result<Config, BuildError>)
        ensures
            build_result_view(r) == build_outcome(self@),
            r matches Ok(c) ==> c@.tracing_endpoint == self@.tracing_endpoint
                && c@.metrics_endpoint == self@.metrics_endpoint && c@.attributes == self@.attributes
                && self@.project_name == Some(c@.project_name),
    {
        let OtelBuilder { attributes, project_name, environment, tracing_endpoint, metrics_endpoint } =
            self;
        let environment = match environment {
            None => return Err(BuildError::EnvironmentNotSet),
            Some(e) => e,
        };
        if environment.as_str().is_empty() {
            return Err(BuildError::EnvironmentEmpty);
        }
        let project_name = match project_name {
            None => return Err(BuildError::ProjectNameNotSet),
            Some(p) => p,
        };
        if project_name.as_str().is_empty() {
            return Err(BuildError::ProjectNameEmpty);
        }
        Ok(Config { project_name, attributes, tracing_endpoint, metrics_endpoint })
    }
}

/// The endpoint that telemetry is exported to: the endpoint set, unless it is
/// empty; without one that export is disabled.
pub open spec fn export_endpoint(endpoint: Option<Seq<char>>) -> Option<Seq<char>> {
    match endpoint {
        Some(e) => if e.len() == 0 { None } else { Some(e) },
        None => None,
    }
}

/// The text of an optional string slice.
pub open spec fn opt_str_view(s: Option<&str>) -> Option<Seq<char>> {
    match s {
        Some(t) => Some(t@),
        None => None,
    }
}

impl Config {
    /// The name of the service.
    pub fn project_name(&self) -> (r: &str)
        ensures
            r@ == self@.project_name,
    {
        self.project_name.as_str()
    }

    /// The attributes of the telemetry, in the order they were added.
    pub fn attributes(&self) -> (r: &Vec<KeyValue>)
        ensures
            attributes_view(r@) == self@.attributes,
    {
        &self.attributes
    }

    /// The tracing endpoint set, if any (possibly empty).
    pub fn tracing_endpoint(&self) -> (r: Option<&str>)
        ensures
            opt_str_view(r) == self@.tracing_endpoint,
    {
        match &self.tracing_endpoint {
            Some(e) => Some(e.as_str()),
            None => None,
        }
    }

    /// The metrics endpoint set, if any (possibly empty).
    pub fn metrics_endpoint(&self) -> (r: Option<&str>)
        ensures
            opt_str_view(r) == self@.metrics_endpoint,
    {
        match &self.metrics_endpoint {
            Some(e) => Some(e.as_str()),
            None => None,
        }
    }

    /// The endpoint that traces are exported to; `None` where trace export
    /// is disabled (no endpoint, or an empty one).
    pub fn tracing_export_endpoint(&self) -> (r: Option<&str>)
        ensures
            opt_str_view(r) == export_endpoint(self@.tracing_endpoint),
    {
        match &self.tracing_endpoint {
            Some(e) => if e.as_str().is_empty() { None } else { Some(e.as_str()) },
            None => None,
        }
    }

    /// The endpoint that metrics are exported to; `None` where metrics export
    /// is disabled (no endpoint, or an empty one).
    pub fn metrics_export_endpoint(&self) -> (r: Option<&str>)
        ensures
            opt_str_view(r) == export_endpoint(self@.metrics_endpoint),
    {
        match &self.metrics_endpoint {
            Some(e) => if e.as_str().is_empty() { None } else { Some(e.as_str()) },
            None => None,
        }
    }
}

/// Whether an optional text is set and nonempty.
pub open spec fn set_and_nonempty(s: Option<Seq<char>>) -> bool {
    match s {
        Some(t) => t.len() > 0,
        None => false,
    }
}

/// The environment and the project name are what building requires: a
/// builder builds exactly when both are set and neither is empty.
pub proof fn lemma_build_succeeds_iff_required_set(b: BuilderView)
    ensures
        build_outcome(b) is Ok <==> (set_and_nonempty(b.environment) && set_and_nonempty(
            b.project_name,
        )),
{
}

/// Whatever a builder held before, once a nonempty environment and a
/// nonempty project name are set it builds, into a configuration with that
/// project name whose last attribute names that environment.
pub proof fn lemma_set_required_then_build(b: BuilderView, environment: Seq<char>, name: Seq<char>)
    requires
        environment.len() > 0,
        name.len() > 0,
    ensures
        build_outcome(with_project_name(with_environment(b, environment), name)) matches Ok(c)
            && c.project_name == name
            && c.attributes == b.attributes.push(
                ("deployment.environment.name"@, ValueView::String(environment)),
            ),
{
}

/// Attributes accumulate in the order they are added, and the configuration
/// carries them in that order: setting a version, then extra attributes,
/// adds the version attribute followed by the extra ones.
pub proof fn lemma_attributes_keep_order(b: BuilderView, version: Seq<char>, extra: Seq<Attribute>)
    ensures
        with_attributes(with_version(b, version), extra).attributes == b.attributes.push(
            ("service.version"@, ValueView::String(version)),
        ) + extra,
        build_outcome(with_attributes(with_version(b, version), extra)) matches Ok(c)
            ==> c.attributes == b.attributes.push(("service.version"@, ValueView::String(version)))
            + extra,
{
}

/// A setter called again replaces what the first call set: the last project
/// name, tracing endpoint or metrics endpoint set is the one that counts.
pub proof fn lemma_last_setting_wins(b: BuilderView, first: Seq<char>, second: Seq<char>)
    ensures
        with_project_name(with_project_name(b, first), second) == with_project_name(b, second),
        with_tracing_endpoint(with_tracing_endpoint(b, first), second) == with_tracing_endpoint(b, second),
        with_metrics_endpoint(with_metrics_endpoint(b, first), second) == with_metrics_endpoint(b, second),
{
}

/// An export endpoint is given where one is set and nonempty; an unset or
/// empty endpoint disables that export.
pub proof fn lemma_export_enabled_iff_endpoint_nonempty(endpoint: Option<Seq<char>>)
    ensures
        export_endpoint(endpoint) is Some <==> set_and_nonempty(endpoint),
        export_endpoint(endpoint) matches Some(e) ==> endpoint == Some(e),
{
}

/// The attribute that records an environment.
pub open spec fn environment_attribute(environment: Seq<char>) -> Attribute {
    ("deployment.environment.name"@, ValueView::String(environment))
}

/// A builder whose environment, where one is set, is also among its
/// attributes.
pub open spec fn environment_recorded(b: BuilderView) -> bool {
    b.environment matches Some(e) ==> b.attributes.contains(environment_attribute(e))
}

/// Every builder made by `new` and the setters records its environment among
/// its attributes: the empty builder does, and every setter keeps it so
/// (attributes are only ever added to).
pub proof fn lemma_environment_recorded(b: BuilderView, text: Seq<char>, extra: Seq<Attribute>)
    requires
        environment_recorded(b),
    ensures
        environment_recorded(empty_builder()),
        environment_recorded(with_project_name(b, text)),
        environment_recorded(with_version(b, text)),
        environment_recorded(with_environment(b, text)),
        environment_recorded(with_tracing_endpoint(b, text)),
        environment_recorded(with_metrics_endpoint(b, text)),
        environment_recorded(with_attributes(b, extra)),
{
    let v = with_version(b, text);
    let w = with_environment(b, text);
    let x = with_attributes(b, extra);
    assert(w.attributes[w.attributes.len() - 1] == environment_attribute(text));
    if let Some(e) = b.environment {
        let i = choose|i: int| 0 <= i < b.attributes.len() && b.attributes[i] == environment_attribute(e);
        assert(v.attributes[i] == environment_attribute(e));
        assert(x.attributes[i] == environment_attribute(e));
    }
}

/// A successful build carries every field of the builder unchanged: the
/// project name set, the attributes in order, and each endpoint as it was
/// set (or unset), each on its own.
pub proof fn lemma_build_carries_fields(b: BuilderView)
    ensures
        build_outcome(b) matches Ok(c) ==> {
            &&& b.project_name == Some(c.project_name)
            &&& c.attributes == b.attributes
            &&& c.tracing_endpoint == b.tracing_endpoint
            &&& c.metrics_endpoint == b.metrics_endpoint
        },
{
}

/// Each setter changes only what it sets. Setting the project name changes
/// only the project name.
pub proof fn lemma_set_project_name_frame(b: BuilderView, name: Seq<char>)
    ensures
        with_project_name(b, name).project_name == Some(name),
        with_project_name(b, name).environment == b.environment,
        with_project_name(b, name).attributes == b.attributes,
        with_project_name(b, name).tracing_endpoint == b.tracing_endpoint,
        with_project_name(b, name).metrics_endpoint == b.metrics_endpoint,
{
}

/// Setting the version only appends the `service.version` attribute.
pub proof fn lemma_set_version_frame(b: BuilderView, version: Seq<char>)
    ensures
        with_version(b, version).attributes.len() == b.attributes.len() + 1,
        with_version(b, version).attributes.subrange(0, b.attributes.len() as int) == b.attributes,
        with_version(b, version).attributes.last() == ("service.version"@, ValueView::String(version)),
        with_version(b, version).project_name == b.project_name,
        with_version(b, version).environment == b.environment,
        with_version(b, version).tracing_endpoint == b.tracing_endpoint,
        with_version(b, version).metrics_endpoint == b.metrics_endpoint,
{
    assert(with_version(b, version).attributes.subrange(0, b.attributes.len() as int) =~= b.attributes);
}

/// Setting the environment sets it and appends its attribute, and nothing
/// else.
pub proof fn lemma_set_environment_frame(b: BuilderView, environment: Seq<char>)
    ensures
        with_environment(b, environment).environment == Some(environment),
        with_environment(b, environment).attributes.len() == b.attributes.len() + 1,
        with_environment(b, environment).attributes.subrange(0, b.attributes.len() as int) == b.attributes,
        with_environment(b, environment).attributes.last() == (
            "deployment.environment.name"@,
            ValueView::String(environment),
        ),
        with_environment(b, environment).project_name == b.project_name,
        with_environment(b, environment).tracing_endpoint == b.tracing_endpoint,
        with_environment(b, environment).metrics_endpoint == b.metrics_endpoint,
{
    assert(with_environment(b, environment).attributes.subrange(0, b.attributes.len() as int) =~= b.attributes);
}

/// Setting an endpoint changes only that endpoint.
pub proof fn lemma_set_endpoint_frame(b: BuilderView, endpoint: Seq<char>)
    ensures
        with_tracing_endpoint(b, endpoint).tracing_endpoint == Some(endpoint),
        with_tracing_endpoint(b, endpoint).metrics_endpoint == b.metrics_endpoint,
        with_tracing_endpoint(b, endpoint).project_name == b.project_name,
        with_tracing_endpoint(b, endpoint).environment == b.environment,
        with_tracing_endpoint(b, endpoint).attributes == b.attributes,
        with_metrics_endpoint(b, endpoint).metrics_endpoint == Some(endpoint),
        with_metrics_endpoint(b, endpoint).tracing_endpoint == b.tracing_endpoint,
        with_metrics_endpoint(b, endpoint).project_name == b.project_name,
        with_metrics_endpoint(b, endpoint).environment == b.environment,
        with_metrics_endpoint(b, endpoint).attributes == b.attributes,
{
}

/// Adding attributes only appends them, in order, after those held.
pub proof fn lemma_set_attributes_frame(b: BuilderView, extra: Seq<Attribute>)
    ensures
        with_attributes(b, extra).attributes.len() == b.attributes.len() + extra.len(),
        forall|i: int| 0 <= i < b.attributes.len() ==> #[trigger] with_attributes(b, extra).attributes[i] == b.attributes[i],
        forall|i: int| 0 <= i < extra.len() ==> with_attributes(b, extra).attributes[b.attributes.len() + i] == #[trigger] extra[i],
        with_attributes(b, extra).project_name == b.project_name,
        with_attributes(b, extra).environment == b.environment,
        with_attributes(b, extra).tracing_endpoint == b.tracing_endpoint,
        with_attributes(b, extra).metrics_endpoint == b.metrics_endpoint,
{
}

/// The configuration that the original's documented chain gives: the
/// environment and name set, then each endpoint set on its own, keeps every
/// endpoint that was set, whichever others were left unset.
pub proof fn lemma_endpoints_independent(b: BuilderView, environment: Seq<char>, name: Seq<char>, metrics: Seq<char>)
    requires
        environment.len() > 0,
        name.len() > 0,
        b.tracing_endpoint is None,
    ensures
        build_outcome(with_metrics_endpoint(with_project_name(with_environment(b, environment), name), metrics))
            matches Ok(c) && c.metrics_endpoint == Some(metrics) && c.tracing_endpoint is None,
{
}

impl Default for OtelBuilder {
    fn default() -> (b: Self)
        ensures
            b@ == empty_builder(),
    {
        OtelBuilder::new()
    }
}

} // verus!
