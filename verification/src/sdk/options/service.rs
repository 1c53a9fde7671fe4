//! Service identity: name, version, description, deployment environment and
//! the attributes that go with all telemetry.

use vstd::prelude::*;
use crate::attributes::{entries_insert, key_position, pairs_view, Attributes};

verus! {

/// Deployment environments.
#[derive(Debug, Clone, Copy, PartialEq, Eq, Structural)]
pub enum Environment {
    Development,
    Staging,
    Production,
    Jetson,
}

impl Default for Environment {
    fn default() -> (r: Self)
        ensures
            r == Environment::Development,
    {
        Environment::Development
    }
}

impl Environment {
    /// The lower-case name of the environment.
    pub open spec fn name(self) -> Seq<char> {
        match self {
            Environment::Development => "development"@,
            Environment::Staging => "staging"@,
            Environment::Production => "production"@,
            Environment::Jetson => "jetson"@,
        }
    }

    /// The lower-case name of the environment, as the telemetry reports it.
    pub fn to_string(&self) -> (r: String)
        ensures
            r@ == self.name(),
    {
        match self {
            Environment::Development => "development".to_owned(),
            Environment::Staging => "staging".to_owned(),
            Environment::Production => "production".to_owned(),
            Environment::Jetson => "jetson".to_owned(),
        }
    }
}

/// The leading resource attributes of a service: its version and its
/// deployment environment.
pub open spec fn base_resource_attribute_pairs(service: ServiceOptions) -> Seq<(Seq<char>, Seq<char>)> {
    seq![("service.version"@, service.version@), ("deployment.environment"@, service.environment.name())]
}

/// All resource attributes of a service: the leading ones, then its own
/// attributes in order.
pub open spec fn resource_attribute_pairs(service: ServiceOptions) -> Seq<(Seq<char>, Seq<char>)> {
    base_resource_attribute_pairs(service) + service.attributes.entries_view()
}

/// Law: adding the same attribute twice keeps the later value, as if only
/// the later call had been made.
pub proof fn law_attribute_later_value_wins(
    attributes: Map<Seq<char>, Seq<char>>,
    key: Seq<char>,
    first: Seq<char>,
    second: Seq<char>,
)
    ensures
        attributes.insert(key, first).insert(key, second) == attributes.insert(key, second),
{
    assert(attributes.insert(key, first).insert(key, second) =~= attributes.insert(key, second));
}

/// Law: every attribute of a service is among the resource attributes that
/// go with its telemetry, with its value.
pub proof fn law_attributes_in_resource(service: ServiceOptions, key: Seq<char>)
    requires
        service.attributes@.dom().contains(key),
    ensures
        exists|i: int| 0 <= i < resource_attribute_pairs(service).len()
            && #[trigger] resource_attribute_pairs(service)[i] == (key, service.attributes@[key]),
{
    let entries = service.attributes.entries_view();
    let j = key_position(entries, key);
    let pairs = resource_attribute_pairs(service);
    assert(pairs[j + 2] == entries[j]);
    assert(pairs[j + 2] == (key, service.attributes@[key]));
}

/// Metadata of the service that emits telemetry.
#[derive(Debug, Clone)]
pub struct ServiceOptions {
    pub name: String,
    pub description: String,
    pub version: String,
    pub environment: Environment,
    /// Attributes added to all telemetry (logs, metrics, traces).
    pub attributes: Attributes,
}

impl ServiceOptions {
    /// Options for the service `name` at `version`: no description, the
    /// development environment, no attributes.
    pub fn new(name: &str, version: &str) -> (r: Self)
        ensures
            r.name@ == name@,
            r.version@ == version@,
            r.description@ == Seq::<char>::empty(),
            r.environment == Environment::Development,
            r.attributes.entries_view().len() == 0,
    {
        ServiceOptions {
            name: name.to_owned(),
            description: String::new(),
            version: version.to_owned(),
            environment: Environment::default(),
            attributes: Attributes::new(),
        }
    }

    /// Sets the description.
    pub fn with_description(self, description: &str) -> (r: Self)
        ensures
            r.description@ == description@,
            r.name == self.name,
            r.version == self.version,
            r.environment == self.environment,
            r.attributes == self.attributes,
    {
        ServiceOptions { description: description.to_owned(), ..self }
    }

    /// Sets the deployment environment.
    pub fn with_environment(self, environment: Environment) -> (r: Self)
        ensures
            r == (ServiceOptions { environment, ..self }),
    {
        ServiceOptions { environment, ..self }
    }

    /// Replaces all attributes.
    pub fn with_attributes(self, attributes: Attributes) -> (r: Self)
        ensures
            r == (ServiceOptions { attributes, ..self }),
    {
        ServiceOptions { attributes, ..self }
    }

    /// Adds the attribute `key` with `value`, replacing the value of a
    /// present `key`.
    pub fn with_attribute(self, key: &str, value: &str) -> (r: Self)
        ensures
            r.attributes@ == self.attributes@.insert(key@, value@),
            r.attributes.entries_view() == entries_insert(self.attributes.entries_view(), key@, value@),
            r.name == self.name,
            r.description == self.description,
            r.version == self.version,
            r.environment == self.environment,
    {
        let mut options = self;
        options.attributes.insert(key.to_owned(), value.to_owned());
        options
    }

    /// The version and environment attributes of the service's resource.
    fn base_resource_attributes(&self) -> (r: Vec<(String, String)>)
        ensures
            pairs_view(r@) == base_resource_attribute_pairs(*self),
    {
        let mut attrs: Vec<(String, String)> = Vec::new();
        attrs.push(("service.version".to_owned(), self.version.clone()));
        attrs.push(("deployment.environment".to_owned(), self.environment.to_string()));
        assert(pairs_view(attrs@) =~= base_resource_attribute_pairs(*self));
        attrs
    }

    /// The attributes of the service's resource: version, environment, then
    /// the service's own attributes in order.
    pub fn resource_attributes(&self) -> (r: Vec<(String, String)>)
        ensures
            pairs_view(r@) == resource_attribute_pairs(*self),
    {
        let mut attrs = self.base_resource_attributes();
        let entries = self.attributes.entries();
        let mut i: usize = 0;
        while i < entries.len()
            invariant
                pairs_view(entries@) == self.attributes.entries_view(),
                i <= entries@.len(),
                pairs_view(attrs@) == base_resource_attribute_pairs(*self) + self.attributes.entries_view().take(i as int),
            decreases entries@.len() - i,
        {
            let ghost before = attrs@;
            attrs.push((entries[i].0.clone(), entries[i].1.clone()));
            proof {
                assert(pairs_view(attrs@) =~= pairs_view(before).push(pairs_view(entries@)[i as int]));
                assert(self.attributes.entries_view().take(i + 1) =~= self.attributes.entries_view().take(i as int).push(pairs_view(entries@)[i as int]));
            }
            i = i + 1;
            assert(pairs_view(attrs@) =~= base_resource_attribute_pairs(*self) + self.attributes.entries_view().take(i as int));
        }
        assert(self.attributes.entries_view().take(i as int) =~= self.attributes.entries_view());
        attrs
    }
}

} // verus!
