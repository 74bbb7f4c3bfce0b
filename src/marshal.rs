//! The configuration values that the native parameter objects are filled with.
use vstd::prelude::*;

verus! {

/// A join request: which session, as whom, and with what credentials.
#[derive(Debug, Clone, PartialEq, Eq)]
pub struct ZoomSessionConfig {
    pub session_name: String,
    pub user_name: String,
    pub session_password: Option<String>,
    pub jwt_token: String,
}

/// A settable property of a native parameter object.
#[derive(Debug, Clone, Copy, PartialEq, Eq, Structural)]
pub enum Property {
    /// The domain of the initialization parameters.
    Domain,
    /// The session name of a join context.
    SessionName,
    /// The user name of a join context.
    UserName,
    /// The authentication token of a join context.
    Token,
    /// The password of a join context.
    SessionPassword,
}

/// One property set to one string value.
#[derive(Debug, Clone, PartialEq, Eq)]
pub struct PropertyAssignment {
    pub property: Property,
    pub value: String,
}

pub open spec fn assignments_view(v: Seq<PropertyAssignment>) -> Seq<(Property, Seq<char>)> {
    v.map_values(|a: PropertyAssignment| (a.property, a.value@))
}

/// The properties of the initialization parameters, in the order they are set.
pub open spec fn init_plan(domain: Option<Seq<char>>) -> Seq<(Property, Seq<char>)> {
    match domain {
        Some(d) => seq![(Property::Domain, d)],
        None => seq![],
    }
}

/// The properties of a join context, in the order they are set: the password
/// only where one is given.
pub open spec fn session_plan(config: ZoomSessionConfig) -> Seq<(Property, Seq<char>)> {
    let required = seq![
        (Property::SessionName, config.session_name@),
        (Property::UserName, config.user_name@),
        (Property::Token, config.jwt_token@),
    ];
    match config.session_password {
        Some(p) => required.push((Property::SessionPassword, p@)),
        None => required,
    }
}

fn assignment(property: Property, value: &str) -> (a: PropertyAssignment)
    ensures
        a.property == property,
        a.value@ == value@,
{
    PropertyAssignment { property, value: String::from_str(value) }
}

/// The properties to set on the initialization parameters.
pub fn init_properties(domain: Option<&str>) -> (r: Vec<PropertyAssignment>)
    ensures
        assignments_view(r@) == init_plan(
            match domain {
                Some(d) => Some(d@),
                None => None,
            },
        ),
{
    let mut r: Vec<PropertyAssignment> = Vec::new();
    if let Some(d) = domain {
        r.push(assignment(Property::Domain, d));
    }
    assert(assignments_view(r@) =~= init_plan(
        match domain {
            Some(d) => Some(d@),
            None => None,
        },
    ));
    r
}

/// The properties to set on a join context for `config`.
pub fn session_properties(config: &ZoomSessionConfig) -> (r: Vec<PropertyAssignment>)
    ensures
        assignments_view(r@) == session_plan(*config),
{
    let mut r: Vec<PropertyAssignment> = Vec::new();
    r.push(assignment(Property::SessionName, config.session_name.as_str()));
    r.push(assignment(Property::UserName, config.user_name.as_str()));
    r.push(assignment(Property::Token, config.jwt_token.as_str()));
    if let Some(p) = &config.session_password {
        r.push(assignment(Property::SessionPassword, p.as_str()));
    }
    assert(assignments_view(r@) =~= session_plan(*config));
    r
}

} // verus!
