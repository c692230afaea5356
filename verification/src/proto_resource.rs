use opentelemetry_proto::transform::common::tonic::ResourceAttributesWithSchema;
use opentelemetry_sdk::Resource;
use vstd::prelude::*;

use crate::resource_builder::{resource_attribute_map, resource_schema_url};

verus! {

#[verifier::external_type_specification]
#[verifier::external_body]
pub struct ExResourceAttributesWithSchema(ResourceAttributesWithSchema);

/// The attributes that an exported resource holds, in its order: each key's
/// text with the text of its value (for a value converted from an SDK
/// `Value`, the text that `Value::as_str` renders).
pub uninterp spec fn exported_resource_attributes(resource: ResourceAttributesWithSchema) -> Seq<
    (Seq<char>, Seq<char>),
>;

/// The schema URL that an exported resource holds.
pub uninterp spec fn exported_resource_schema_url(resource: ResourceAttributesWithSchema) -> Option<
    Seq<char>,
>;

/// The keys of an exported resource's attributes, in its order.
pub open spec fn exported_keys(resource: ResourceAttributesWithSchema) -> Seq<Seq<char>> {
    exported_resource_attributes(resource).map_values(|p: (Seq<char>, Seq<char>)| p.0)
}

/// `exported` is `resource` converted for export: one attribute for each of
/// the resource's attributes, under the same key, with the same value text,
/// and the same schema URL.
pub open spec fn exported_from(exported: ResourceAttributesWithSchema, resource: Resource) -> bool {
    &&& exported_keys(exported).no_duplicates()
    &&& exported_keys(exported).to_set() == resource_attribute_map(resource).dom()
    &&& forall|i: int|
        0 <= i < exported_resource_attributes(exported).len() ==> resource_attribute_map(
            resource,
        )[(#[trigger] exported_resource_attributes(exported)[i]).0]
            == exported_resource_attributes(exported)[i].1
    &&& exported_resource_schema_url(exported) == resource_schema_url(resource)
}

/// Calls `ResourceAttributesWithSchema::default()`.
/// Claimed, as its derived `Default` shows: no attributes and no schema URL.
#[verifier::external_body]
pub(crate) fn empty_exported_resource() -> (r: ResourceAttributesWithSchema)
    ensures
        exported_resource_attributes(r) == Seq::<(Seq<char>, Seq<char>)>::empty(),
        exported_resource_schema_url(r) is None,
{
    ResourceAttributesWithSchema::default()
}

/// Calls `ResourceAttributesWithSchema::from(&Resource)`.
/// Claimed, as the source shows: one attribute for each attribute of the
/// resource (keys compare by text, so each key once), under the same key
/// text, with the value converted from the resource's value; and the same
/// schema URL.
/// Not claimed: the order of the attributes (that of a hash map walk).
#[verifier::external_body]
pub(crate) fn export_resource(resource: &Resource) -> (r: ResourceAttributesWithSchema)
    ensures
        exported_from(r, *resource),
{
    ResourceAttributesWithSchema::from(resource)
}

/// `exported` is what an exporter holds when its builder was given `configured`:
/// that resource, or an empty one.
pub open spec fn resource_or_empty(
    configured: Option<ResourceAttributesWithSchema>,
    exported: ResourceAttributesWithSchema,
) -> bool {
    match configured {
        Some(r) => exported == r,
        None => exported_resource_attributes(exported) == Seq::<(Seq<char>, Seq<char>)>::empty()
            && exported_resource_schema_url(exported) is None,
    }
}

/// The resource an exporter is built with: the one configured, else an empty one.
pub fn resource_or_default(configured: Option<ResourceAttributesWithSchema>) -> (r:
    ResourceAttributesWithSchema)
    ensures
        resource_or_empty(configured, r),
{
    match configured {
        Some(r) => r,
        None => empty_exported_resource(),
    }
}

} // verus!
