//! The kinds of resource stored: users, their datasets, and the datasets'
//! collections, each in its own namespace.
use vstd::prelude::*;
use crate::json::{name_field, name_of};
use crate::json::parsed_json;
use crate::resource::{
    read_outcome, rebuilt_envelope, rebuilt_outcome, record, resource_dir, FileRead, IOResource,
    IOResourceError, Resource, ResourceTrait, ResourceURI,
};

verus! {

/// A user.
#[derive(Debug)]
pub struct User {
    pub id: String,
    pub uri: String,
    pub name: String,
}

/// A dataset of a user.
#[derive(Debug)]
pub struct Dataset {
    pub id: String,
    pub uri: String,
    pub name: String,
}

/// The text of a file attached to a collection.
#[derive(Debug)]
pub struct CollectionData(pub String);

/// A collection of a dataset, with its optional tabular data and schema.
#[derive(Debug)]
pub struct Collection {
    pub id: String,
    pub uri: String,
    pub name: String,
    pub data: Option<CollectionData>,
    pub schema: Option<CollectionData>,
}

impl ResourceTrait<User> for User {
    /// Same identifier and directory, and the document's `name` as text.
    open spec fn rebuilt_from(t: User, raw: (Seq<char>, Seq<char>, serde_json::Value)) -> bool {
        t.id@ == raw.0 && t.uri@ == raw.1 && t.name@ == name_of(raw.2)
    }

    fn from_resource(resource: Resource) -> (t: User) {
        let name = name_field(&resource.metadata);
        User { id: resource.id, uri: resource.uri, name }
    }
}

impl ResourceTrait<Dataset> for Dataset {
    /// Same identifier and directory, and the document's `name` as text.
    open spec fn rebuilt_from(t: Dataset, raw: (Seq<char>, Seq<char>, serde_json::Value)) -> bool {
        t.id@ == raw.0 && t.uri@ == raw.1 && t.name@ == name_of(raw.2)
    }

    fn from_resource(resource: Resource) -> (t: Dataset) {
        let name = name_field(&resource.metadata);
        Dataset { id: resource.id, uri: resource.uri, name }
    }
}

impl ResourceTrait<Collection> for Collection {
    /// Same identifier and directory, the document's `name` as text, and
    /// no attached files yet; see `attach`.
    open spec fn rebuilt_from(
        t: Collection,
        raw: (Seq<char>, Seq<char>, serde_json::Value),
    ) -> bool {
        t.id@ == raw.0 && t.uri@ == raw.1 && t.name@ == name_of(raw.2) && t.data is None
            && t.schema is None
    }

    fn from_resource(resource: Resource) -> (t: Collection) {
        let name = name_field(&resource.metadata);
        Collection { id: resource.id, uri: resource.uri, name, data: None, schema: None }
    }
}

impl Collection {
    /// The collection with the text of its `data.csv` and `schema.json`
    /// files, each absent when the file is.
    pub fn attach(self, data: Option<String>, schema: Option<String>) -> (r: Collection)
        ensures
            r.id == self.id,
            r.uri == self.uri,
            r.name == self.name,
            r.data == match data {
                Some(d) => Some(CollectionData(d)),
                None => None::<CollectionData>,
            },
            r.schema == match schema {
                Some(s) => Some(CollectionData(s)),
                None => None::<CollectionData>,
            },
    {
        let data = match data {
            Some(d) => Some(CollectionData(d)),
            None => None,
        };
        let schema = match schema {
            Some(s) => Some(CollectionData(s)),
            None => None,
        };
        Collection { id: self.id, uri: self.uri, name: self.name, data, schema }
    }
}

/// A parameter pair from a name and a value.
fn param(name: &str, value: String) -> (r: (String, String))
    ensures
        r.0@ == name@,
        r.1 == value,
{
    (name.to_string(), value)
}

/// The namespace of users: `users/`, with no parameters.
pub fn user_uri() -> (r: ResourceURI)
    ensures
        r.template@ == "users/"@,
        r.params is None,
{
    ResourceURI { template: String::from_str("users/"), params: None }
}

/// The namespace of the datasets of `user_id`: `users/:user_id/datasets/`.
pub fn dataset_uri(user_id: String) -> (r: ResourceURI)
    ensures
        r.template@ == "users/:user_id/datasets/"@,
        r.params is Some,
        r.params->Some_0@.len() == 1,
        r.params->Some_0@[0].0@ == "user_id"@,
        r.params->Some_0@[0].1 == user_id,
{
    let params = vec![param("user_id", user_id)];
    ResourceURI { template: String::from_str("users/:user_id/datasets/"), params: Some(params) }
}

/// The namespace of the collections of dataset `dataset_id` of `user_id`:
/// `users/:user_id/datasets/:dataset_id/collections`.
pub fn collection_uri(user_id: String, dataset_id: String) -> (r: ResourceURI)
    ensures
        r.template@ == "users/:user_id/datasets/:dataset_id/collections"@,
        r.params is Some,
        r.params->Some_0@.len() == 2,
        r.params->Some_0@[0].0@ == "user_id"@,
        r.params->Some_0@[0].1 == user_id,
        r.params->Some_0@[1].0@ == "dataset_id"@,
        r.params->Some_0@[1].1 == dataset_id,
{
    let params = vec![param("user_id", user_id), param("dataset_id", dataset_id)];
    ResourceURI {
        template: String::from_str("users/:user_id/datasets/:dataset_id/collections"),
        params: Some(params),
    }
}

/// Round trip for users: a user that `create` returned and one that `get`
/// returned for the same identifier and unchanged metadata document agree
/// in identifier, directory and name, the name being the text of the
/// document's `name` member.
pub proof fn lemma_user_round_trip(
    base: Seq<char>,
    id: Seq<char>,
    text: String,
    created: IOResource<User>,
    got: IOResource<User>,
)
    requires
        parsed_json(text@) is Some,
        rebuilt_envelope(created, record(base, id, FileRead::Contents(text))),
        rebuilt_envelope(got, record(base, id, FileRead::Contents(text))),
    ensures
        created.data is Some && got.data is Some,
        created.data->Some_0.id@ == id && got.data->Some_0.id@ == id,
        created.data->Some_0.uri@ == resource_dir(base, id),
        got.data->Some_0.uri@ == resource_dir(base, id),
        created.data->Some_0.name@ == got.data->Some_0.name@,
        got.data->Some_0.name@ == name_of(parsed_json(text@)->Some_0),
{
}

/// Listing completeness for users: listing the distinct identifiers of N
/// created users, each of whose documents reads as JSON, gives exactly N
/// users, the i-th with the i-th identifier, so pairwise distinct.
pub proof fn lemma_user_listing_complete(
    base: Seq<char>,
    ids: Seq<Seq<char>>,
    reads: Seq<FileRead>,
    listed: Seq<Result<User, IOResourceError>>,
)
    requires
        ids.len() == reads.len(),
        listed.len() == ids.len(),
        forall|i: int, j: int| 0 <= i < j < ids.len() ==> ids[i] != ids[j],
        forall|i: int| 0 <= i < reads.len() ==> (#[trigger] read_outcome(reads[i])) is Ok,
        forall|i: int|
            0 <= i < ids.len() ==> rebuilt_outcome(#[trigger] listed[i], record(base, ids[i], reads[i])),
    ensures
        forall|i: int| 0 <= i < listed.len() ==> (#[trigger] listed[i]) is Ok && listed[i]->Ok_0.id@ == ids[i],
        forall|i: int, j: int|
            0 <= i < j < listed.len() ==> listed[i]->Ok_0.id@ != listed[j]->Ok_0.id@,
{
    assert forall|i: int| 0 <= i < listed.len() implies (#[trigger] listed[i]) is Ok && listed[i]->Ok_0.id@ == ids[i] by {
        assert(read_outcome(reads[i]) is Ok);
        assert(rebuilt_outcome(listed[i], record(base, ids[i], reads[i])));
    }
    assert forall|i: int, j: int| 0 <= i < j < listed.len() implies listed[i]->Ok_0.id@ != listed[j]->Ok_0.id@ by {
        assert(listed[i] is Ok && listed[j] is Ok);
    }
}

} // verus!
