//! The resource engine: one namespace of resources under a resolved base
//! path, with their metadata documents, listing and creation.
//!
//! Reading and writing files is left to the caller: the engine names the
//! paths to touch, and turns what was read into records and result envelopes.
use vstd::prelude::*;
use crate::ident::{is_generated_id, random_id};
use crate::json::{parse_json, json_text, json_text_of, parsed_json};
use crate::path::{join, dir_prefix, join_exec, resolve, resolve_exec, params_view, occurs_at_exec};

verus! {

/// The error reported in a result envelope.
#[derive(Debug)]
pub struct IOResourceError {
    pub code: String,
    pub message: String,
}

/// The result envelope: exactly one of `data` and `error` is present.
#[derive(Debug)]
pub struct IOResource<T> {
    pub data: Option<T>,
    pub error: Option<IOResourceError>,
}

/// A raw record: its identifier, its directory, and its metadata document.
#[derive(Debug)]
pub struct Resource {
    pub id: String,
    pub uri: String,
    pub metadata: serde_json::Value,
}

/// One namespace of resources, bound to its resolved base path.
#[derive(Debug, Clone)]
pub struct ResourceEngine {
    pub base_path: String,
}

/// A path template with `:name` placeholders, and the values to put in them.
#[derive(Debug)]
pub struct ResourceURI {
    pub template: String,
    pub params: Option<Vec<(String, String)>>,
}

/// Reconstruction of a typed record from a raw one, written once per kind of
/// resource.
pub trait ResourceTrait<T>: Sized {
    /// Is `t` the typed record rebuilt from the raw record `raw`?
    spec fn rebuilt_from(t: T, raw: (Seq<char>, Seq<char>, serde_json::Value)) -> bool;

    fn from_resource(resource: Resource) -> (t: T)
        ensures
            Self::rebuilt_from(t, resource@),
    ;
}

/// Why a resource could not be produced.
#[derive(Debug, Clone, Copy, PartialEq, Eq, Structural)]
pub enum StoreError {
    /// The resource has no metadata document.
    NotFound,
    /// The metadata document is not JSON, or could not be written as JSON.
    Malformed,
    /// The file system failed for a reason other than absence.
    Io,
}

/// What reading a metadata document gave.
#[derive(Debug)]
pub enum FileRead {
    Contents(String),
    Missing,
    Failed,
}

/// Everything needed to store a new resource: its fresh identifier, its
/// directory, its metadata file and the document to write there.
#[derive(Debug)]
pub struct CreatePlan {
    pub id: String,
    pub dir: String,
    pub file: String,
    pub document: String,
}

/// The name of a resource's metadata document.
pub open spec fn metadata_file() -> Seq<char> {
    seq!['m', 'e', 't', 'a', 'd', 'a', 't', 'a', '.', 'j', 's', 'o', 'n']
}

/// The directory of resource `id` under `base`.
pub open spec fn resource_dir(base: Seq<char>, id: Seq<char>) -> Seq<char> {
    join(base, id)
}

/// The metadata document of resource `id` under `base`.
pub open spec fn metadata_path(base: Seq<char>, id: Seq<char>) -> Seq<char> {
    join(resource_dir(base, id), metadata_file())
}

/// The pattern that matches the metadata documents of every resource under `base`.
pub open spec fn listing_pattern(base: Seq<char>) -> Seq<char> {
    join(join(base, seq!['*']), metadata_file())
}

/// A character that may appear in an identifier found by listing: anything
/// but a path separator.
pub open spec fn is_segment_char(c: char) -> bool {
    c != '/'
}

/// The end of every metadata path: a separator and the document's name.
pub open spec fn metadata_suffix() -> Seq<char> {
    seq!['/'] + metadata_file()
}

/// The identifier of the resource whose metadata document is `path`, when
/// `path` is the metadata path of a directory directly under `base`, whose
/// non-empty name is then the identifier.
pub open spec fn entry_id(base: Seq<char>, path: Seq<char>) -> Option<Seq<char>> {
    let pre = dir_prefix(base);
    let suf = metadata_suffix();
    if path.len() > pre.len() + suf.len()
        && path.subrange(0, pre.len() as int) == pre
        && path.subrange(path.len() - suf.len(), path.len() as int) == suf
        && (forall|i: int| pre.len() <= i < path.len() - suf.len() ==> is_segment_char(#[trigger] path[i]))
    {
        Some(path.subrange(pre.len() as int, path.len() - suf.len()))
    } else {
        None
    }
}

/// The identifiers found in a list of matched paths, in order.
pub open spec fn entry_ids(base: Seq<char>, paths: Seq<Seq<char>>) -> Seq<Seq<char>>
    decreases paths.len(),
{
    if paths.len() == 0 {
        seq![]
    } else {
        let rest = entry_ids(base, paths.drop_last());
        match entry_id(base, paths.last()) {
            Some(id) => rest.push(id),
            None => rest,
        }
    }
}

/// The metadata document that a read gives, or why it gives none.
pub open spec fn read_outcome(read: FileRead) -> Result<serde_json::Value, StoreError> {
    match read {
        FileRead::Missing => Err(StoreError::NotFound),
        FileRead::Failed => Err(StoreError::Io),
        FileRead::Contents(text) => match parsed_json(text@) {
            Some(v) => Ok(v),
            None => Err(StoreError::Malformed),
        },
    }
}

/// The raw record `(id, uri, metadata)` of resource `id` under `base`,
/// given what reading its metadata document gave.
pub open spec fn record(base: Seq<char>, id: Seq<char>, read: FileRead) -> Result<
    (Seq<char>, Seq<char>, serde_json::Value),
    StoreError,
> {
    match read_outcome(read) {
        Ok(v) => Ok((id, resource_dir(base, id), v)),
        Err(e) => Err(e),
    }
}

/// The error code reported for each kind of failure.
pub open spec fn code_of(e: StoreError) -> Seq<char> {
    match e {
        StoreError::NotFound => "404"@,
        StoreError::Malformed => "422"@,
        StoreError::Io => "500"@,
    }
}

/// The error message reported for each kind of failure.
pub open spec fn message_of(e: StoreError) -> Seq<char> {
    match e {
        StoreError::NotFound => "Resource not found"@,
        StoreError::Malformed => "Malformed resource metadata"@,
        StoreError::Io => "Resource storage failure"@,
    }
}

impl Resource {
    pub open spec fn view(&self) -> (Seq<char>, Seq<char>, serde_json::Value) {
        (self.id@, self.uri@, self.metadata)
    }
}

/// The view of a loaded raw record.
pub open spec fn loaded_view(r: Result<Resource, StoreError>) -> Result<
    (Seq<char>, Seq<char>, serde_json::Value),
    StoreError,
> {
    match r {
        Ok(res) => Ok(res@),
        Err(e) => Err(e),
    }
}

impl IOResourceError {
    /// Does this error report `e`?
    pub open spec fn describes(&self, e: StoreError) -> bool {
        self.code@ == code_of(e) && self.message@ == message_of(e)
    }

    /// The error reported for `e`.
    pub fn of(e: StoreError) -> (r: IOResourceError)
        ensures
            r.describes(e),
    {
        match e {
            StoreError::NotFound => IOResourceError {
                code: String::from_str("404"),
                message: String::from_str("Resource not found"),
            },
            StoreError::Malformed => IOResourceError {
                code: String::from_str("422"),
                message: String::from_str("Malformed resource metadata"),
            },
            StoreError::Io => IOResourceError {
                code: String::from_str("500"),
                message: String::from_str("Resource storage failure"),
            },
        }
    }
}

impl<T> IOResource<T> {
    /// Data present, no error.
    pub open spec fn is_data(&self) -> bool {
        self.data is Some && self.error is None
    }

    /// No data, and the error for `e`.
    pub open spec fn reports(&self, e: StoreError) -> bool {
        self.data is None && self.error is Some && self.error->Some_0.describes(e)
    }

    /// An envelope holding `data`.
    pub fn success(data: T) -> (r: IOResource<T>)
        ensures
            r.is_data(),
            r.data == Some(data),
    {
        IOResource { data: Some(data), error: None }
    }

    /// An envelope reporting `e`.
    pub fn failure(e: StoreError) -> (r: IOResource<T>)
        ensures
            r.reports(e),
    {
        IOResource { data: None, error: Some(IOResourceError::of(e)) }
    }
}

/// The name of the metadata document, as a string.
fn metadata_file_exec() -> (r: &'static str)
    ensures
        r@ == metadata_file(),
{
    let r = "metadata.json";
    proof { reveal_strlit("metadata.json"); }
    assert(r@ =~= metadata_file());
    r
}

/// Whether no character of `s` from `from` up to `to` is a separator.
fn all_segment_chars(s: &str, from: usize, to: usize) -> (r: bool)
    requires
        from <= to <= s@.len(),
    ensures
        r == forall|i: int| from <= i < to ==> is_segment_char(#[trigger] s@[i]),
{
    let mut k: usize = from;
    while k < to
        invariant
            from <= k <= to <= s@.len(),
            forall|i: int| from <= i < k ==> is_segment_char(#[trigger] s@[i]),
        decreases to - k,
    {
        let c = s.get_char(k);
        if c == '/' {
            return false;
        }
        k = k + 1;
    }
    true
}

impl ResourceEngine {
    /// The engine for the namespace `uri.template` under the storage root
    /// `root`. The base path is the template, with each parameter
    /// substituted in turn, placed under `root`; with no parameters it is the
    /// template under `root` unchanged. The root itself is never substituted.
    pub fn new(root: &str, uri: ResourceURI) -> (r: ResourceEngine)
        ensures
            r.base_path@ == join(
                root@,
                match uri.params {
                    None => uri.template@,
                    Some(p) => resolve(uri.template@, params_view(p@)),
                },
            ),
    {
        match uri.params {
            None => ResourceEngine { base_path: join_exec(root, uri.template.as_str()) },
            Some(p) => {
                let resolved = resolve_exec(uri.template.as_str(), &p);
                ResourceEngine { base_path: join_exec(root, resolved.as_str()) }
            },
        }
    }

    /// The directory of resource `id`.
    pub fn resource_uri(&self, id: &str) -> (r: String)
        ensures
            r@ == resource_dir(self.base_path@, id@),
    {
        join_exec(self.base_path.as_str(), id)
    }

    /// The metadata document of resource `id`.
    pub fn metadata_path(&self, id: &str) -> (r: String)
        ensures
            r@ == metadata_path(self.base_path@, id@),
    {
        let dir = self.resource_uri(id);
        join_exec(dir.as_str(), metadata_file_exec())
    }

    /// The pattern matching the metadata document of every resource here.
    pub fn listing_pattern(&self) -> (r: String)
        ensures
            r@ == listing_pattern(self.base_path@),
    {
        let star = "*";
        proof { reveal_strlit("*"); }
        assert(star@ =~= seq!['*']);
        let dir = join_exec(self.base_path.as_str(), star);
        join_exec(dir.as_str(), metadata_file_exec())
    }

    /// The identifier of the resource whose metadata document is `path`, or
    /// `None` when `path` is not the metadata document of a resource here.
    pub fn entry_id(&self, path: &str) -> (r: Option<String>)
        ensures
            match r {
                Some(id) => entry_id(self.base_path@, path@) == Some(id@),
                None => entry_id(self.base_path@, path@) is None,
            },
    {
        let pre = join_exec(self.base_path.as_str(), "");
        proof {
            reveal_strlit("");
            assert(dir_prefix(self.base_path@) + ""@ =~= dir_prefix(self.base_path@));
        }
        let mut suf = String::from_str("/");
        proof { reveal_strlit("/"); }
        suf.append(metadata_file_exec());
        assert(suf@ =~= metadata_suffix());
        let n = path.unicode_len();
        let p = pre.unicode_len();
        let m = suf.unicode_len();
        if n <= p || n - p <= m {
            return None;
        }
        if !occurs_at_exec(path, pre.as_str(), 0) {
            return None;
        }
        if !occurs_at_exec(path, suf.as_str(), n - m) {
            return None;
        }
        if !all_segment_chars(path, p, n - m) {
            return None;
        }
        let id = path.substring_char(p, n - m);
        Some(id.to_string())
    }

    /// The identifiers found in `paths`, in order, skipping each path that is
    /// not the metadata document of a resource here.
    pub fn entry_ids(&self, paths: &Vec<String>) -> (r: Vec<String>)
        ensures
            r@.map_values(|s: String| s@) == entry_ids(
                self.base_path@,
                paths@.map_values(|s: String| s@),
            ),
    {
        let mut ids: Vec<String> = Vec::new();
        let mut k: usize = 0;
        while k < paths.len()
            invariant
                k <= paths@.len(),
                ids@.map_values(|s: String| s@) == entry_ids(
                    self.base_path@,
                    paths@.subrange(0, k as int).map_values(|s: String| s@),
                ),
            decreases paths@.len() - k,
        {
            let found = self.entry_id(paths[k].as_str());
            proof {
                let before = paths@.subrange(0, k as int).map_values(|s: String| s@);
                let after = paths@.subrange(0, k + 1).map_values(|s: String| s@);
                assert(after.drop_last() =~= before);
                assert(after.last() == paths@[k as int]@);
            }
            match found {
                Some(id) => {
                    let ghost before = ids@;
                    ids.push(id);
                    assert(ids@.map_values(|s: String| s@) =~= before.map_values(
                        |s: String| s@,
                    ).push(id@));
                },
                None => {},
            }
            k = k + 1;
        }
        assert(paths@.subrange(0, paths@.len() as int) =~= paths@);
        ids
    }
}

/// Does `out` give what the raw record `rec` calls for: the typed record
/// rebuilt from it, or the error reported for why there is none?
pub open spec fn rebuilt_outcome<T: ResourceTrait<T>>(
    out: Result<T, IOResourceError>,
    rec: Result<(Seq<char>, Seq<char>, serde_json::Value), StoreError>,
) -> bool {
    match rec {
        Ok(raw) => out is Ok && T::rebuilt_from(out->Ok_0, raw),
        Err(e) => out is Err && out->Err_0.describes(e),
    }
}

/// Does the envelope `r` give what the raw record `rec` calls for?
pub open spec fn rebuilt_envelope<T: ResourceTrait<T>>(
    r: IOResource<T>,
    rec: Result<(Seq<char>, Seq<char>, serde_json::Value), StoreError>,
) -> bool {
    match rec {
        Ok(raw) => r.is_data() && T::rebuilt_from(r.data->Some_0, raw),
        Err(e) => r.reports(e),
    }
}

impl ResourceEngine {
    /// The raw record of resource `id`, given what reading its metadata
    /// document gave: `NotFound` when it is missing, `Io` when the read
    /// failed, `Malformed` when it is not JSON.
    pub fn load(&self, id: &str, read: &FileRead) -> (r: Result<Resource, StoreError>)
        ensures
            loaded_view(r) == record(self.base_path@, id@, *read),
    {
        match read {
            FileRead::Missing => Err(StoreError::NotFound),
            FileRead::Failed => Err(StoreError::Io),
            FileRead::Contents(text) => match parse_json(text.as_str()) {
                Ok(metadata) => Ok(
                    Resource { id: id.to_string(), uri: self.resource_uri(id), metadata },
                ),
                Err(_) => Err(StoreError::Malformed),
            },
        }
    }

    /// Resource `id` as a `T`, given what reading its metadata document gave;
    /// the envelope reports why when there is none.
    pub fn get<T: ResourceTrait<T>>(&self, resource_id: &str, read: FileRead) -> (r: IOResource<T>)
        ensures
            rebuilt_envelope(r, record(self.base_path@, resource_id@, read)),
    {
        match self.load(resource_id, &read) {
            Ok(res) => IOResource::success(T::from_resource(res)),
            Err(e) => IOResource::failure(e),
        }
    }

    /// Every listed resource as a `T`, given each listed identifier with
    /// what reading its metadata document gave. Each entry has its own
    /// outcome, in the order given: the typed record, or the error that
    /// reading it met. A listing is never an error as a whole, and an empty
    /// listing gives an empty sequence.
    pub fn list<T: ResourceTrait<T>>(&self, entries: Vec<(String, FileRead)>) -> (r: IOResource<
        Vec<Result<T, IOResourceError>>,
    >)
        ensures
            r.is_data(),
            r.data->Some_0@.len() == entries@.len(),
            forall|i: int|
                0 <= i < entries@.len() ==> rebuilt_outcome(
                    #[trigger] r.data->Some_0@[i],
                    record(self.base_path@, entries@[i].0@, entries@[i].1),
                ),
    {
        let mut items: Vec<Result<T, IOResourceError>> = Vec::new();
        let mut k: usize = 0;
        let n = entries.len();
        while k < n
            invariant
                n == entries@.len(),
                k <= n,
                items@.len() == k,
                forall|i: int|
                    0 <= i < k ==> rebuilt_outcome(
                        #[trigger] items@[i],
                        record(self.base_path@, entries@[i].0@, entries@[i].1),
                    ),
            decreases n - k,
        {
            let entry = &entries[k];
            let item = match self.load(entry.0.as_str(), &entry.1) {
                Ok(res) => Ok(T::from_resource(res)),
                Err(e) => Err(IOResourceError::of(e)),
            };
            items.push(item);
            k = k + 1;
        }
        IOResource::success(items)
    }

    /// Everything needed to store a new resource with document `metadata`
    /// here: a fresh identifier, its directory and metadata file, and the
    /// document as JSON text.
    pub fn plan_create(&self, metadata: &serde_json::Value) -> (plan: CreatePlan)
        ensures
            is_generated_id(plan.id@),
            plan.dir@ == resource_dir(self.base_path@, plan.id@),
            plan.file@ == metadata_path(self.base_path@, plan.id@),
            plan.document@ == json_text_of(*metadata),
    {
        let document = match json_text(metadata) {
            Ok(text) => text,
            Err(_) => {
                assert(false);
                String::new()
            },
        };
        let id = random_id();
        let dir = self.resource_uri(id.as_str());
        let file = self.metadata_path(id.as_str());
        CreatePlan { id, dir, file, document }
    }

    /// The resource stored by `plan` as a `T`, given what reading its
    /// metadata document back gave: the record is always the one read back,
    /// never the one meant to be written.
    pub fn create<T: ResourceTrait<T>>(&self, plan: &CreatePlan, read: FileRead) -> (r: IOResource<T>)
        ensures
            rebuilt_envelope(r, record(self.base_path@, plan.id@, read)),
    {
        self.get(plan.id.as_str(), read)
    }
}

/// Listing finds a resource again: the metadata path of a generated
/// identifier, listed under the same base path, gives back that identifier.
pub proof fn lemma_entry_id_of_metadata_path(base: Seq<char>, id: Seq<char>)
    requires
        is_generated_id(id),
    ensures
        entry_id(base, metadata_path(base, id)) == Some(id),
{
    let pre = dir_prefix(base);
    let suf = metadata_suffix();
    let path = metadata_path(base, id);
    assert((pre + id).last() == id.last());
    assert(path =~= pre + id + suf);
    assert(path.subrange(0, pre.len() as int) =~= pre);
    assert(path.subrange(path.len() - suf.len(), path.len() as int) =~= suf);
    assert(path.subrange(pre.len() as int, path.len() - suf.len()) =~= id);
    assert forall|i: int| pre.len() <= i < path.len() - suf.len() implies is_segment_char(
        #[trigger] path[i],
    ) by {
        assert(path[i] == id[i - pre.len()]);
    }
}

/// Listing completeness: the metadata paths of resources created under one
/// base path, however many, list as exactly their identifiers, in the same
/// order, so distinct identifiers list as distinct records.
pub proof fn lemma_listing_finds_all(base: Seq<char>, ids: Seq<Seq<char>>)
    requires
        forall|i: int| 0 <= i < ids.len() ==> is_generated_id(#[trigger] ids[i]),
    ensures
        entry_ids(base, ids.map_values(|id: Seq<char>| metadata_path(base, id))) == ids,
    decreases ids.len(),
{
    let paths = ids.map_values(|id: Seq<char>| metadata_path(base, id));
    if ids.len() > 0 {
        let init = ids.drop_last();
        assert(paths.drop_last() =~= init.map_values(|id: Seq<char>| metadata_path(base, id)));
        assert(is_generated_id(ids[ids.len() - 1]));
        lemma_listing_finds_all(base, init);
        lemma_entry_id_of_metadata_path(base, ids.last());
        assert(init.push(ids.last()) =~= ids);
    } else {
        assert(paths.len() == 0);
    }
}

/// Round trip: when the metadata document written by a creation reads
/// back as JSON, the envelope that `create` returns and the one that a later
/// `get` of the same identifier returns, while the document is unchanged,
/// both hold data, each rebuilt from the same raw record: the created
/// identifier, its directory, and the document read.
pub proof fn lemma_create_get_round_trip<T: ResourceTrait<T>>(
    base: Seq<char>,
    id: Seq<char>,
    text: String,
    created: IOResource<T>,
    got: IOResource<T>,
)
    requires
        parsed_json(text@) is Some,
        rebuilt_envelope(created, record(base, id, FileRead::Contents(text))),
        rebuilt_envelope(got, record(base, id, FileRead::Contents(text))),
    ensures
        created.is_data(),
        got.is_data(),
        T::rebuilt_from(created.data->Some_0, (id, resource_dir(base, id), parsed_json(text@)->Some_0)),
        T::rebuilt_from(got.data->Some_0, (id, resource_dir(base, id), parsed_json(text@)->Some_0)),
{
}

} // verus!
