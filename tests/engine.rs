use resource_store::ident::random_id;
use resource_store::kinds::{collection_uri, dataset_uri, user_uri, Collection, Dataset, User};
use resource_store::path::{join_exec, replace_all_exec, resolve_exec};
use resource_store::resource::{
    FileRead, IOResource, Resource, ResourceEngine, ResourceTrait, ResourceURI, StoreError,
};
use std::collections::HashSet;

fn json(text: &str) -> serde_json::Value {
    serde_json::from_str(text).unwrap()
}

fn assert_error<T>(r: &IOResource<T>, code: &str, message: &str) {
    assert!(r.data.is_none());
    let e = r.error.as_ref().unwrap();
    assert_eq!(e.code, code);
    assert_eq!(e.message, message);
}

#[test]
fn template_with_parameter_resolves() {
    let engine = ResourceEngine::new("/data", dataset_uri("abc".to_string()));
    assert!(engine.base_path.ends_with("users/abc/datasets/"));
    assert_eq!(engine.base_path, "/data/users/abc/datasets/");
}

#[test]
fn template_without_parameters_is_unchanged() {
    let engine = ResourceEngine::new("/data", user_uri());
    assert_eq!(engine.base_path, "/data/users/");
    let empty = ResourceURI { template: "a/:x/b".to_string(), params: Some(vec![]) };
    assert_eq!(ResourceEngine::new("/r/", empty).base_path, "/r/a/:x/b");
}

#[test]
fn parameters_are_not_substituted_in_the_root() {
    let params = vec![("k".to_string(), "v".to_string())];
    let uri = ResourceURI { template: "a/:k".to_string(), params: Some(params) };
    assert_eq!(ResourceEngine::new("/:k", uri).base_path, "/:k/a/v");
}

#[test]
fn template_with_two_parameters_resolves() {
    let engine = ResourceEngine::new("/data", collection_uri("u1".to_string(), "d2".to_string()));
    assert_eq!(engine.base_path, "/data/users/u1/datasets/d2/collections");
}

#[test]
fn unmatched_placeholders_and_parameters_pass_through() {
    let params = vec![("other".to_string(), "v".to_string())];
    assert_eq!(resolve_exec("users/:user_id/", &params), "users/:user_id/");
    let params = vec![("id".to_string(), "7".to_string())];
    assert_eq!(resolve_exec(":id/x/:id", &params), "7/x/7");
}

#[test]
fn replace_scans_left_to_right_without_overlap() {
    assert_eq!(replace_all_exec("aaa", "aa", "b"), "ba");
    assert_eq!(replace_all_exec("", "a", "b"), "");
    assert_eq!(replace_all_exec("xyz", "q", "b"), "xyz");
    assert_eq!(replace_all_exec("héllo", "é", "e"), "hello");
}

#[test]
fn join_adds_one_separator() {
    assert_eq!(join_exec("a", "b"), "a/b");
    assert_eq!(join_exec("a/", "b"), "a/b");
    assert_eq!(join_exec("", "b"), "b");
}

#[test]
fn generated_identifiers_are_distinct() {
    let mut seen = HashSet::new();
    for _ in 0..1000 {
        let id = random_id();
        assert_eq!(id.chars().count(), 21);
        assert!(id.chars().all(|c| c.is_ascii_alphanumeric()));
        assert!(seen.insert(id));
    }
}

#[test]
fn get_missing_is_not_found() {
    let engine = ResourceEngine::new("/data", user_uri());
    let r = engine.get::<User>("nonexistent-id", FileRead::Missing);
    assert_error(&r, "404", "Resource not found");
}

#[test]
fn get_malformed_and_failed_reads() {
    let engine = ResourceEngine::new("/data", user_uri());
    let r = engine.get::<User>("abc", FileRead::Contents("{not json".to_string()));
    assert_error(&r, "422", "Malformed resource metadata");
    let r = engine.get::<User>("abc", FileRead::Failed);
    assert_error(&r, "500", "Resource storage failure");
}

#[test]
fn get_reads_record() {
    let engine = ResourceEngine::new("/data", dataset_uri("u".to_string()));
    let r = engine.get::<Dataset>("d1", FileRead::Contents("{\"name\":\"Sales\"}".to_string()));
    assert!(r.error.is_none());
    let d = r.data.unwrap();
    assert_eq!(d.id, "d1");
    assert_eq!(d.uri, "/data/users/u/datasets/d1");
    assert_eq!(d.name, "Sales");
}

#[test]
fn name_that_is_not_a_string_reads_empty() {
    let engine = ResourceEngine::new("/data", user_uri());
    let r = engine.get::<User>("u", FileRead::Contents("{\"name\":5}".to_string()));
    assert_eq!(r.data.unwrap().name, "");
    let r = engine.get::<User>("u", FileRead::Contents("{}".to_string()));
    assert_eq!(r.data.unwrap().name, "");
}

#[test]
fn create_user_ada() {
    let engine = ResourceEngine::new("/data", user_uri());
    let plan = engine.plan_create(&json("{\"name\": \"Ada\"}"));
    assert_eq!(plan.id.chars().count(), 21);
    assert_eq!(plan.document, "{\"name\":\"Ada\"}");
    assert_eq!(plan.dir, format!("/data/users/{}", plan.id));
    assert_eq!(plan.file, format!("/data/users/{}/metadata.json", plan.id));
    let r = engine.create::<User>(&plan, FileRead::Contents(plan.document.clone()));
    assert!(r.error.is_none());
    let user = r.data.unwrap();
    assert_eq!(user.id.len(), 21);
    assert!(user.uri.ends_with(&format!("users/{}", user.id)));
    assert_eq!(user.name, "Ada");
}

#[test]
fn create_then_get_round_trip() {
    let engine = ResourceEngine::new("/data", dataset_uri("u".to_string()));
    let plan = engine.plan_create(&json("{\"name\": \"Trips\", \"rows\": [1, 2]}"));
    let created = engine.create::<Dataset>(&plan, FileRead::Contents(plan.document.clone()));
    let created = created.data.unwrap();
    let again = engine.get::<Dataset>(&plan.id, FileRead::Contents(plan.document.clone()));
    let again = again.data.unwrap();
    assert_eq!(created.id, again.id);
    assert_eq!(created.uri, again.uri);
    assert_eq!(created.name, again.name);
    assert_eq!(again.name, "Trips");
    let raw = engine.load(&plan.id, &FileRead::Contents(plan.document.clone())).unwrap();
    assert_eq!(raw.metadata, json("{\"rows\": [1, 2], \"name\": \"Trips\"}"));
}

#[test]
fn create_whose_read_back_fails_reports_it() {
    let engine = ResourceEngine::new("/data", user_uri());
    let plan = engine.plan_create(&json("{\"name\": \"Ada\"}"));
    let r = engine.create::<User>(&plan, FileRead::Missing);
    assert_error(&r, "404", "Resource not found");
}

#[test]
fn listing_finds_every_created_resource() {
    let engine = ResourceEngine::new("/data", user_uri());
    let plans: Vec<_> = (0..3)
        .map(|i| engine.plan_create(&json(&format!("{{\"name\": \"n{}\"}}", i))))
        .collect();
    let paths: Vec<String> = plans.iter().map(|p| p.file.clone()).collect();
    assert_eq!(engine.listing_pattern(), "/data/users/*/metadata.json");
    let ids = engine.entry_ids(&paths);
    let expected: Vec<String> = plans.iter().map(|p| p.id.clone()).collect();
    assert_eq!(ids, expected);
    let entries: Vec<(String, FileRead)> = plans
        .iter()
        .map(|p| (p.id.clone(), FileRead::Contents(p.document.clone())))
        .collect();
    let users: Vec<User> =
        engine.list::<User>(entries).data.unwrap().into_iter().map(|r| r.unwrap()).collect();
    assert_eq!(users.len(), 3);
    let distinct: HashSet<&String> = users.iter().map(|u| &u.id).collect();
    assert_eq!(distinct.len(), 3);
    for (p, u) in plans.iter().zip(users.iter()) {
        let again = engine.get::<User>(&p.id, FileRead::Contents(p.document.clone()));
        assert_eq!(again.data.unwrap().id, u.id);
    }
}

#[test]
fn empty_listing_is_empty() {
    let engine = ResourceEngine::new("/data", user_uri());
    let r = engine.list::<User>(vec![]);
    assert!(r.error.is_none());
    assert!(r.data.unwrap().is_empty());
    assert!(engine.entry_ids(&vec![]).is_empty());
}

#[test]
fn listing_reports_each_entry() {
    let engine = ResourceEngine::new("/data", user_uri());
    let entries = vec![
        ("a".to_string(), FileRead::Contents("{\"name\":\"A\"}".to_string())),
        ("b".to_string(), FileRead::Missing),
        ("c".to_string(), FileRead::Contents("oops".to_string())),
        ("d".to_string(), FileRead::Failed),
        ("e".to_string(), FileRead::Contents("{\"name\":\"E\"}".to_string())),
    ];
    let r = engine.list::<User>(entries);
    assert!(r.error.is_none());
    let items = r.data.unwrap();
    assert_eq!(items.len(), 5);
    let a = items[0].as_ref().unwrap();
    assert_eq!((a.id.as_str(), a.name.as_str()), ("a", "A"));
    let codes: Vec<&str> =
        items[1..4].iter().map(|i| i.as_ref().err().unwrap().code.as_str()).collect();
    assert_eq!(codes, vec!["404", "422", "500"]);
    assert_eq!(items[4].as_ref().unwrap().uri, "/data/users/e");
}

#[test]
fn entry_id_accepts_only_directories_directly_here() {
    let engine = ResourceEngine::new("/data", user_uri());
    assert_eq!(engine.entry_id("/data/users/ab_9/metadata.json"), Some("ab_9".to_string()));
    assert_eq!(engine.entry_id("/data/users/a-b.c/metadata.json"), Some("a-b.c".to_string()));
    assert_eq!(engine.entry_id("/data/users//metadata.json"), None);
    assert_eq!(engine.entry_id("/data/users/x/y/metadata.json"), None);
    assert_eq!(engine.entry_id("/other/users/x/metadata.json"), None);
    assert_eq!(engine.entry_id("/data/users/x/schema.json"), None);
    let paths = vec![
        "/data/users/x/metadata.json".to_string(),
        "/elsewhere".to_string(),
        "/data/users/y/metadata.json".to_string(),
    ];
    assert_eq!(engine.entry_ids(&paths), vec!["x".to_string(), "y".to_string()]);
}

#[test]
fn metadata_paths() {
    let engine = ResourceEngine::new("/data", user_uri());
    assert_eq!(engine.resource_uri("id1"), "/data/users/id1");
    assert_eq!(engine.metadata_path("id1"), "/data/users/id1/metadata.json");
}

#[test]
fn collection_attachments() {
    let engine = ResourceEngine::new("/d", collection_uri("u".to_string(), "s".to_string()));
    let r = engine.get::<Collection>("c", FileRead::Contents("{\"name\":\"C\"}".to_string()));
    assert!(r.error.is_none());
    let c = r.data.unwrap();
    assert!(c.data.is_none() && c.schema.is_none());
    let c = c.attach(Some("a,b\n1,2\n".to_string()), None);
    assert_eq!(c.name, "C");
    assert_eq!(c.uri, "/d/users/u/datasets/s/collections/c");
    assert_eq!(c.data.unwrap().0, "a,b\n1,2\n");
    assert!(c.schema.is_none());
}

#[test]
fn error_envelopes() {
    let r: IOResource<u8> = IOResource::failure(StoreError::NotFound);
    assert_error(&r, "404", "Resource not found");
    let r = IOResource::success(5u8);
    assert_eq!(r.data, Some(5));
    assert!(r.error.is_none());
}

#[test]
fn user_from_resource_takes_name_unquoted() {
    let resource = Resource {
        id: "x".to_string(),
        uri: "/r/users/x".to_string(),
        metadata: json("{\"name\": \"Ada\"}"),
    };
    let u = User::from_resource(resource);
    assert_eq!(u.id, "x");
    assert_eq!(u.uri, "/r/users/x");
    assert_eq!(u.name, "Ada");
}
