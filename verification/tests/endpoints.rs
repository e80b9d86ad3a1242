use catdex::errors::UserError;
use catdex::handlers::{
    error_reply, get_reply, handle_create, handle_get, handle_list, insert_reply, list_reply,
    validate_create, DbError, Reply, ReplyBody,
};
use catdex::models::{Cat, NewCat};
use catdex::repo::Repository;

fn filled_repo(n: usize) -> Repository {
    let mut repo = Repository::new();
    let mut i: usize = 0;
    while i < n {
        let outcome = repo.insert(NewCat {
            name: format!("cat{}", i),
            image_path: format!("/image/cat_{}", i),
        });
        assert!(outcome.is_ok());
        i += 1;
    }
    repo
}

#[test]
fn test_cats_endpoint_get() {
    let repo = Repository::new();
    let reply = handle_list(&repo);
    assert!(reply.status >= 200 && reply.status < 300);
}

#[test]
fn list_returns_all_records_below_cap() {
    let repo = filled_repo(3);
    let reply = handle_list(&repo);
    assert_eq!(reply.status, 200);
    match reply.body {
        ReplyBody::Records(v) => {
            assert_eq!(v.len(), 3);
            assert_eq!(v[0].name, "cat0");
            assert_eq!(v[2].image_path, "/image/cat_2");
        }
        _ => panic!("list reply must carry records"),
    }
}

#[test]
fn list_never_returns_more_than_one_hundred() {
    let repo = filled_repo(120);
    assert_eq!(repo.list(100).len(), 100);
    assert_eq!(repo.list(500).len(), 120);
    let reply = handle_list(&repo);
    match reply.body {
        ReplyBody::Records(v) => {
            assert_eq!(v.len(), 100);
            for c in &v {
                assert!(c.id >= 1);
                assert!(!c.name.is_empty());
                assert!(!c.image_path.is_empty());
            }
        }
        _ => panic!("list reply must carry records"),
    }
}

#[test]
fn get_missing_row_is_404() {
    let repo = Repository::new();
    let reply = handle_get(&repo, "7");
    assert_eq!(reply.status, 404);
    assert!(matches!(reply.body, ReplyBody::Empty));
}

#[test]
fn get_present_row_is_200() {
    let repo = filled_repo(2);
    let reply = handle_get(&repo, "2");
    assert_eq!(reply.status, 200);
    match reply.body {
        ReplyBody::Record(c) => {
            assert_eq!(c.id, 2);
            assert_eq!(c.name, "cat1");
        }
        _ => panic!("a present row must come back as a record"),
    }
}

#[test]
fn get_id_zero_is_400() {
    let repo = filled_repo(2);
    let reply = handle_get(&repo, "0");
    assert_eq!(reply.status, 400);
}

#[test]
fn get_id_one_hundred_fifty_one_is_400() {
    let repo = filled_repo(2);
    let reply = handle_get(&repo, "151");
    assert_eq!(reply.status, 400);
}

#[test]
fn get_non_integer_is_400() {
    let repo = Repository::new();
    assert_eq!(handle_get(&repo, "abc").status, 400);
    assert_eq!(handle_get(&repo, "").status, 400);
    assert_eq!(handle_get(&repo, "12x").status, 400);
    assert_eq!(handle_get(&repo, "-3").status, 400);
}

#[test]
fn create_then_list_round_trip() {
    let mut repo = filled_repo(1);
    let texts = vec![(String::from("name"), String::from("Tom"))];
    let name = validate_create(&texts, true).unwrap();
    let file = catdex::multipart::stored_file_name(7);
    let disk = catdex::multipart::stored_disk_path(file.as_str());
    let before = repo.list(100).len();
    let reply = handle_create(&mut repo, name, disk.as_str());
    assert_eq!(reply.status, 201);
    assert!(matches!(reply.body, ReplyBody::Empty));
    let v = repo.list(100);
    assert_eq!(v.len(), before + 1);
    let tom: Vec<&Cat> = v.iter().filter(|c| c.name == "Tom").collect();
    assert_eq!(tom.len(), 1);
    assert_eq!(tom[0].image_path, "/image/cat_7");
    assert!(!tom[0].image_path.starts_with('.'));
    assert!(tom[0].image_path.starts_with('/'));
}

#[test]
fn create_with_malformed_disk_path_is_400() {
    let mut repo = Repository::new();
    let reply = handle_create(&mut repo, String::from("Tom"), "image/cat_1");
    assert_eq!(reply.status, 400);
    assert_eq!(repo.list(100).len(), 0);
}

#[test]
fn pool_exhaustion_maps_to_500() {
    assert_eq!(UserError::DBPoolGetError.status_code(), 500);
    let reply: Reply = error_reply(&UserError::DBPoolGetError);
    assert_eq!(reply.status, 500);
    assert!(matches!(reply.body, ReplyBody::Empty));
}

#[test]
fn store_outcomes_map_to_replies() {
    assert_eq!(get_reply(Err(DbError::NotFound)).status, 404);
    assert_eq!(get_reply(Err(DbError::Other)).status, 500);
    let found = get_reply(Ok(Cat {
        id: 4,
        name: String::from("Tom"),
        image_path: String::from("/image/cat_4"),
    }));
    assert_eq!(found.status, 200);
    match found.body {
        ReplyBody::Record(c) => assert_eq!(c.name, "Tom"),
        _ => panic!("a found row must come back as a record"),
    }
    assert_eq!(insert_reply(Ok(())).status, 201);
    assert_eq!(insert_reply(Err(DbError::Other)).status, 500);
    assert_eq!(list_reply(Err(DbError::Other)).status, 500);
}

#[test]
fn list_reply_caps_store_rows() {
    let mut rows = Vec::new();
    let mut i: i32 = 0;
    while i < 120 {
        rows.push(Cat {
            id: i + 1,
            name: format!("cat{}", i),
            image_path: format!("/image/cat_{}", i),
        });
        i += 1;
    }
    let reply = list_reply(Ok(rows));
    assert_eq!(reply.status, 200);
    match reply.body {
        ReplyBody::Records(v) => assert_eq!(v.len(), 100),
        _ => panic!("list reply must carry records"),
    }
}
