use rbot_discord::gitlab_preview::{
    check_message_should_preview, display_preview, find_merge_request, find_project,
    get_or_update_cache, gitlab_get_project_merge_requests, is_outdated, is_url_only, Author,
    MergeRequest, Project, ProjectNamespace, PREVIEW_IMAGE,
};

#[test]
fn test_check_message_should_preview() {
    let r =
        check_message_should_preview("https://lab.blackfoot.io/fdj/api/-/merge_requests/105/diffs");
    assert_eq!(r, Some((String::from("fdj/api"), Some(105))));
}

#[test]
fn preview_of_a_plain_project_address() {
    assert_eq!(
        check_message_should_preview("look at https://lab.blackfoot.io/fdj/api please"),
        Some((String::from("fdj/api"), None))
    );
    assert_eq!(check_message_should_preview("nothing to see"), None);
}

#[test]
fn url_only_messages_are_told_apart() {
    assert!(is_url_only("https://lab.blackfoot.io/fdj/api"));
    assert!(!is_url_only("see https://lab.blackfoot.io/fdj/api"));
}

fn project(id: i64, path: &str) -> Project {
    Project {
        id,
        description: String::new(),
        name: String::new(),
        path_with_namespace: path.to_string(),
        web_url: String::new(),
        avatar_url: None,
        namespace: ProjectNamespace { avatar_url: None },
    }
}

fn request(iid: i64) -> MergeRequest {
    MergeRequest {
        iid,
        title: String::new(),
        description: String::new(),
        state: String::new(),
        created_at: String::new(),
        author: Author { username: String::new() },
        source_branch: String::new(),
        merge_status: String::new(),
    }
}

#[test]
fn first_matching_project_is_found() {
    let projects = vec![project(1, "infra/tools"), project(2, "fdj/api"), project(3, "fdj/api-v2")];
    assert_eq!(find_project(&projects, "fdj/api"), Some(1));
    assert_eq!(find_project(&projects, "api-v2"), Some(2));
    assert_eq!(find_project(&projects, "missing"), None);
    assert_eq!(find_project(&projects, ""), Some(0));
}

#[test]
fn merge_request_is_found_by_number() {
    let requests = vec![request(98), request(105), request(105)];
    assert_eq!(find_merge_request(&requests, 105), Some(1));
    assert_eq!(find_merge_request(&requests, 7), None);
}

#[test]
fn freshness_is_told() {
    assert!(is_outdated(1000, 1000));
    assert!(is_outdated(1000, 4599));
    assert!(!is_outdated(1000, 4600));
    assert!(is_outdated(i64::MAX, i64::MAX));
    assert!(!is_outdated(i64::MIN, 0));
    assert!(get_or_update_cache(None, 0));
    assert!(get_or_update_cache(Some(1000), 1001));
    assert!(!get_or_update_cache(Some(1000), 5000));
    assert!(!gitlab_get_project_merge_requests(None, 0));
    assert!(!gitlab_get_project_merge_requests(Some(1000), 1001));
    assert!(gitlab_get_project_merge_requests(Some(1000), 5000));
}

#[test]
fn previews_are_laid_out() {
    let mut described = project(1, "fdj/api");
    described.description = "the api".to_string();
    let mut merge = request(105);
    merge.title = "Fix".to_string();
    merge.description = "fixes it".to_string();
    merge.author.username = "ann".to_string();
    merge.merge_status = "can_be_merged".to_string();
    let preview = display_preview("https://lab.blackfoot.io/fdj/api", &described, Some(&merge));
    assert_eq!(preview.title, "Fix");
    assert_eq!(preview.description, "fixes it");
    assert_eq!(preview.url, "https://lab.blackfoot.io/fdj/api");
    assert_eq!(preview.footer, "Gitlab Preview");
    assert_eq!(preview.image, PREVIEW_IMAGE);
    assert_eq!(
        preview.fields,
        vec![
            ("description", "the api".to_string()),
            ("author", "ann".to_string()),
            ("merge_status", "can_be_merged".to_string())
        ]
    );
    let bare = display_preview("https://lab.blackfoot.io/x", &project(2, "x"), None);
    assert_eq!(bare.title, "https://lab.blackfoot.io/x");
    assert_eq!(bare.description, "x");
    assert!(bare.fields.is_empty());
}
