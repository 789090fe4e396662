use wordford::models::app::{AppSearch, AppWithPages, CreateAppForm};
use wordford::models::content::{Content, FullContent, NewContentRequest};
use wordford::models::page::{NewPageRequest, Page, PageContent, PageWithContent};
use wordford::naming::{store_name, with_underscores};
use wordford::repositories::apps::{app_of_row, created_app, like_pattern};
use wordford::repositories::pages::{page_content, page_of_joined, JoinedRow};
use wordford::routes::apps::{app_template, find_by_id_status, find_pages_status, search_is_empty};
use wordford::routes::content::{
    create_content_notice, delete_content_status, edit_status, listed, save_failure,
    update_content_notice,
};
use wordford::routes::homepage::{failure_body, HomepageFailure, HOMEPAGE, HOMEPAGE_APP};
use wordford::routes::pages::{create_page_reply, page_template, CreatePageReply};
use wordford::routes::{create_status, delete_status, read_status, Notice};
use wordford::store::StoreError;

fn content(id: i64, name: &str, body: &str) -> Content {
    Content {
        id,
        page_id: 3,
        name: name.to_string(),
        body: body.to_string(),
        created_at: "then".to_string(),
        updated_at: "now".to_string(),
    }
}

fn page(app_id: i64) -> Page {
    Page {
        id: 3,
        app_id,
        name: "home".to_string(),
        created_at: "then".to_string(),
        updated_at: "now".to_string(),
    }
}

fn app_with_pages() -> AppWithPages {
    AppWithPages {
        app: app_of_row(1, "site".to_string(), None, None, "then".to_string(), "now".to_string()),
        pages: vec![page(1)],
    }
}

fn page_with_content() -> PageWithContent {
    PageWithContent { app: app_with_pages().app, page: page(1), content: vec![content(1, "a", "b")] }
}

const ERRORS: [StoreError; 4] = [
    StoreError::RowNotFound,
    StoreError::UniqueViolation,
    StoreError::ForeignKeyViolation,
    StoreError::Other,
];

#[test]
fn names_are_stored_as_slugs_with_underscores() {
    assert_eq!(store_name("My Test String!!!1!1"), "my_test_string_1_1");
    assert_eq!(store_name("Hello World"), "hello_world");
    assert_eq!(store_name("  --test_-_cool"), "test_cool");
    assert_eq!(store_name("\u{c6}\u{fa}\u{171}--cool?"), "aeuu_cool");
    assert_eq!(store_name("user@example.com"), "user_example_com");
    assert_eq!(store_name("already_fine"), "already_fine");
    assert_eq!(store_name("a-b"), "a_b");
    assert_eq!(store_name(""), "");
    assert_eq!(store_name("!!!"), "");
    for text in ["Hero Title", "x", "A--B", "\u{4e2d}\u{6587} page", "tab\there"] {
        assert_eq!(store_name(text), slug::slugify(text).replace("-", "_"));
    }
}

#[test]
fn hyphens_become_underscores() {
    assert_eq!(with_underscores("a-b--c"), "a_b__c");
    assert_eq!(with_underscores("-"), "_");
    assert_eq!(with_underscores(""), "");
    assert_eq!(with_underscores("no hyphen_here \u{2010}"), "no hyphen_here \u{2010}");
}

#[test]
fn requests_are_named_for_the_store() {
    let block = wordford::services::content::named_for_store(NewContentRequest {
        page_id: 3,
        name: "Hero Title!".to_string(),
        body: "Hello - World".to_string(),
    });
    assert_eq!(block.page_id, 3);
    assert_eq!(block.name, "hero_title");
    assert_eq!(block.body, "Hello - World");
    let page = wordford::repositories::pages::named_for_store(NewPageRequest {
        app_id: 4,
        name: "About Us".to_string(),
    });
    assert_eq!(page.app_id, 4);
    assert_eq!(page.name, "about_us");
}

#[test]
fn search_pattern_contains_the_part() {
    assert_eq!(like_pattern("abc"), "%abc%");
    assert_eq!(like_pattern(""), "%%");
    assert_eq!(like_pattern("50%"), "%50%%");
}

#[test]
fn blank_search_is_not_made() {
    for (name, skip) in [("", true), ("  ", true), ("\t\n", true), ("a", false), (" a ", false)] {
        assert_eq!(search_is_empty(&AppSearch { name: name.to_string() }), skip);
    }
}

#[test]
fn null_columns_of_an_app_are_empty() {
    let app = app_of_row(1, "site".to_string(), None, None, "then".to_string(), "now".to_string());
    assert_eq!(app.id, 1);
    assert_eq!(app.name, "site");
    assert_eq!(app.description, "");
    assert_eq!(app.url, "");
    assert_eq!(app.created_at, "then");
    assert_eq!(app.updated_at, "now");
    let app = app_of_row(
        2,
        "site".to_string(),
        Some("about".to_string()),
        Some("http://x".to_string()),
        "then".to_string(),
        "now".to_string(),
    );
    assert_eq!(app.id, 2);
    assert_eq!(app.description, "about");
    assert_eq!(app.url, "http://x");
}

#[test]
fn created_app_is_what_was_submitted() {
    let form = CreateAppForm {
        name: "site".to_string(),
        description: "about".to_string(),
        url: "http://x".to_string(),
    };
    let app = created_app(9, form, "then".to_string(), "now".to_string());
    assert_eq!(app.id, 9);
    assert_eq!(app.name, "site");
    assert_eq!(app.description, "about");
    assert_eq!(app.url, "http://x");
    assert_eq!(app.created_at, "then");
    assert_eq!(app.updated_at, "now");
}

#[test]
fn page_without_content_is_not_found() {
    assert!(matches!(page_content(&vec![]), Err(StoreError::RowNotFound)));
}

#[test]
fn page_content_is_by_name() {
    let blocks = vec![content(1, "title", "Hello"), content(2, "intro", "Welcome")];
    let by_name = page_content(&blocks).expect("content");
    assert_eq!(by_name.get("title"), Some(&"Hello".to_string()));
    assert_eq!(by_name.get("intro"), Some(&"Welcome".to_string()));
    assert_eq!(by_name.get("Title"), None);
    assert_eq!(by_name.get(""), None);
    assert_eq!(by_name.entries().len(), 2);
}

#[test]
fn later_block_of_a_name_counts() {
    let blocks = vec![
        content(1, "title", "first"),
        content(2, "intro", "Welcome"),
        content(3, "title", "second"),
    ];
    let by_name = page_content(&blocks).expect("content");
    assert_eq!(by_name.get("title"), Some(&"second".to_string()));
    assert_eq!(by_name.get("intro"), Some(&"Welcome".to_string()));
    assert_eq!(by_name.entries().len(), 2);
    let collected: std::collections::HashMap<String, String> =
        blocks.iter().map(|block| (block.name.clone(), block.body.clone())).collect();
    let held: std::collections::HashMap<String, String> =
        by_name.entries().iter().cloned().collect();
    assert_eq!(held, collected);
}

#[test]
fn page_content_holds_each_name_once() {
    let mut held = PageContent::new();
    assert_eq!(held.entries().len(), 0);
    assert_eq!(held.get("a"), None);
    held.insert("a".to_string(), "1".to_string());
    held.insert("b".to_string(), "2".to_string());
    held.insert("a".to_string(), "3".to_string());
    assert_eq!(held.get("a"), Some(&"3".to_string()));
    assert_eq!(held.get("b"), Some(&"2".to_string()));
    assert_eq!(
        held.entries(),
        &vec![("a".to_string(), "3".to_string()), ("b".to_string(), "2".to_string())]
    );
}

#[test]
fn reads_are_found_missing_or_failed() {
    assert_eq!(read_status(&Ok::<i64, StoreError>(1)), 200);
    assert_eq!(read_status(&Err::<i64, StoreError>(StoreError::RowNotFound)), 404);
    assert_eq!(read_status(&Err::<i64, StoreError>(StoreError::Other)), 500);
    assert_eq!(read_status(&Err::<i64, StoreError>(StoreError::UniqueViolation)), 500);
    assert_eq!(read_status(&Err::<i64, StoreError>(StoreError::ForeignKeyViolation)), 500);
    assert_eq!(find_by_id_status(&Ok(app_with_pages())), 200);
    assert_eq!(find_by_id_status(&Err(StoreError::RowNotFound)), 404);
    assert_eq!(find_by_id_status(&Err(StoreError::Other)), 500);
    assert_eq!(find_pages_status(&Ok(vec![page(1)])), 200);
    assert_eq!(find_pages_status(&Ok(vec![])), 200);
    assert_eq!(find_pages_status(&Err(StoreError::RowNotFound)), 404);
    assert_eq!(find_pages_status(&Err(StoreError::Other)), 500);
    let full = FullContent { content: content(1, "a", "b"), page: page_with_content() };
    assert_eq!(edit_status(&Ok(full)), 200);
    assert_eq!(edit_status(&Err(StoreError::RowNotFound)), 404);
    assert_eq!(edit_status(&Err(StoreError::ForeignKeyViolation)), 500);
}

#[test]
fn writes_are_done_or_failed() {
    assert_eq!(create_status(&Ok::<String, StoreError>("success".to_string())), 201);
    assert_eq!(delete_status(&Ok(())), 204);
    for error in ERRORS {
        assert_eq!(create_status(&Err::<String, StoreError>(error)), 500);
        assert_eq!(delete_status(&Err(error)), 500);
    }
    assert_eq!(delete_content_status(&Ok(())), 200);
    assert_eq!(delete_content_status(&Err(StoreError::RowNotFound)), 404);
    assert_eq!(delete_content_status(&Err(StoreError::Other)), 500);
    assert_eq!(delete_content_status(&Err(StoreError::UniqueViolation)), 500);
}

#[test]
fn app_page_is_empty_unless_found() {
    assert_eq!(app_template(&Ok(app_with_pages()), "apps/index.html"), Some("apps/index.html"));
    for error in ERRORS {
        assert_eq!(app_template(&Err(error), "apps/index.html"), None);
    }
}

#[test]
fn content_list_is_empty_for_a_page_without_content() {
    let some = listed(Ok(vec![content(1, "a", "b")])).expect("a list");
    assert_eq!(some.len(), 1);
    assert_eq!(some[0].name, "a");
    assert_eq!(listed(Err(StoreError::RowNotFound)).expect("a list").len(), 0);
    assert_eq!(listed(Err(StoreError::Other)).err(), Some(500));
    assert_eq!(listed(Err(StoreError::UniqueViolation)).err(), Some(500));
}

#[test]
fn saving_content_is_answered_by_outcome() {
    assert!(matches!(
        create_content_notice(&Ok(content(1, "a", "b"))),
        Notice::Success(
            "Created the content, you can add more content below, or go back to the page."
        )
    ));
    assert!(matches!(
        update_content_notice(&Ok(content(1, "a", "b"))),
        Notice::Success("Content updated successfully.")
    ));
    assert!(matches!(
        save_failure(StoreError::UniqueViolation),
        Notice::Error("Content with this name already exists.")
    ));
    assert!(matches!(
        save_failure(StoreError::ForeignKeyViolation),
        Notice::Error("The page you're adding to does not appear to exist.")
    ));
    assert!(matches!(
        save_failure(StoreError::Other),
        Notice::Error("Something happened when saving your content")
    ));
    assert!(matches!(
        save_failure(StoreError::RowNotFound),
        Notice::Error("Something happened when saving your content")
    ));
    assert!(matches!(
        create_content_notice(&Err(StoreError::UniqueViolation)),
        Notice::Error("Content with this name already exists.")
    ));
    assert!(matches!(
        update_content_notice(&Err(StoreError::ForeignKeyViolation)),
        Notice::Error("The page you're adding to does not appear to exist.")
    ));
    assert!(matches!(
        update_content_notice(&Err(StoreError::Other)),
        Notice::Error("Something happened when saving your content")
    ));
}

#[test]
fn page_is_shown_missing_or_failed() {
    assert_eq!(page_template(&Ok(page_with_content()), "pages/index.html"), "pages/index.html");
    assert_eq!(
        page_template(&Ok(page_with_content()), "pages/create_content.html"),
        "pages/create_content.html"
    );
    assert_eq!(page_template(&Err(StoreError::RowNotFound), "pages/index.html"), "shared/404.html");
    assert_eq!(page_template(&Err(StoreError::Other), "pages/index.html"), "shared/500.html");
    assert_eq!(
        page_template(&Err(StoreError::UniqueViolation), "pages/index.html"),
        "shared/500.html"
    );
}

#[test]
fn created_page_sends_the_browser_to_its_app() {
    for (app_id, path) in [(12i64, "/apps/12"), (0, "/apps/0"), (-3, "/apps/-3")] {
        match create_page_reply(&Ok(page(app_id))) {
            CreatePageReply::Redirect(to) => assert_eq!(to, path),
            CreatePageReply::Retry(_) => panic!("retry"),
        }
    }
    assert!(matches!(
        create_page_reply(&Err(StoreError::UniqueViolation)),
        CreatePageReply::Retry(Notice::Error("Page name already exists for this app."))
    ));
    assert!(matches!(
        create_page_reply(&Err(StoreError::ForeignKeyViolation)),
        CreatePageReply::Retry(Notice::Error("The provided App ID is not valid."))
    ));
    assert!(matches!(
        create_page_reply(&Err(StoreError::Other)),
        CreatePageReply::Retry(Notice::Error("Something went wrong creating the page."))
    ));
    assert!(matches!(
        create_page_reply(&Err(StoreError::RowNotFound)),
        CreatePageReply::Retry(Notice::Error("Something went wrong creating the page."))
    ));
}

#[test]
fn home_page_failures_have_their_pages() {
    assert_eq!(HOMEPAGE, "homepage");
    assert_eq!(HOMEPAGE_APP, 1);
    assert_eq!(failure_body(HomepageFailure::Loading), "<h1>Error loading content</h1>");
    assert_eq!(failure_body(HomepageFailure::Context), "<h1>Error preparing context</h1>");
    assert_eq!(
        failure_body(HomepageFailure::Rendering),
        "Error rendering the homepage, did you you need to have <code>homepage_content</code> present in your wordford page"
    );
}

fn joined(name: Option<&str>, body: Option<&str>) -> JoinedRow {
    JoinedRow {
        id: 3,
        app_id: 1,
        name: "home".to_string(),
        created_at: "then".to_string(),
        updated_at: "now".to_string(),
        content_name: name.map(str::to_string),
        content_body: body.map(str::to_string),
    }
}

#[test]
fn no_joined_rows_is_no_page() {
    assert!(page_of_joined(&vec![]).is_none());
}

#[test]
fn page_without_content_joins_to_an_empty_page() {
    let (page, content) = page_of_joined(&vec![joined(None, None)]).expect("a page");
    assert_eq!(page.id, 3);
    assert_eq!(page.app_id, 1);
    assert_eq!(page.name, "home");
    assert_eq!(page.created_at, "then");
    assert_eq!(page.updated_at, "now");
    assert_eq!(content.entries().len(), 0);
}

#[test]
fn joined_rows_give_the_page_and_its_content() {
    let rows = vec![
        joined(Some("title"), Some("first")),
        joined(Some("intro"), Some("Welcome")),
        joined(Some("orphan"), None),
        joined(None, Some("nameless")),
        joined(Some("title"), Some("second")),
    ];
    let (page, content) = page_of_joined(&rows).expect("a page");
    assert_eq!(page.id, 3);
    assert_eq!(page.name, "home");
    assert_eq!(content.get("title"), Some(&"second".to_string()));
    assert_eq!(content.get("intro"), Some(&"Welcome".to_string()));
    assert_eq!(content.get("orphan"), None);
    assert_eq!(content.entries().len(), 2);
}
