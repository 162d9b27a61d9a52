use course_server::handlers::{
    build_list_course_response, build_comment_list, build_study_info, get_course_detail,
    get_user_role, is_authenticated, page_results, ws_start_allowed, LoggedUser, UserRole,
};
use course_server::models;
use course_server::pb;

fn course_row(id: &str, title: &str) -> models::Course {
    models::Course {
        id: String::from(id),
        brief: String::from("brief"),
        teacher_name: String::from("t"),
        teacher_title: String::from("tt"),
        image: String::from("img"),
        article_count: 3,
        purchased_count: String::from("12"),
        done: false,
        price: 42,
        title: String::from(title),
    }
}

fn article_row(id: &str) -> models::Article {
    models::Article {
        id: String::from(id),
        done: false,
        publish_date: String::from("2021-05-06"),
        section_id: String::from("s1"),
        title: String::from(id.to_owned() + " title"),
    }
}

fn study_row(article: &str, percent: u32, at: i64) -> models::UserStudyInfo {
    models::UserStudyInfo {
        id: 0,
        course_id: String::from("c1"),
        article_id: String::from(article),
        last_study_at: at,
        study_percent: percent,
        user_id: String::from("u1"),
    }
}

#[test]
fn course_conversion_copies_every_field() {
    let c = pb::Course::from(course_row("c1", "rust"));
    assert_eq!(c.id, "c1");
    assert_eq!(c.title, "rust");
    assert_eq!(c.brief, "brief");
    assert_eq!(c.teacher_name, "t");
    assert_eq!(c.teacher_title, "tt");
    assert_eq!(c.image, "img");
    assert_eq!(c.article_count, 3);
    assert_eq!(c.purchased_count, "12");
    assert_eq!(c.price, 42);
    assert!(!c.done);
    assert!(c.sections.is_empty());
    assert_eq!(c.description, "");
    assert!(c.study_info.is_none());
}

#[test]
fn negative_counts_wrap_to_the_wire_width() {
    let mut row = course_row("c1", "rust");
    row.article_count = -1;
    let c = pb::Course::from(row);
    assert_eq!(c.article_count, u32::MAX);
}

#[test]
fn article_conversion_leaves_detail_fields_empty() {
    let a = pb::Article::from(article_row("a1"));
    assert_eq!(a.id, "a1");
    assert_eq!(a.publish_date, "2021-05-06");
    assert_eq!(a.title, "a1 title");
    assert_eq!(a.content, "");
    assert!(a.course.is_none());
    assert!(a.section.is_none());
    assert!(a.study_info.is_none());
}

#[test]
fn role_names_are_stable() {
    assert_eq!(pb::UserRole::Visitor.as_str_name(), "Visitor");
    assert_eq!(pb::UserRole::Reader.as_str_name(), "Reader");
}

#[test]
fn role_codes_round_trip() {
    assert!(matches!(UserRole::from(1), UserRole::Reader));
    assert!(matches!(UserRole::from(0), UserRole::Visitor));
    assert!(matches!(UserRole::from(7), UserRole::Visitor));
    assert_eq!(UserRole::Reader.code(), 1);
    assert_eq!(UserRole::Visitor.code(), 0);
}

#[test]
fn role_lookup_grants_reader_only_for_code_one() {
    let row = models::UserRole {
        user_id: String::from("u1"),
        role: 1,
        created_at: 0,
        valid_before: i64::MAX,
        id: 1,
    };
    assert!(matches!(get_user_role(Some(row)), UserRole::Reader));
    let other = models::UserRole {
        user_id: String::from("u1"),
        role: 2,
        created_at: 0,
        valid_before: i64::MAX,
        id: 1,
    };
    assert!(matches!(get_user_role(Some(other)), UserRole::Visitor));
    assert!(matches!(get_user_role(None), UserRole::Visitor));
}

#[test]
fn only_readers_may_open_a_live_connection() {
    let reader = LoggedUser { id: String::from("u1"), role: UserRole::Reader };
    let visitor = LoggedUser { id: String::from("u1"), role: UserRole::Visitor };
    assert!(ws_start_allowed(&reader));
    assert!(!ws_start_allowed(&visitor));
}

#[test]
fn empty_principal_is_unauthenticated() {
    let nobody = LoggedUser { id: String::new(), role: UserRole::Visitor };
    let somebody = LoggedUser { id: String::from("u1"), role: UserRole::Visitor };
    assert!(!is_authenticated(&nobody));
    assert!(is_authenticated(&somebody));
}

#[test]
fn page_with_extra_row_reports_more() {
    let rows = vec![course_row("c1", "a"), course_row("c2", "b"), course_row("c3", "c")];
    let (page, more) = page_results(rows, 2);
    assert!(more);
    assert_eq!(page.len(), 2);
    assert_eq!(page[0].id, "c1");
    assert_eq!(page[1].id, "c2");
}

#[test]
fn exact_page_reports_no_more() {
    let rows = vec![course_row("c1", "a"), course_row("c2", "b")];
    let (page, more) = page_results(rows, 2);
    assert!(!more);
    assert_eq!(page.len(), 2);
}

#[test]
fn listing_response_converts_in_order() {
    let rows = vec![course_row("c1", "a"), course_row("c2", "b")];
    let resp = build_list_course_response(rows, true);
    assert!(resp.more);
    assert_eq!(resp.courses.len(), 2);
    assert_eq!(resp.courses[0].id, "c1");
    assert_eq!(resp.courses[1].id, "c2");
}

#[test]
fn comment_list_nests_replies() {
    let top = models::ArticleComment {
        id: String::from("cm1"),
        content: String::from("nice"),
        like_count: 2,
        nick_name: String::from("ann"),
        article_id: Some(String::from("a1")),
        parent_comment_id: None,
    };
    let reply = models::ArticleComment {
        id: String::from("cm2"),
        content: String::from("thanks"),
        like_count: 0,
        nick_name: String::from("bo"),
        article_id: None,
        parent_comment_id: Some(String::from("cm1")),
    };
    let list = build_comment_list(vec![(vec![reply], top)]);
    assert_eq!(list.comments.len(), 1);
    let c = &list.comments[0];
    assert_eq!(c.content, "nice");
    assert_eq!(c.like_count, 2);
    assert_eq!(c.nick_name, "ann");
    assert_eq!(c.replies.len(), 1);
    assert_eq!(c.replies[0].content, "thanks");
    assert!(c.replies[0].replies.is_empty());
}

#[test]
fn course_detail_nests_sections_and_merges_progress() {
    let sections = vec![
        (
            models::Section {
                id: String::from("s1"),
                course_id: String::from("c1"),
                title: String::from("one"),
            },
            vec![article_row("a1"), article_row("a2")],
        ),
        (
            models::Section {
                id: String::from("s2"),
                course_id: String::from("c1"),
                title: String::from("two"),
            },
            vec![article_row("a3")],
        ),
    ];
    let study = vec![
        study_row("a2", 80, 1111),
        study_row("a2", 99, 2222),
        study_row("a3", 10, 3333),
    ];
    let c = get_course_detail(
        course_row("c1", "rust"),
        sections,
        Some(String::from("<h1>desc</h1>")),
        Some(study),
    );
    assert_eq!(c.description, "<h1>desc</h1>");
    assert_eq!(c.sections.len(), 2);
    assert_eq!(c.sections[0].id, "s1");
    assert_eq!(c.sections[0].title, "one");
    assert_eq!(c.sections[0].articles.len(), 2);
    assert!(c.sections[0].articles[0].study_info.is_none());
    let merged = c.sections[0].articles[1].study_info.as_ref().unwrap();
    // the first matching row wins
    assert_eq!(merged.percent, 80);
    assert_eq!(merged.last_study_at, 1111);
    let third = c.sections[1].articles[0].study_info.as_ref().unwrap();
    assert_eq!(third.percent, 10);
    assert_eq!(third.last_study_at, 3333);
}

#[test]
fn course_detail_without_description_or_login() {
    let sections = vec![(
        models::Section {
            id: String::from("s1"),
            course_id: String::from("c1"),
            title: String::from("one"),
        },
        vec![article_row("a1")],
    )];
    let c = get_course_detail(course_row("c1", "rust"), sections, None, None);
    assert_eq!(c.description, "");
    assert!(c.sections[0].articles[0].study_info.is_none());
}

#[test]
fn study_info_row_is_built_from_the_request() {
    let req = pb::SaveStudyInfoRequest {
        article_id: String::from("a1"),
        course_id: String::from("c1"),
        percent: 77,
    };
    let row = build_study_info(String::from("u1"), &req, 1_700_000_555);
    assert_eq!(row.id, 0);
    assert_eq!(row.user_id, "u1");
    assert_eq!(row.article_id, "a1");
    assert_eq!(row.course_id, "c1");
    assert_eq!(row.last_study_at, 1_700_000_555);
    assert_eq!(row.study_percent, 77);
}

#[test]
fn user_info_carries_the_role_code() {
    let user = LoggedUser { id: String::from("u1"), role: UserRole::Reader };
    let info = pb::UserInfo::from(user);
    assert_eq!(info.id, "u1");
    assert_eq!(info.role, 1);
}

#[test]
fn negative_page_limit_never_reports_more() {
    let rows = vec![course_row("c1", "a")];
    let (page, more) = page_results(rows, -1);
    assert!(!more);
    assert_eq!(page.len(), 1);
}
