//! Rows of the backing store, as plain values. The store itself (queries,
//! pooling, files) is an external collaborator; only the shapes that the
//! coordinator and the assembly logic read live here.

use vstd::prelude::*;

verus! {

/// One article row.
pub struct Article {
    pub id: String,
    pub done: bool,
    pub publish_date: String,
    pub section_id: String,
    pub title: String,
}

/// One section row; a section belongs to a course.
pub struct Section {
    pub id: String,
    pub course_id: String,
    pub title: String,
}

/// One course row.
pub struct Course {
    pub id: String,
    pub brief: String,
    pub teacher_name: String,
    pub teacher_title: String,
    pub image: String,
    pub article_count: i32,
    pub purchased_count: String,
    pub done: bool,
    pub price: i32,
    pub title: String,
}

/// One comment row; a reply points at its parent comment.
pub struct ArticleComment {
    pub id: String,
    pub content: String,
    pub like_count: i32,
    pub nick_name: String,
    pub article_id: Option<String>,
    pub parent_comment_id: Option<String>,
}

/// One role row; the role is valid until `valid_before`.
pub struct UserRole {
    pub user_id: String,
    pub role: i32,
    pub created_at: i64,
    pub valid_before: i64,
    pub id: i32,
}

/// One study-progress row. `study_percent` carries the stored fraction as a
/// raw 32-bit pattern; nothing here interprets it, it is only moved between
/// records.
pub struct UserStudyInfo {
    pub id: i32,
    pub course_id: String,
    pub article_id: String,
    pub last_study_at: i64,
    pub study_percent: u32,
    pub user_id: String,
}

/// One connection-duration accounting row, written when a session ends.
pub struct WsConnectInfo {
    pub id: i32,
    pub user_id: String,
    pub start_at: i64,
    pub end_at: i64,
}

/// Result row of the summed-connection-seconds query.
pub struct ConnectionSecs {
    pub secs: i64,
}

} // verus!
