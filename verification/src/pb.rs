//! Wire-side records: what the endpoints and the live connection hand to the
//! peer. The byte encoding of these records is done outside the library; here
//! they are plain values, assembled from store rows by the conversions below.

use vstd::prelude::*;

use crate::handlers;
use crate::models;

verus! {

/// A course as sent to the peer, with its sections nested in.
pub struct Course {
    pub article_count: u32,
    pub brief: String,
    pub done: bool,
    pub id: String,
    pub image: String,
    pub price: u32,
    pub purchased_count: String,
    pub teacher_name: String,
    pub teacher_title: String,
    pub title: String,
    pub sections: Vec<Section>,
    pub description: String,
    pub study_info: Option<StudyInfo>,
}

/// Study progress attached to a record. `percent` carries the stored
/// fraction as a raw 32-bit pattern, moved through unchanged.
pub struct StudyInfo {
    pub percent: u32,
    pub last_study_at: u64,
}

pub struct ListCourseResponse {
    pub courses: Vec<Course>,
    pub more: bool,
}

pub struct Section {
    pub id: String,
    pub title: String,
    pub articles: Vec<Article>,
}

pub struct SectionList {
    pub sections: Vec<Section>,
}

/// An article as sent to the peer, with its owning section and course.
pub struct Article {
    pub id: String,
    pub title: String,
    pub publish_date: String,
    pub done: bool,
    pub content: String,
    pub course: Option<Course>,
    pub section: Option<Section>,
    pub study_info: Option<StudyInfo>,
}

pub struct ArticleList {
    pub articles: Vec<Article>,
}

pub struct Comment {
    pub content: String,
    pub like_count: u32,
    pub nick_name: String,
    pub replies: Vec<Comment>,
}

pub struct CommentList {
    pub comments: Vec<Comment>,
}

pub struct UserInfo {
    pub id: String,
    pub role: i32,
}

pub struct SaveStudyInfoRequest {
    pub article_id: String,
    pub course_id: String,
    pub percent: u32,
}

/// Capability level of a principal on the wire.
pub enum UserRole {
    Visitor,
    Reader,
}

impl UserRole {
    /// Stable name of the enum field, for programmatic use.
    pub fn as_str_name(&self) -> (r: &'static str)
        ensures
            self is Visitor ==> r@ == "Visitor"@,
            self is Reader ==> r@ == "Reader"@,
    {
        match self {
            UserRole::Visitor => "Visitor",
            UserRole::Reader => "Reader",
        }
    }
}

/// The wire course fields that come straight from a course row.
pub open spec fn matches_course_row(c: Course, row: models::Course) -> bool {
    &&& c.article_count == row.article_count as u32
    &&& c.brief == row.brief
    &&& c.done == row.done
    &&& c.id == row.id
    &&& c.image == row.image
    &&& c.price == row.price as u32
    &&& c.purchased_count == row.purchased_count
    &&& c.teacher_name == row.teacher_name
    &&& c.teacher_title == row.teacher_title
    &&& c.title == row.title
}

/// The wire section fields that come straight from a section row.
pub open spec fn matches_section_row(s: Section, row: models::Section) -> bool {
    &&& s.id == row.id
    &&& s.title == row.title
}

/// The wire article fields that come straight from an article row.
pub open spec fn matches_article_row(a: Article, row: models::Article) -> bool {
    &&& a.id == row.id
    &&& a.done == row.done
    &&& a.publish_date == row.publish_date
    &&& a.title == row.title
}

/// The wire comment fields that come straight from a comment row.
pub open spec fn matches_comment_row(c: Comment, row: models::ArticleComment) -> bool {
    &&& c.content == row.content
    &&& c.like_count == row.like_count as u32
    &&& c.nick_name == row.nick_name
}

impl Course {
    /// A course record from its store row: counts carried over (reduced to
    /// the wire width), nothing nested yet.
    pub fn from(course: models::Course) -> (r: Course)
        ensures
            matches_course_row(r, course),
            r.sections@.len() == 0,
            r.description@.len() == 0,
            r.study_info is None,
    {
        Course {
            article_count: #[verifier::truncate] (course.article_count as u32),
            brief: course.brief,
            done: course.done,
            id: course.id,
            image: course.image,
            price: #[verifier::truncate] (course.price as u32),
            purchased_count: course.purchased_count,
            teacher_name: course.teacher_name,
            teacher_title: course.teacher_title,
            title: course.title,
            sections: Vec::new(),
            description: String::new(),
            study_info: None,
        }
    }
}

impl Section {
    /// A section record from its store row, without its articles.
    pub fn from(section: models::Section) -> (r: Section)
        ensures
            matches_section_row(r, section),
            r.articles@.len() == 0,
    {
        Section { id: section.id, title: section.title, articles: Vec::new() }
    }
}

impl Article {
    /// An article record from its store row: content, hierarchy and progress
    /// are attached later by the caller.
    pub fn from(article: models::Article) -> (r: Article)
        ensures
            matches_article_row(r, article),
            r.content@.len() == 0,
            r.course is None,
            r.section is None,
            r.study_info is None,
    {
        Article {
            id: article.id,
            done: article.done,
            publish_date: article.publish_date,
            title: article.title,
            content: String::new(),
            course: None,
            section: None,
            study_info: None,
        }
    }
}

impl Comment {
    /// A comment record from its store row, without its replies.
    pub fn from(comment: models::ArticleComment) -> (r: Comment)
        ensures
            matches_comment_row(r, comment),
            r.replies@.len() == 0,
    {
        Comment {
            content: comment.content,
            like_count: #[verifier::truncate] (comment.like_count as u32),
            nick_name: comment.nick_name,
            replies: Vec::new(),
        }
    }
}

impl UserInfo {
    /// The wire shape of a logged-in principal.
    pub fn from(user: handlers::LoggedUser) -> (r: UserInfo)
        ensures
            r.id == user.id,
            r.role == handlers::role_code(user.role),
    {
        UserInfo { id: user.id, role: handlers::UserRole::code(&user.role) }
    }
}

} // verus!
