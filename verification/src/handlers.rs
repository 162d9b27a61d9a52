//! Decision and assembly logic of the request endpoints. The HTTP surface,
//! the identity cookie and the store queries stay outside; these functions
//! take the values those layers produce and decide what each endpoint does
//! with them.

use vstd::prelude::*;

use crate::models;
use crate::pb;

verus! {

/// Paging parameters of the course listing.
pub struct ListCourseQuery {
    pub limit: Option<i64>,
    pub offset: Option<i64>,
    pub keyword: Option<String>,
}

/// The authenticated principal of a request; an empty `id` means nobody is
/// logged in.
pub struct LoggedUser {
    pub id: String,
    pub role: UserRole,
}

/// Capability level of a principal.
pub enum UserRole {
    Visitor,
    Reader,
}

/// The numeric code a role is stored and sent as.
pub open spec fn role_code(role: UserRole) -> i32 {
    match role {
        UserRole::Visitor => 0,
        UserRole::Reader => 1,
    }
}

impl UserRole {
    /// The stored numeric code of this role.
    pub fn code(&self) -> (r: i32)
        ensures
            r == role_code(*self),
    {
        match self {
            UserRole::Visitor => 0,
            UserRole::Reader => 1,
        }
    }

    /// The role a numeric code stands for; every unknown code is the lowest
    /// capability.
    pub fn from(v: u32) -> (r: UserRole)
        ensures
            v == 1 ==> r is Reader,
            v != 1 ==> r is Visitor,
    {
        if v == 1 {
            UserRole::Reader
        } else {
            UserRole::Visitor
        }
    }
}

pub struct LoginQuery {
    pub return_to: String,
}

pub struct GetConnectSecQuery {
    pub start_at_lt: i64,
    pub start_at_gt: i64,
}

/// The role granted from a role-row lookup: a stored code of 1 grants
/// `Reader`; any other row, a missing row or a failed lookup grants
/// `Visitor`.
pub fn get_user_role(lookup: Option<models::UserRole>) -> (r: UserRole)
    ensures
        (r is Reader) <==> (lookup matches Some(row) && row.role == 1),
{
    match lookup {
        Some(row) => {
            if row.role == 1 {
                UserRole::Reader
            } else {
                UserRole::Visitor
            }
        },
        None => UserRole::Visitor,
    }
}

/// Whether a principal may open a live connection: only a `Reader` may; the
/// transport is to be rejected as forbidden otherwise.
pub fn ws_start_allowed(user: &LoggedUser) -> (r: bool)
    ensures
        r == (user.role is Reader),
{
    match user.role {
        UserRole::Reader => true,
        UserRole::Visitor => false,
    }
}

/// Whether a request carries a logged-in principal: an empty id means it
/// does not, and the endpoint answers unauthorized.
pub fn is_authenticated(user: &LoggedUser) -> (r: bool)
    ensures
        r == (user.id@.len() > 0),
{
    !user.id.as_str().is_empty()
}

/// One page out of a listing fetched with one extra row: if more rows came
/// back than the page asked for, the extra row is dropped and the page is
/// marked as having more after it.
pub fn page_results(rows: Vec<models::Course>, limit: i64) -> (r: (Vec<models::Course>, bool))
    ensures
        r.1 == (rows@.len() > limit as usize),
        r.1 ==> r.0@ == rows@.drop_last(),
        !r.1 ==> r.0@ == rows@,
{
    let mut rows = rows;
    if rows.len() > #[verifier::truncate] (limit as usize) {
        rows.pop();
        (rows, true)
    } else {
        (rows, false)
    }
}

/// The listing response: every fetched course converted in order, plus the
/// has-more mark.
pub fn build_list_course_response(courses: Vec<models::Course>, more: bool) -> (r: pb::ListCourseResponse)
    ensures
        r.more == more,
        r.courses@.len() == courses@.len(),
        forall|i: int| 0 <= i < courses@.len() ==> {
            &&& pb::matches_course_row(#[trigger] r.courses@[i], courses@[i])
            &&& r.courses@[i].sections@.len() == 0
            &&& r.courses@[i].description@.len() == 0
            &&& r.courses@[i].study_info is None
        },
{
    let mut rest = courses;
    let ghost orig = rest@;
    let mut out: Vec<pb::Course> = Vec::new();
    while rest.len() > 0
        invariant
            out@.len() + rest@.len() == orig.len(),
            rest@ =~= orig.subrange(out@.len() as int, orig.len() as int),
            forall|i: int| 0 <= i < out@.len() ==> {
                &&& pb::matches_course_row(#[trigger] out@[i], orig[i])
                &&& out@[i].sections@.len() == 0
                &&& out@[i].description@.len() == 0
                &&& out@[i].study_info is None
            },
        decreases rest.len(),
    {
        let c = rest.remove(0);
        out.push(pb::Course::from(c));
    }
    pb::ListCourseResponse { courses: out, more }
}

/// The comment listing: each top-level comment with its replies nested in,
/// in fetched order.
pub fn build_comment_list(data: Vec<(Vec<models::ArticleComment>, models::ArticleComment)>) -> (r: pb::CommentList)
    ensures
        r.comments@.len() == data@.len(),
        forall|i: int| 0 <= i < data@.len() ==> {
            &&& #[trigger] r.comments@[i].content == data@[i].1.content
            &&& r.comments@[i].like_count == data@[i].1.like_count as u32
            &&& r.comments@[i].nick_name == data@[i].1.nick_name
            &&& r.comments@[i].replies@.len() == data@[i].0@.len()
            &&& forall|j: int| 0 <= j < data@[i].0@.len() ==> {
                &&& #[trigger] r.comments@[i].replies@[j].content == data@[i].0@[j].content
                &&& r.comments@[i].replies@[j].like_count == data@[i].0@[j].like_count as u32
                &&& r.comments@[i].replies@[j].nick_name == data@[i].0@[j].nick_name
                &&& r.comments@[i].replies@[j].replies@.len() == 0
            }
        },
{
    let mut rest = data;
    let ghost orig = rest@;
    let mut out: Vec<pb::Comment> = Vec::new();
    while rest.len() > 0
        invariant
            out@.len() + rest@.len() == orig.len(),
            rest@ =~= orig.subrange(out@.len() as int, orig.len() as int),
            forall|i: int| 0 <= i < out@.len() ==> {
                &&& #[trigger] out@[i].content == orig[i].1.content
                &&& out@[i].like_count == orig[i].1.like_count as u32
                &&& out@[i].nick_name == orig[i].1.nick_name
                &&& out@[i].replies@.len() == orig[i].0@.len()
                &&& forall|j: int| 0 <= j < orig[i].0@.len() ==> {
                    &&& #[trigger] out@[i].replies@[j].content == orig[i].0@[j].content
                    &&& out@[i].replies@[j].like_count == orig[i].0@[j].like_count as u32
                    &&& out@[i].replies@[j].nick_name == orig[i].0@[j].nick_name
                    &&& out@[i].replies@[j].replies@.len() == 0
                }
            },
        decreases rest.len(),
    {
        let (replies, comment) = rest.remove(0);
        let mut pbc = pb::Comment::from(comment);
        let mut reps = replies;
        let ghost rorig = reps@;
        let mut rs: Vec<pb::Comment> = Vec::new();
        while reps.len() > 0
            invariant
                rs@.len() + reps@.len() == rorig.len(),
                reps@ =~= rorig.subrange(rs@.len() as int, rorig.len() as int),
                forall|j: int| 0 <= j < rs@.len() ==> {
                    &&& #[trigger] rs@[j].content == rorig[j].content
                    &&& rs@[j].like_count == rorig[j].like_count as u32
                    &&& rs@[j].nick_name == rorig[j].nick_name
                    &&& rs@[j].replies@.len() == 0
                },
            decreases reps.len(),
        {
            let ghost pre = reps@;
            let ghost done = rs@.len() as int;
            let rep = reps.remove(0);
            proof {
                assert(pre[0] == rorig[done]);
                assert(reps@ =~= rorig.subrange(done + 1, rorig.len() as int));
            }
            rs.push(pb::Comment::from(rep));
        }
        pbc.replies = rs;
        out.push(pbc);
    }
    pb::CommentList { comments: out }
}

/// The first study-progress row for this article, if any: the listing
/// endpoints attach progress to the first row whose article id matches.
pub open spec fn find_study(infos: Seq<models::UserStudyInfo>, aid: Seq<char>) -> Option<
    models::UserStudyInfo,
>
    decreases infos.len(),
{
    if infos.len() == 0 {
        None
    } else if infos[0].article_id@ == aid {
        Some(infos[0])
    } else {
        find_study(infos.drop_first(), aid)
    }
}

/// The wire shape of one study-progress row.
pub open spec fn to_study(row: models::UserStudyInfo) -> pb::StudyInfo {
    pb::StudyInfo { percent: row.study_percent, last_study_at: row.last_study_at as u64 }
}

/// The progress attached to an article in a course listing: the first
/// matching row of the principal's progress, if the principal is logged in
/// and has any.
pub open spec fn study_of(study: Option<Vec<models::UserStudyInfo>>, aid: Seq<char>) -> Option<
    pb::StudyInfo,
> {
    match study {
        Some(v) => match find_study(v@, aid) {
            Some(row) => Some(to_study(row)),
            None => None,
        },
        None => None,
    }
}

/// The first study-progress row whose article id is `aid`, in wire shape.
fn find_study_exec(infos: &Vec<models::UserStudyInfo>, aid: &String) -> (r: Option<pb::StudyInfo>)
    ensures
        r == match find_study(infos@, aid@) {
            Some(row) => Some(to_study(row)),
            None => None,
        },
{
    let n = infos.len();
    proof {
        assert(infos@.subrange(0, n as int) =~= infos@);
    }
    let mut i: usize = 0;
    while i < n
        invariant
            0 <= i <= n,
            n == infos@.len(),
            find_study(infos@, aid@) == find_study(infos@.subrange(i as int, n as int), aid@),
        decreases n - i,
    {
        if infos[i].article_id.eq(aid) {
            return Some(
                pb::StudyInfo {
                    percent: infos[i].study_percent,
                    last_study_at: #[verifier::truncate] (infos[i].last_study_at as u64),
                },
            );
        }
        proof {
            assert(infos@.subrange(i as int, n as int).drop_first() =~= infos@.subrange(
                i + 1,
                n as int,
            ));
        }
        i = i + 1;
    }
    None
}

/// The full course-detail record: the course row with its sections and their
/// articles nested in, the long description when the content store has one,
/// and — for a logged-in principal — each article's study progress merged in
/// by article id.
pub fn get_course_detail(
    course: models::Course,
    sections: Vec<(models::Section, Vec<models::Article>)>,
    description: Option<String>,
    study: Option<Vec<models::UserStudyInfo>>,
) -> (r: pb::Course)
    ensures
        pb::matches_course_row(r, course),
        r.study_info is None,
        match description {
            Some(d) => r.description == d,
            None => r.description@.len() == 0,
        },
        r.sections@.len() == sections@.len(),
        forall|i: int| 0 <= i < sections@.len() ==> {
            &&& pb::matches_section_row(#[trigger] r.sections@[i], sections@[i].0)
            &&& r.sections@[i].articles@.len() == sections@[i].1@.len()
            &&& forall|j: int| 0 <= j < sections@[i].1@.len() ==> {
                &&& pb::matches_article_row(
                    #[trigger] r.sections@[i].articles@[j],
                    sections@[i].1@[j],
                )
                &&& r.sections@[i].articles@[j].content@.len() == 0
                &&& r.sections@[i].articles@[j].course is None
                &&& r.sections@[i].articles@[j].section is None
                &&& r.sections@[i].articles@[j].study_info == study_of(
                    study,
                    sections@[i].1@[j].id@,
                )
            }
        },
{
    let mut c = pb::Course::from(course);
    let mut rest = sections;
    let ghost sorig = rest@;
    let mut secs: Vec<pb::Section> = Vec::new();
    while rest.len() > 0
        invariant
            secs@.len() + rest@.len() == sorig.len(),
            rest@ =~= sorig.subrange(secs@.len() as int, sorig.len() as int),
            forall|i: int| 0 <= i < secs@.len() ==> {
                &&& pb::matches_section_row(#[trigger] secs@[i], sorig[i].0)
                &&& secs@[i].articles@.len() == sorig[i].1@.len()
                &&& forall|j: int| 0 <= j < sorig[i].1@.len() ==> {
                    &&& pb::matches_article_row(#[trigger] secs@[i].articles@[j], sorig[i].1@[j])
                    &&& secs@[i].articles@[j].content@.len() == 0
                    &&& secs@[i].articles@[j].course is None
                    &&& secs@[i].articles@[j].section is None
                    &&& secs@[i].articles@[j].study_info == study_of(study, sorig[i].1@[j].id@)
                }
            },
        decreases rest.len(),
    {
        let ghost pre = rest@;
        let ghost done = secs@.len() as int;
        let (srow, arts) = rest.remove(0);
        proof {
            assert(pre[0] == sorig[done]);
            assert(rest@ =~= sorig.subrange(done + 1, sorig.len() as int));
        }
        let mut ps = pb::Section::from(srow);
        let mut arest = arts;
        let ghost aorig = arest@;
        let mut parts: Vec<pb::Article> = Vec::new();
        while arest.len() > 0
            invariant
                parts@.len() + arest@.len() == aorig.len(),
                arest@ =~= aorig.subrange(parts@.len() as int, aorig.len() as int),
                forall|j: int| 0 <= j < parts@.len() ==> {
                    &&& pb::matches_article_row(#[trigger] parts@[j], aorig[j])
                    &&& parts@[j].content@.len() == 0
                    &&& parts@[j].course is None
                    &&& parts@[j].section is None
                    &&& parts@[j].study_info == study_of(study, aorig[j].id@)
                },
            decreases arest.len(),
        {
            let ghost apre = arest@;
            let ghost adone = parts@.len() as int;
            let arow = arest.remove(0);
            proof {
                assert(apre[0] == aorig[adone]);
                assert(arest@ =~= aorig.subrange(adone + 1, aorig.len() as int));
            }
            let mut pa = pb::Article::from(arow);
            pa.study_info = match &study {
                Some(infos) => find_study_exec(infos, &pa.id),
                None => None,
            };
            parts.push(pa);
        }
        ps.articles = parts;
        secs.push(ps);
    }
    proof {
        assert(sorig.subrange(0, sorig.len() as int) =~= sorig);
    }
    c.sections = secs;
    if let Some(d) = description {
        c.description = d;
    }
    c
}

/// The study-progress row an authenticated save request writes.
pub fn build_study_info(user_id: String, req: &pb::SaveStudyInfoRequest, now: i64) -> (r: models::UserStudyInfo)
    ensures
        r.id == 0,
        r.user_id == user_id,
        r.article_id@ == req.article_id@,
        r.course_id@ == req.course_id@,
        r.last_study_at == now,
        r.study_percent == req.percent,
{
    models::UserStudyInfo {
        id: 0,
        user_id,
        article_id: req.article_id.clone(),
        course_id: req.course_id.clone(),
        last_study_at: now,
        study_percent: req.percent,
    }
}

} // verus!
