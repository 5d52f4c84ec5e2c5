//! The subject graph endpoints: which subject nodes a request asks for,
//! and the posts of one subject as its endpoint lists them.
use vstd::prelude::*;
use crate::threads::Timestamp;
use crate::dates::{rfc3339_of, rfc3339_text};

verus! {

/// The query of the subject graph: an intent to restrict the nodes to, and
/// how many days back to count posts.
#[derive(Debug)]
pub struct GraphQuery {
    pub intent: Option<String>,
    pub days: Option<i32>,
}

/// An intent as the subject graph lists it.
#[derive(Debug)]
pub struct IntentInfo {
    pub id: String,
    pub name: String,
    pub color: String,
    pub post_count: i64,
}

/// Which subject nodes the graph shows.
#[derive(Debug, Clone, Copy, PartialEq, Eq, Structural)]
pub enum NodeQuery {
    /// Every subject, counting all analysed posts.
    AllSubjects,
    /// Every subject, counting the analysed posts of this intent.
    ForIntent(u128),
    /// No node: the requested intent does not exist.
    NoNodes,
}

/// The nodes to show: all subjects where no intent was requested; those of
/// the requested intent where it was found by name; none where it was not.
pub fn node_query(intent_requested: bool, found_intent: Option<u128>) -> (q: NodeQuery)
    ensures
        !intent_requested ==> q is AllSubjects,
        intent_requested ==> match found_intent {
            Some(id) => q == NodeQuery::ForIntent(id),
            None => q is NoNodes,
        },
{
    if !intent_requested {
        NodeQuery::AllSubjects
    } else {
        match found_intent {
            Some(id) => NodeQuery::ForIntent(id),
            None => NodeQuery::NoNodes,
        }
    }
}

/// A post of a subject as its endpoint lists it.
#[derive(Debug)]
pub struct SubjectPost {
    pub id: String,
    pub text: Option<String>,
    pub intent: String,
    pub engagement: i64,
    pub views: i32,
    pub timestamp: String,
}

/// The posts of a subject.
#[derive(Debug)]
pub struct SubjectPostsResponse {
    pub subject: String,
    pub posts: Vec<SubjectPost>,
}

/// The query of a subject's posts: the name of an intent to keep.
#[derive(Debug)]
pub struct SubjectPostsQuery {
    pub intent: Option<String>,
}

/// A tag (an intent or a subject) by its id.
#[derive(Debug)]
pub struct Tag {
    pub id: u128,
    pub name: String,
}

/// A stored post of a subject.
#[derive(Debug)]
pub struct SubjectPostRow {
    pub id: String,
    pub text: Option<String>,
    pub intent_id: Option<u128>,
    pub likes: i32,
    pub replies_count: i32,
    pub reposts: i32,
    pub quotes: i32,
    pub views: i32,
    pub timestamp: Timestamp,
}

/// The position of the first tag with id `id`.
pub open spec fn position_of_id(tags: Seq<Tag>, id: u128) -> Option<int>
    decreases tags.len(),
{
    if tags.len() == 0 {
        None
    } else if tags.last().id == id {
        match position_of_id(tags.drop_last(), id) {
            Some(k) => Some(k),
            None => Some(tags.len() - 1),
        }
    } else {
        position_of_id(tags.drop_last(), id)
    }
}

/// The id of the first tag named `name`.
pub open spec fn id_of_name(tags: Seq<Tag>, name: Seq<char>) -> Option<u128>
    decreases tags.len(),
{
    if tags.len() == 0 {
        None
    } else if tags[0].name@ == name {
        Some(tags[0].id)
    } else {
        id_of_name(tags.drop_first(), name)
    }
}

/// The first tag with the given id, where there is one.
pub fn find_tag(tags: &Vec<Tag>, id: u128) -> (r: Option<usize>)
    ensures
        r matches Some(k) ==> k < tags@.len(),
        match r {
            Some(k) => position_of_id(tags@, id) == Some(k as int),
            None => position_of_id(tags@, id) is None,
        },
{
    let mut k: usize = 0;
    while k < tags.len()
        invariant
            k <= tags@.len(),
            position_of_id(tags@.take(k as int), id) is None,
        decreases tags.len() - k,
    {
        assert(tags@.take(k + 1).drop_last() =~= tags@.take(k as int));
        if tags[k].id == id {
            proof { lemma_position_extends(tags@, id, (k + 1) as int); }
            return Some(k);
        }
        k = k + 1;
    }
    assert(tags@.take(tags@.len() as int) =~= tags@);
    None
}

proof fn lemma_position_extends(tags: Seq<Tag>, id: u128, n: int)
    requires
        0 < n <= tags.len(),
        position_of_id(tags.take(n - 1), id) is None,
        tags[n - 1].id == id,
    ensures
        position_of_id(tags, id) == Some(n - 1),
    decreases tags.len() - n,
{
    assert(tags.take(n).drop_last() =~= tags.take(n - 1));
    if n < tags.len() {
        lemma_position_prefix(tags, id, n);
    } else {
        assert(tags.take(n) =~= tags);
    }
}

proof fn lemma_position_prefix(tags: Seq<Tag>, id: u128, n: int)
    requires
        0 <= n <= tags.len(),
        position_of_id(tags.take(n), id) is Some,
    ensures
        position_of_id(tags, id) == position_of_id(tags.take(n), id),
    decreases tags.len() - n,
{
    if n < tags.len() {
        assert(tags.take(n + 1).drop_last() =~= tags.take(n));
        lemma_position_prefix(tags, id, n + 1);
    } else {
        assert(tags.take(n) =~= tags);
    }
}

/// The id of the first tag named `name`, where there is one.
pub fn find_tag_by_name(tags: &Vec<Tag>, name: &str) -> (r: Option<u128>)
    ensures
        r == id_of_name(tags@, name@),
{
    let mut k: usize = 0;
    assert(tags@.skip(0) =~= tags@);
    while k < tags.len()
        invariant
            k <= tags@.len(),
            id_of_name(tags@, name@) == id_of_name(tags@.skip(k as int), name@),
        decreases tags.len() - k,
    {
        assert(tags@.skip(k as int).drop_first() =~= tags@.skip(k + 1));
        if crate::text::str_eq(tags[k].name.as_str(), name) {
            return Some(tags[k].id);
        }
        k = k + 1;
    }
    None
}

/// The name of the intent a post has, or the empty text where it has none
/// or no intent has its id.
pub open spec fn intent_name(intents: Seq<Tag>, id: Option<u128>) -> Seq<char> {
    match id {
        Some(i) => match position_of_id(intents, i) {
            Some(k) => intents[k].name@,
            None => Seq::empty(),
        },
        None => Seq::empty(),
    }
}

/// The engagement of a stored post: likes, replies, reposts and quotes.
pub open spec fn row_engagement(r: SubjectPostRow) -> int {
    r.likes + r.replies_count + r.reposts + r.quotes
}

/// Whether each partial sum of a row's engagement, added in 32 bits from
/// the left, fits an `i32`.
pub open spec fn sums_fit(r: SubjectPostRow) -> bool {
    &&& i32::MIN <= r.likes + r.replies_count <= i32::MAX
    &&& i32::MIN <= r.likes + r.replies_count + r.reposts <= i32::MAX
    &&& i32::MIN <= row_engagement(r) <= i32::MAX
}

/// Whether the engagement of each row can be added up in 32 bits.
pub open spec fn engagement_fits(rows: Seq<SubjectPostRow>) -> bool {
    forall|k: int| 0 <= k < rows.len() ==> #[trigger] sums_fit(rows[k])
}

/// Whether `p` lists the row `r`.
pub open spec fn lists_row(p: SubjectPost, r: SubjectPostRow, intents: Seq<Tag>) -> bool {
    &&& p.id == r.id
    &&& p.text == r.text
    &&& p.intent@ == intent_name(intents, r.intent_id)
    &&& p.engagement == row_engagement(r)
    &&& p.views == r.views
    &&& rfc3339_of(r.timestamp.secs as int, r.timestamp.nanos as int) == Some(p.timestamp@)
}

/// The posts of the subject named `subject`, listed from its stored rows in
/// order; `None` where chrono cannot write the timestamp of one of them.
pub fn subject_posts(subject: String, rows: &Vec<SubjectPostRow>, intents: &Vec<Tag>) -> (r: Option<SubjectPostsResponse>)
    requires
        engagement_fits(rows@),
    ensures
        match r {
            Some(resp) => {
                &&& resp.subject == subject
                &&& resp.posts@.len() == rows@.len()
                &&& forall|k: int| 0 <= k < rows@.len() ==> lists_row(#[trigger] resp.posts@[k], rows@[k], intents@)
                &&& forall|k: int|
                    0 <= k < rows@.len() ==> (#[trigger] resp.posts@[k]).engagement == rows@[k].likes + rows@[k].replies_count
                        + rows@[k].reposts + rows@[k].quotes && resp.posts@[k].views == rows@[k].views
            },
            None => exists|k: int| 0 <= k < rows@.len()
                && rfc3339_of((#[trigger] rows@[k]).timestamp.secs as int, rows@[k].timestamp.nanos as int) is None,
        },
{
    let mut posts: Vec<SubjectPost> = Vec::new();
    let mut k: usize = 0;
    while k < rows.len()
        invariant
            k <= rows@.len(),
            engagement_fits(rows@),
            posts@.len() == k,
            forall|j: int| 0 <= j < k ==> lists_row(#[trigger] posts@[j], rows@[j], intents@),
        decreases rows.len() - k,
    {
        let row = &rows[k];
        assert(sums_fit(rows@[k as int]));
        let timestamp = match rfc3339_text(&row.timestamp) {
            Some(t) => t,
            None => {
                return None;
            },
        };
        let intent = match row.intent_id {
            Some(iid) => match find_tag(intents, iid) {
                Some(i) => intents[i].name.clone(),
                None => String::new(),
            },
            None => String::new(),
        };
        let sum: i32 = row.likes + row.replies_count + row.reposts + row.quotes;
        posts.push(SubjectPost {
            id: row.id.clone(),
            text: row.text.clone(),
            intent,
            engagement: sum as i64,
            views: row.views,
            timestamp,
        });
        k = k + 1;
    }
    Some(SubjectPostsResponse { subject, posts })
}

} // verus!
