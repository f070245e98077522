//! The post (CMS) surface: validation and decision logic behind creating,
//! updating, removing and listing posts. Document identifiers are carried as
//! 24-digit hexadecimal strings; timestamps as milliseconds since the epoch.
//! The caller performs the document reads and writes and hands the fetched
//! values in.
use vstd::prelude::*;

use crate::models::User;

verus! {

/// Everything a post mutation can be refused for.
#[derive(Clone, Copy, Debug, PartialEq, Eq, Structural)]
pub enum CmsError {
    /// The submitted author identifier is not a valid document id.
    InvalidAuthorId,
    /// No user document carries the submitted author identifier.
    AuthorNotFound,
    /// The submitted post identifier is not a valid document id.
    InvalidPostId,
    /// The store modified no document for the update.
    UpdateFailed,
}

/// The message each refusal is reported with.
pub open spec fn spec_cms_message(e: CmsError) -> Seq<char> {
    match e {
        CmsError::InvalidAuthorId => "Invalid author ID"@,
        CmsError::AuthorNotFound => "Author not found"@,
        CmsError::InvalidPostId => "Invalid post ID"@,
        CmsError::UpdateFailed => "Failed to update post"@,
    }
}

impl CmsError {
    /// The message this refusal is reported with.
    pub fn message(&self) -> (r: &'static str)
        ensures
            r@ == spec_cms_message(*self),
    {
        match self {
            CmsError::InvalidAuthorId => "Invalid author ID",
            CmsError::AuthorNotFound => "Author not found",
            CmsError::InvalidPostId => "Invalid post ID",
            CmsError::UpdateFailed => "Failed to update post",
        }
    }
}

/// A stored post; `author` is the author's document id, timestamps are
/// milliseconds since the epoch.
#[derive(Debug)]
pub struct Post {
    pub id: Option<String>,
    pub title: String,
    pub thumbnail: String,
    pub author: String,
    pub desc: String,
    pub created_at: Option<i64>,
    pub updated_at: Option<i64>,
}

/// The body of a post-creation request.
pub struct PostInput {
    pub title: String,
    pub thumbnail: String,
    pub author_id: String,
    pub desc: String,
}

/// The body of a post-update request; a field left `None` keeps its stored
/// value.
pub struct PostUpdateInput {
    pub title: Option<String>,
    pub thumbnail: Option<String>,
    pub author_id: Option<String>,
    pub desc: Option<String>,
}

/// Whether `c` is a hexadecimal digit.
pub open spec fn is_hex_digit(c: char) -> bool {
    ('0' <= c && c <= '9') || ('a' <= c && c <= 'f') || ('A' <= c && c <= 'F')
}

/// Whether `s` is a valid document identifier: exactly 24 hexadecimal
/// digits.
pub open spec fn is_object_id_hex(s: Seq<char>) -> bool {
    s.len() == 24 && (forall|i: int| 0 <= i < 24 ==> is_hex_digit(s[i]))
}

/// Checks that a string is a valid document identifier.
pub fn validate_object_id(s: &str) -> (r: bool)
    ensures
        r == is_object_id_hex(s@),
{
    let n = s.unicode_len();
    if n != 24 {
        return false;
    }
    let mut i: usize = 0;
    while i < 24
        invariant
            s@.len() == 24,
            i <= 24,
            forall|j: int| 0 <= j < i ==> is_hex_digit(s@[j]),
        decreases 24 - i,
    {
        let c = s.get_char(i);
        let hex = ('0' <= c && c <= '9') || ('a' <= c && c <= 'f') || ('A' <= c && c <= 'F');
        if !hex {
            return false;
        }
        i = i + 1;
    }
    true
}

/// What a chrono RFC 3339 rendering of a millisecond timestamp reads as:
/// deterministic in the timestamp alone.
pub uninterp spec fn rfc3339_of(millis: i64) -> Seq<char>;

/// Relies on chrono::DateTime::from_timestamp_millis and
/// chrono::DateTime::to_rfc3339: the rendered text depends on the
/// millisecond timestamp alone (an out-of-range timestamp renders empty).
#[verifier::external_body]
pub(crate) fn format_timestamp(millis: i64) -> (r: String)
    ensures
        r@ == rfc3339_of(millis),
{
    match chrono::DateTime::<chrono::Utc>::from_timestamp_millis(millis) {
        Some(dt) => dt.to_rfc3339(),
        None => String::new(),
    }
}

/// An author as the post listing exposes one.
pub struct Author {
    pub id: String,
    pub email: String,
    pub full_name: String,
    pub phone_number: Option<String>,
}

/// A post as the listing exposes one, with its author embedded.
pub struct GQLPost {
    pub id: String,
    pub title: String,
    pub desc: String,
    pub thumbnail: String,
    pub created_at: String,
    pub updated_at: Option<String>,
    pub author: Author,
}

/// Whether `a` is exactly the exposed form of the author record `u`.
pub open spec fn exposes_author(a: Author, u: User) -> bool {
    &&& a.id@ == crate::accounts::exposed_id(u.id.deep_view())
    &&& a.email@ == u.email@
    &&& a.full_name@ == (match u.full_name {
        Some(n) => n@,
        None => Seq::<char>::empty(),
    })
    &&& a.phone_number.deep_view() == u.phone_number.deep_view()
}

/// Whether `g` is exactly the exposed form of post `p` by author `u`:
/// the text fields unchanged, the timestamps rendered, the author embedded.
pub open spec fn exposes_post(g: GQLPost, p: Post, u: User) -> bool {
    &&& g.id@ == crate::accounts::exposed_id(p.id.deep_view())
    &&& g.title@ == p.title@
    &&& g.desc@ == p.desc@
    &&& g.thumbnail@ == p.thumbnail@
    &&& g.created_at@ == (match p.created_at {
        Some(ms) => rfc3339_of(ms),
        None => Seq::<char>::empty(),
    })
    &&& g.updated_at.deep_view() == (match p.updated_at {
        Some(ms) => Some(rfc3339_of(ms)),
        None => None::<Seq<char>>,
    })
    &&& exposes_author(g.author, u)
}

/// Converts one fetched post and its author record to the exposed form.
pub fn gql_post_of(post: Post, author: User) -> (r: GQLPost)
    ensures
        exposes_post(r, post, author),
{
    let created_at = match &post.created_at {
        Some(ms) => format_timestamp(*ms),
        None => String::new(),
    };
    let updated_at = match &post.updated_at {
        Some(ms) => Some(format_timestamp(*ms)),
        None => None,
    };
    GQLPost {
        id: match post.id {
            Some(id) => id,
            None => String::new(),
        },
        title: post.title,
        desc: post.desc,
        thumbnail: post.thumbnail,
        created_at,
        updated_at,
        author: Author {
            id: match author.id {
                Some(id) => id,
                None => String::new(),
            },
            email: author.email,
            full_name: match author.full_name {
                Some(n) => n,
                None => String::new(),
            },
            phone_number: author.phone_number,
        },
    }
}

/// The post query surface.
pub struct CmsQuery;

impl CmsQuery {
    /// The listing: every fetched post with its author record, in order, in
    /// exposed form.
    pub fn posts(&self, found: Vec<(Post, User)>) -> (r: Vec<GQLPost>)
        ensures
            r@.len() == found@.len(),
            forall|i: int|
                0 <= i < found@.len() ==> exposes_post(r@[i], found@[i].0, found@[i].1),
    {
        let mut out: Vec<GQLPost> = Vec::new();
        let mut items = found;
        let total = items.len();
        let ghost all = items@;
        let mut i: usize = 0;
        while items.len() > 0
            invariant
                items@ == all.skip(i as int),
                i <= all.len(),
                all.len() == total,
                out@.len() == i,
                forall|j: int| 0 <= j < i ==> exposes_post(out@[j], all[j].0, all[j].1),
            decreases all.len() - i,
        {
            let (post, author) = items.remove(0);
            proof {
                assert((post, author) == all[i as int]);
                assert(items@ == all.skip(i as int + 1));
            }
            out.push(gql_post_of(post, author));
            i = i + 1;
        }
        out
    }
}

/// The outcome a post mutation reports back.
#[derive(Debug)]
pub struct CmsResponse {
    pub success: bool,
    pub message: String,
}

/// The post mutation surface.
pub struct CMSMutation;

impl CMSMutation {
    /// The creation decision: refuses a malformed author id, then a missing
    /// author (the caller reports whether the author's document exists), and
    /// otherwise builds the document to insert — the submitted fields, the
    /// creation timestamp, and no update timestamp yet.
    pub fn create_post(&self, input: PostInput, author_exists: bool, now_millis: i64) -> (r: Result<
        Post,
        CmsError,
    >)
        ensures
            match r {
                Ok(p) => is_object_id_hex(input.author_id@) && author_exists && p.id is None
                    && p.title@ == input.title@ && p.thumbnail@ == input.thumbnail@ && p.author@
                    == input.author_id@ && p.desc@ == input.desc@ && p.created_at == Some(
                    now_millis,
                ) && p.updated_at is None,
                Err(e) => match e {
                    CmsError::InvalidAuthorId => !is_object_id_hex(input.author_id@),
                    CmsError::AuthorNotFound => is_object_id_hex(input.author_id@)
                        && !author_exists,
                    _ => false,
                },
            },
    {
        if !validate_object_id(input.author_id.as_str()) {
            return Err(CmsError::InvalidAuthorId);
        }
        if !author_exists {
            return Err(CmsError::AuthorNotFound);
        }
        Ok(
            Post {
                id: None,
                title: input.title,
                thumbnail: input.thumbnail,
                author: input.author_id,
                desc: input.desc,
                created_at: Some(now_millis),
                updated_at: None,
            },
        )
    }

    /// The update decision: refuses a malformed post id, then a malformed
    /// author id when one is submitted, and otherwise yields the updated
    /// document — each submitted field replacing the stored one, the others
    /// kept, and the update timestamp always set to `now_millis`.
    pub fn update_post(&self, id: &str, post: Post, input: PostUpdateInput, now_millis: i64) -> (r:
        Result<Post, CmsError>)
        ensures
            match r {
                Ok(p) => {
                    &&& is_object_id_hex(id@)
                    &&& (input.author_id matches Some(a) ==> is_object_id_hex(a@))
                    &&& p.id.deep_view() == post.id.deep_view()
                    &&& p.title@ == (match input.title {
                        Some(t) => t@,
                        None => post.title@,
                    })
                    &&& p.thumbnail@ == (match input.thumbnail {
                        Some(t) => t@,
                        None => post.thumbnail@,
                    })
                    &&& p.author@ == (match input.author_id {
                        Some(a) => a@,
                        None => post.author@,
                    })
                    &&& p.desc@ == (match input.desc {
                        Some(d) => d@,
                        None => post.desc@,
                    })
                    &&& p.created_at == post.created_at
                    &&& p.updated_at == Some(now_millis)
                },
                Err(e) => match e {
                    CmsError::InvalidPostId => !is_object_id_hex(id@),
                    CmsError::InvalidAuthorId => is_object_id_hex(id@) && (input.author_id matches
                    Some(a) && !is_object_id_hex(a@)),
                    _ => false,
                },
            },
    {
        if !validate_object_id(id) {
            return Err(CmsError::InvalidPostId);
        }
        let author = match input.author_id {
            Some(a) => {
                if !validate_object_id(a.as_str()) {
                    return Err(CmsError::InvalidAuthorId);
                }
                a
            },
            None => post.author,
        };
        Ok(
            Post {
                id: post.id,
                title: match input.title {
                    Some(t) => t,
                    None => post.title,
                },
                thumbnail: match input.thumbnail {
                    Some(t) => t,
                    None => post.thumbnail,
                },
                author,
                desc: match input.desc {
                    Some(d) => d,
                    None => post.desc,
                },
                created_at: post.created_at,
                updated_at: Some(now_millis),
            },
        )
    }

    /// Maps the store's report of a post update onto the response: refused
    /// when no document was modified.
    pub fn update_post_result(&self, modified_count: u64) -> (r: Result<CmsResponse, CmsError>)
        ensures
            match r {
                Ok(resp) => modified_count > 0 && resp.success && resp.message@
                    == "Post updated successfully"@,
                Err(e) => modified_count == 0 && e == CmsError::UpdateFailed,
            },
    {
        if modified_count > 0 {
            Ok(CmsResponse { success: true, message: "Post updated successfully".to_string() })
        } else {
            Err(CmsError::UpdateFailed)
        }
    }

    /// The creation response.
    pub fn create_post_result(&self) -> (r: CmsResponse)
        ensures
            r.success,
            r.message@ == "Post created successfully"@,
    {
        CmsResponse { success: true, message: "Post created successfully".to_string() }
    }

    /// The removal decision: refuses a malformed post id; otherwise the
    /// caller deletes and reports whether a document went away.
    pub fn remove_post(&self, id: &str, deleted_count: u64) -> (r: Result<bool, CmsError>)
        ensures
            match r {
                Ok(b) => is_object_id_hex(id@) && b == (deleted_count > 0),
                Err(e) => e == CmsError::InvalidPostId && !is_object_id_hex(id@),
            },
    {
        if !validate_object_id(id) {
            return Err(CmsError::InvalidPostId);
        }
        Ok(deleted_count > 0)
    }
}

} // verus!
