//! The request to create a post, and the post as the store hands it back.
use vstd::prelude::*;

verus! {

/// A request to create a post.
#[derive(Clone, Debug, PartialEq, Eq)]
pub struct NewPost {
    /// The text of the post.
    pub content: String,
    /// The address that identifies the author.
    pub email: String,
}

/// A request as the contracts see it.
pub struct Request {
    pub content: Seq<char>,
    pub email: Seq<char>,
}

impl View for NewPost {
    type V = Request;

    open spec fn view(&self) -> Request {
        Request { content: self.content@, email: self.email@ }
    }
}

impl NewPost {
    /// A request with this content and this author.
    pub fn new(content: String, email: String) -> (request: NewPost)
        ensures
            request@ == (Request { content: content@, email: email@ }),
    {
        NewPost { content, email }
    }

    /// A copy of the request.
    pub fn duplicate(&self) -> (copy: NewPost)
        ensures
            copy@ == self@,
    {
        NewPost { content: self.content.clone(), email: self.email.clone() }
    }
}

/// A post as stored. The store assigns `id` and both timestamps.
#[derive(Clone, Debug, PartialEq, Eq)]
pub struct Post {
    pub id: i64,
    pub user_id: i64,
    pub content: String,
    pub created_at: i64,
    pub updated_at: i64,
}

/// A stored post as the contracts see it.
pub struct PostData {
    pub id: int,
    pub user_id: int,
    pub content: Seq<char>,
    pub created_at: int,
    pub updated_at: int,
}

impl View for Post {
    type V = PostData;

    open spec fn view(&self) -> PostData {
        PostData {
            id: self.id as int,
            user_id: self.user_id as int,
            content: self.content@,
            created_at: self.created_at as int,
            updated_at: self.updated_at as int,
        }
    }
}

} // verus!
