//! A small blog model: posts, comments, and a plain-text formatter.

use vstd::prelude::*;

verus! {

use vstd::string::StringExecFns;

/// A blog post.
pub struct Post {
    /// The headline.
    pub title: String,
    /// The body text.
    pub content: String,
    /// Who wrote it.
    pub author: String,
}

impl Post {
    /// Creates a post from borrowed parts.
    pub fn new(title: &str, content: &str, author: &str) -> (p: Post)
        ensures
            p.title@ == title@,
            p.content@ == content@,
            p.author@ == author@,
    {
        Post { title: title.to_owned(), content: content.to_owned(), author: author.to_owned() }
    }
}

/// A comment under a post.
pub struct Comment {
    /// The comment text.
    pub content: String,
    /// Who wrote it.
    pub author: String,
}

impl Comment {
    /// Creates a comment from borrowed parts.
    pub fn new(content: &str, author: &str) -> (c: Comment)
        ensures
            c.content@ == content@,
            c.author@ == author@,
    {
        Comment { content: content.to_owned(), author: author.to_owned() }
    }
}

/// The plain-text rendering of a post: title line, author line, blank
/// line, body.
pub open spec fn formatted_post(p: Post) -> Seq<char> {
    "Title: "@ + p.title@ + "\nAuthor: "@ + p.author@ + "\n\n"@ + p.content@
}

/// Renders a post as plain text.
pub fn format_post(post: &Post) -> (r: String)
    ensures
        r@ == formatted_post(*post),
{
    let r = "Title: ".to_owned().concat(post.title.as_str()).concat("\nAuthor: ").concat(
        post.author.as_str(),
    ).concat("\n\n").concat(post.content.as_str());
    proof {
        assert(r@ =~= formatted_post(*post));
    }
    r
}

} // verus!
