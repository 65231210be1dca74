//! The persisted entity: one blog post, with its construction-time
//! wall-clock timestamp and its optional base64 image payloads.

use vstd::prelude::*;

verus! {

/// One persisted blog entry.
#[derive(Debug, PartialEq, Eq)]
pub struct Blogpost {
    /// User-authored body text.
    pub text: String,
    /// Name the submitter signed with.
    pub author_username: String,
    /// Microseconds since the Unix epoch, read from the local wall clock when
    /// the post is constructed; never supplied by the client.
    pub published: i64,
    /// Base64 payload of the inline image, if one was uploaded.
    pub image_base64: Option<String>,
    /// Base64 payload of the avatar fetched for the submitter, if any.
    pub avatar_base64: Option<String>,
}

/// Mathematical image of a [`Blogpost`].
pub struct BlogpostView {
    pub text: Seq<char>,
    pub author_username: Seq<char>,
    pub published: i64,
    pub image_base64: Option<Seq<char>>,
    pub avatar_base64: Option<Seq<char>>,
}

impl View for Blogpost {
    type V = BlogpostView;

    open spec fn view(&self) -> BlogpostView {
        BlogpostView {
            text: self.text@,
            author_username: self.author_username@,
            published: self.published,
            image_base64: self.image_base64.deep_view(),
            avatar_base64: self.avatar_base64.deep_view(),
        }
    }
}

impl DeepView for Blogpost {
    type V = BlogpostView;

    open spec fn deep_view(&self) -> BlogpostView {
        self.view()
    }
}

/// Relies on chrono's `Local::now`: the current local wall-clock instant,
/// flattened to microseconds since the epoch.  Nothing is promised of the
/// value: the clock decides it.
#[verifier::external_body]
fn now_micros() -> i64 {
    chrono::Local::now().naive_local().and_utc().timestamp_micros()
}

impl Blogpost {
    /// Build a post from its fields, stamping it with the current wall clock.
    pub fn new(
        text: String,
        author_username: String,
        image_base64: Option<String>,
        avatar_base64: Option<String>,
    ) -> (r: Self)
        ensures
            r@.text == text@,
            r@.author_username == author_username@,
            r@.image_base64 == image_base64.deep_view(),
            r@.avatar_base64 == avatar_base64.deep_view(),
    {
        Blogpost {
            text,
            author_username,
            published: now_micros(),
            image_base64,
            avatar_base64,
        }
    }
}

impl Clone for Blogpost {
    /// A clone carries exactly the same field values.
    fn clone(&self) -> (r: Self)
        ensures
            r@ == self@,
    {
        Blogpost {
            text: self.text.clone(),
            author_username: self.author_username.clone(),
            published: self.published,
            image_base64: match &self.image_base64 {
                Some(s) => Some(s.clone()),
                None => None,
            },
            avatar_base64: match &self.avatar_base64 {
                Some(s) => Some(s.clone()),
                None => None,
            },
        }
    }
}

} // verus!
