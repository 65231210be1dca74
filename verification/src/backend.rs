//! The submission pipeline: parse the form, resolve the avatar, build the
//! post, persist it, and read the store back for rendering.  The pipeline
//! is strictly sequential and stops at the first classified failure, in
//! which case nothing is inserted.

use vstd::prelude::*;
use crate::avatar::{handle_avatar_response, resolve_avatar_request, spec_resolve_avatar,
    FetchOutcome, FetchOutcomeView};
use crate::blogpost::{Blogpost, BlogpostView};
use crate::error::{avatar_download_error, AppError, ErrorView};
use crate::multipart::{parse_multipart, spec_parse_multipart, MultipartData, MultipartDataView,
    PartView, RawPart};
use crate::store::PostStore;

verus! {

/// What one whole submission means, given the form's parts and what the
/// network would answer if asked: the parsed record paired with the
/// resolved avatar payload, or the first classified failure.
pub open spec fn spec_submit(parts: Seq<PartView>, remote: FetchOutcomeView) -> Result<
    (MultipartDataView, Option<Seq<char>>),
    ErrorView,
> {
    match spec_parse_multipart(parts) {
        Err(e) => Err(e),
        Ok(sub) => match spec_resolve_avatar(sub, remote) {
            Err(e) => Err(e),
            Ok(av) => Ok((sub, av)),
        },
    }
}

/// Build the post to persist from the parsed record and the resolved
/// avatar; the publication instant is read from the wall clock here, never
/// taken from the client.
pub fn create_blogpost(data: MultipartData, avatar_base64: Option<String>) -> (r: Blogpost)
    ensures
        r@.text == data@.text,
        r@.author_username == data@.author_username,
        r@.image_base64 == data@.image_base64,
        r@.avatar_base64 == avatar_base64.deep_view(),
{
    Blogpost::new(data.text, data.author_username, data.image_base64, avatar_base64)
}

/// Read the whole store for the home page, newest post first.
pub fn get_home(store: &PostStore) -> (r: Vec<Blogpost>)
    ensures
        r.deep_view() == store@.reverse(),
{
    store.get_all_blogposts()
}

/// One full form submission against the store.  On any classified failure
/// the store is left untouched and the failure is surfaced; on success
/// exactly the new post is appended, carrying the parsed fields and the
/// resolved avatar, and the returned list is the whole store newest-first.
pub fn handle_form_submit(
    store: &mut PostStore,
    parts: Vec<RawPart>,
    remote: FetchOutcome,
) -> (r: Result<Vec<Blogpost>, AppError>)
    ensures
        spec_submit(parts.deep_view(), remote@) matches Err(e) ==> (r matches Err(err) && err@
            == e && final(store)@ == old(store)@),
        spec_submit(parts.deep_view(), remote@) matches Ok(pair) ==> (r matches Ok(posts)
            && final(store)@.len() == old(store)@.len() + 1
            && final(store)@.drop_last() == old(store)@
            && final(store)@.last().text == pair.0.text
            && final(store)@.last().author_username == pair.0.author_username
            && final(store)@.last().image_base64 == pair.0.image_base64
            && final(store)@.last().avatar_base64 == pair.1
            && posts.deep_view() == final(store)@.reverse()),
{
    let data = match parse_multipart(parts) {
        Ok(d) => d,
        Err(e) => {
            return Err(e);
        },
    };
    let avatar = match resolve_avatar_request(&data) {
        Ok(None) => None,
        Ok(Some(_url)) => {
            match remote {
                FetchOutcome::Unreachable => {
                    return Err(avatar_download_error());
                },
                FetchOutcome::Response(resp) => {
                    match handle_avatar_response(resp) {
                        Ok(av) => av,
                        Err(e) => {
                            return Err(e);
                        },
                    }
                },
            }
        },
        Err(e) => {
            return Err(e);
        },
    };
    let post = create_blogpost(data, avatar);
    let ghost p = post@;
    store.insert_blogpost(post);
    proof {
        assert(store@.drop_last() =~= old(store)@);
        assert(store@.last() == p);
    }
    let posts = store.get_all_blogposts();
    Ok(posts)
}

/// A valid submission that carries neither an avatar URL nor an inline
/// image yields a post with no avatar and no image payload, and a
/// successful render shows that post before every post stored before it.
pub proof fn lemma_plain_submission_renders_first(
    parts: Seq<PartView>,
    remote: FetchOutcomeView,
    sub: MultipartDataView,
    av: Option<Seq<char>>,
    before: Seq<BlogpostView>,
    after: Seq<BlogpostView>,
)
    requires
        spec_submit(parts, remote) == Ok::<(MultipartDataView, Option<Seq<char>>), ErrorView>(
            (sub, av),
        ),
        sub.avatar_url is None,
        sub.image_base64 is None,
        after.len() == before.len() + 1,
        after.drop_last() == before,
        after.last().image_base64 == sub.image_base64,
        after.last().avatar_base64 == av,
    ensures
        after.last().avatar_base64 is None,
        after.last().image_base64 is None,
        after.reverse() == seq![after.last()] + before.reverse(),
{
    assert(av is None);
    assert forall|i: int| 0 <= i < after.len() implies after.reverse()[i] == (seq![after.last()]
        + before.reverse())[i] by {
        if i > 0 {
            assert(after[after.len() - 1 - i] == after.drop_last()[after.len() - 1 - i]);
        }
    }
    assert(after.reverse() =~= seq![after.last()] + before.reverse());
}

} // verus!
