//! The post store contract the core is verified against: an append-only
//! insert and a full-table read that comes back newest-first.  This
//! in-memory store is the reference implementation of that contract; a
//! durable backend that keeps the same two promises can stand in for it
//! behind the same interface.

use vstd::prelude::*;
use crate::blogpost::{Blogpost, BlogpostView};

verus! {

/// Append-only collection of posts, read back newest-first.
pub struct PostStore {
    posts: Vec<Blogpost>,
}

impl View for PostStore {
    type V = Seq<BlogpostView>;

    /// The stored posts in insertion order, oldest first.
    closed spec fn view(&self) -> Seq<BlogpostView> {
        self.posts.deep_view()
    }
}

impl PostStore {
    /// A store holding no posts yet.
    pub fn new() -> (r: Self)
        ensures
            r@ == Seq::<BlogpostView>::empty(),
    {
        let posts: Vec<Blogpost> = Vec::new();
        proof {
            assert(posts.deep_view() =~= Seq::<BlogpostView>::empty());
        }
        PostStore { posts }
    }

    /// Append one post; nothing already stored moves or changes.
    pub fn insert_blogpost(&mut self, blogpost: Blogpost)
        ensures
            final(self)@ == old(self)@.push(blogpost@),
    {
        let ghost b = blogpost@;
        self.posts.push(blogpost);
        proof {
            assert(self.posts.deep_view() =~= old(self).posts.deep_view().push(b));
        }
    }

    /// Read the whole table, newest-first: the exact reverse of the
    /// insertion order, every payload byte-identical to what was inserted.
    pub fn get_all_blogposts(&self) -> (r: Vec<Blogpost>)
        ensures
            r.deep_view() == self@.reverse(),
    {
        let n = self.posts.len();
        let mut out: Vec<Blogpost> = Vec::new();
        let mut i: usize = 0;
        while i < n
            invariant
                n == self.posts.len(),
                i <= n,
                out.deep_view() =~= self@.reverse().take(i as int),
            decreases n - i,
        {
            let ghost prev = out.deep_view();
            out.push(self.posts[n - 1 - i].clone());
            proof {
                assert(self@.len() == n);
                assert(self@.reverse()[i as int] == self@[n - 1 - i]);
                assert(out.deep_view() =~= prev.push(self@[n - 1 - i]));
                assert(out.deep_view() =~= self@.reverse().take(i + 1));
            }
            i += 1;
        }
        proof {
            assert(out.deep_view() =~= self@.reverse());
        }
        out
    }
}

/// Reading back right after an insert returns the inserted post unchanged:
/// the newest element of the query result is the post that was written, its
/// base64 payloads byte-identical.
pub proof fn lemma_insert_read_roundtrip(
    before: Seq<BlogpostView>,
    post: BlogpostView,
    read: Seq<BlogpostView>,
)
    requires
        read == before.push(post).reverse(),
    ensures
        read.len() == before.len() + 1,
        read[0] == post,
        read[0].image_base64 == post.image_base64,
        read[0].avatar_base64 == post.avatar_base64,
{
}

/// Two full-table reads with no insert between them return identical
/// ordered lists: a read depends on the stored sequence alone.
pub proof fn lemma_idempotent_read(
    store: PostStore,
    first: Seq<BlogpostView>,
    second: Seq<BlogpostView>,
)
    requires
        first == store@.reverse(),
        second == store@.reverse(),
    ensures
        first == second,
{
}

/// Inserting three posts into an empty store and querying yields exactly
/// those posts, newest first.
pub proof fn lemma_three_inserts_order(
    p1: BlogpostView,
    p2: BlogpostView,
    p3: BlogpostView,
)
    ensures
        Seq::<BlogpostView>::empty().push(p1).push(p2).push(p3).reverse() == seq![p3, p2, p1],
{
    assert(Seq::<BlogpostView>::empty().push(p1).push(p2).push(p3).reverse() =~= seq![
        p3,
        p2,
        p1,
    ]);
}

} // verus!
