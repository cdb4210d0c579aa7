//! The in-progress classified-ad draft a conversation builds up.

use vstd::prelude::*;
use crate::entity::{Content, Target};
use crate::util::{contains_str, str_eq};

verus! {

/// A draft holds at most this many photos.
pub const MAX_PHOTOS: usize = 10;

/// A classified-ad draft: what it is for, its price (meaningful only for
/// buying and selling), the latest description, up to ten photos, and the
/// set of selected tags.
#[derive(Clone, Debug, PartialEq, Eq)]
pub struct Ad {
    pub target: Target,
    pub price: u32,
    pub text: String,
    pub photos: Vec<String>,
    pub tags: Vec<String>,
}

/// A draft equal to another up to copies of its strings.
pub open spec fn ad_like(a: Ad, b: Ad) -> bool {
    &&& a.target == b.target
    &&& a.price == b.price
    &&& a.text@ == b.text@
    &&& a.photos@.map_values(|s: String| s@) == b.photos@.map_values(|s: String| s@)
    &&& a.tag_views() == b.tag_views()
}

/// Appending a photo id when the cap allows it.
pub open spec fn spec_push_photo(photos: Seq<String>, id: String) -> Seq<String> {
    if photos.len() < MAX_PHOTOS {
        photos.push(id)
    } else {
        photos
    }
}

/// How `fill` turns one draft into the next: the last text wins, photos
/// are appended until the cap is reached, target, price and tags stay.
pub open spec fn spec_fill_rel(pre: Ad, content: Content, post: Ad) -> bool {
    &&& post.target == pre.target
    &&& post.price == pre.price
    &&& post.tags@ == pre.tags@
    &&& match content {
        Content::Text(t) => post.text == t.text && post.photos@ == pre.photos@,
        Content::Photo(id) => post.text == pre.text && post.photos@ == spec_push_photo(
            pre.photos@,
            id,
        ),
        Content::TextAndPhoto(t, id) => post.text == t.text && post.photos@ == spec_push_photo(
            pre.photos@,
            id,
        ),
    }
}

/// How `add_tag` turns one draft into the next.
pub open spec fn spec_add_tag_rel(pre: Ad, tag: String, post: Ad) -> bool {
    &&& post.target == pre.target
    &&& post.price == pre.price
    &&& post.text == pre.text
    &&& post.photos@ == pre.photos@
    &&& post.tags@ == if pre.tag_views().contains(tag@) {
        pre.tags@
    } else {
        pre.tags@.push(tag)
    }
}

/// How `remove_tag` turns one draft into the next.
pub open spec fn spec_remove_tag_rel(pre: Ad, tag: Seq<char>, post: Ad) -> bool {
    &&& post.target == pre.target
    &&& post.price == pre.price
    &&& post.text == pre.text
    &&& post.photos@ == pre.photos@
    &&& post.tags@ == match pre.tag_views().index_of_first(tag) {
        Some(i) => pre.tags@.remove(i),
        None => pre.tags@,
    }
}

impl Ad {
    /// The tag set as character sequences.
    pub open spec fn tag_views(self) -> Seq<Seq<char>> {
        self.tags@.map_values(|s: String| s@)
    }

    /// A valid draft: no more photos than the cap, and each tag selected at
    /// most once.
    pub open spec fn wf(self) -> bool {
        &&& self.photos@.len() <= MAX_PHOTOS
        &&& forall|i: int, j: int|
            0 <= i < j < self.tag_views().len() ==> self.tag_views()[i] != self.tag_views()[j]
    }

    pub fn new(target: Target, price: u32) -> (r: Self)
        ensures
            r.target == target,
            r.price == price,
            r.text@ == Seq::<char>::empty(),
            r.photos@ =~= Seq::<String>::empty(),
            r.tags@ =~= Seq::<String>::empty(),
            r.wf(),
    {
        let r = Self { target, price, text: String::new(), photos: Vec::new(), tags: Vec::new() };
        proof {
            assert(r.tag_views() =~= Seq::<Seq<char>>::empty());
        }
        r
    }

    /// A fresh copy of the draft, equal up to copies of its strings.
    pub fn duplicate(&self) -> (r: Ad)
        ensures
            ad_like(r, *self),
            r.photos@.len() == self.photos@.len(),
            r.tags@.len() == self.tags@.len(),
            self.wf() ==> r.wf(),
    {
        let r = Ad {
            target: self.target,
            price: self.price,
            text: clone_string(&self.text),
            photos: clone_strings(&self.photos),
            tags: clone_strings(&self.tags),
        };
        proof {
            assert(r.photos@.map_values(|s: String| s@) =~= self.photos@.map_values(
                |s: String| s@,
            ));
            assert(r.tag_views() =~= self.tag_views());
        }
        r
    }

    /// Merges one message into the draft.
    pub fn fill(&mut self, content: Content)
        ensures
            spec_fill_rel(*old(self), content, *final(self)),
            old(self).wf() ==> final(self).wf(),
    {
        match content {
            Content::Text(text) => {
                self.text = text.text;
            },
            Content::Photo(id) => {
                self.push_photo(id);
            },
            Content::TextAndPhoto(text, id) => {
                self.text = text.text;
                self.push_photo(id);
            },
        }
        proof {
            assert(self.tag_views() =~= old(self).tag_views());
        }
    }

    fn push_photo(&mut self, id: String)
        ensures
            final(self).target == old(self).target,
            final(self).price == old(self).price,
            final(self).text == old(self).text,
            final(self).tags@ == old(self).tags@,
            final(self).photos@ == spec_push_photo(old(self).photos@, id),
    {
        if self.photos.len() < MAX_PHOTOS {
            self.photos.push(id);
        }
    }

    /// Selects a tag; selecting one that is already selected changes
    /// nothing.
    pub fn add_tag(&mut self, tag: String)
        ensures
            spec_add_tag_rel(*old(self), tag, *final(self)),
            old(self).wf() ==> final(self).wf(),
    {
        if !contains_str(&self.tags, tag.as_str()) {
            let ghost tv = tag@;
            self.tags.push(tag);
            proof {
                assert(self.tag_views() =~= old(self).tag_views().push(tv));
                if old(self).wf() {
                    assert forall|i: int, j: int|
                        0 <= i < j < self.tag_views().len() implies self.tag_views()[i]
                        != self.tag_views()[j] by {
                        if j == self.tag_views().len() - 1 {
                            assert(!old(self).tag_views().contains(tv));
                            assert(old(self).tag_views()[i] != tv);
                        }
                    }
                }
            }
        }
    }

    /// Unselects a tag: its first occurrence leaves the set, which is its
    /// only one in a valid draft.
    pub fn remove_tag(&mut self, tag: &str)
        ensures
            spec_remove_tag_rel(*old(self), tag@, *final(self)),
            old(self).wf() ==> final(self).wf(),
    {
        let ghost orig = self.tag_views();
        let mut i: usize = 0;
        while i < self.tags.len()
            invariant
                i <= self.tags@.len(),
                *self == *old(self),
                orig == self.tag_views(),
                forall|j: int| 0 <= j < i ==> orig[j] != tag@,
            decreases self.tags.len() - i,
        {
            if str_eq(self.tags[i].as_str(), tag) {
                proof {
                    orig.index_of_first_ensures(tag@);
                    assert(orig.contains(orig[i as int]));
                    let idx = orig.index_of_first(tag@)->0;
                    assert(orig[i as int] == tag@);
                    if idx < i {
                        assert(orig[idx] == tag@);
                    }
                    assert(idx == i);
                }
                self.tags.remove(i);
                proof {
                    assert(self.tag_views() =~= orig.remove(i as int));
                    if old(self).wf() {
                        assert forall|a: int, b: int|
                            0 <= a < b < self.tag_views().len() implies self.tag_views()[a]
                            != self.tag_views()[b] by {
                            assert(self.tag_views()[a] == if a < i {
                                orig[a]
                            } else {
                                orig[a + 1]
                            });
                            assert(self.tag_views()[b] == if b < i {
                                orig[b]
                            } else {
                                orig[b + 1]
                            });
                        }
                    }
                }
                return ;
            }
            i += 1;
        }
        proof {
            orig.index_of_first_ensures(tag@);
            if orig.contains(tag@) {
                let k = choose|k: int| 0 <= k < orig.len() && orig[k] == tag@;
                assert(orig[k] != tag@);
            }
        }
    }
}

fn clone_string(s: &String) -> (r: String)
    ensures
        r@ == s@,
{
    s.clone()
}

fn clone_strings(v: &Vec<String>) -> (r: Vec<String>)
    ensures
        r@.len() == v@.len(),
        forall|i: int| 0 <= i < v@.len() ==> r@[i]@ == v@[i]@,
{
    let mut r: Vec<String> = Vec::new();
    let mut i: usize = 0;
    while i < v.len()
        invariant
            i <= v@.len(),
            r@.len() == i,
            forall|j: int| 0 <= j < i ==> r@[j]@ == v@[j]@,
        decreases v.len() - i,
    {
        r.push(clone_string(&v[i]));
        i += 1;
    }
    r
}

} // verus!
