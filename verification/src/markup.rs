//! The tag keyboard shown under a draft: one toggle button per tenant
//! tag, arranged in rows.

use vstd::prelude::*;
use crate::ad::Ad;
use crate::entity::CallbackResponse;

verus! {

/// Buttons per keyboard row.
pub const LINE_SIZE: usize = 3;

/// One tag toggle: whether the draft has the tag selected, the label, and
/// the callback the button fires.
#[derive(Clone, Debug, PartialEq, Eq)]
pub struct TagButton {
    pub selected: bool,
    pub tag: String,
    pub callback: CallbackResponse,
}

/// The button a tag gets: selected tags offer removal, the rest offer
/// selection, both bound to the message whose keyboard this is.
pub open spec fn spec_tag_button(ad: Ad, tag: String, message_id: i32) -> TagButton {
    if ad.tag_views().contains(tag@) {
        TagButton { selected: true, tag, callback: CallbackResponse::RemoveTag(tag, message_id) }
    } else {
        TagButton { selected: false, tag, callback: CallbackResponse::AddTag(tag, message_id) }
    }
}

/// The whole button list, one per tenant tag in order.
pub open spec fn spec_tag_buttons(ad: Ad, tags: Seq<String>, message_id: i32) -> Seq<TagButton> {
    Seq::new(tags.len(), |i: int| spec_tag_button(ad, tags[i], message_id))
}

/// Builds the tag keyboard for a draft: one button per tenant tag, rows
/// of at most `LINE_SIZE`, in tag order; a tenant without tags gets the
/// single placeholder tag.
pub fn tags_markup(ad: &Ad, tags: &Vec<String>, message_id: i32) -> (r: Vec<Vec<TagButton>>)
    ensures
        tags@.len() == 0 ==> r@.len() == 1 && r@[0]@.len() == 1 && r@[0]@[0].tag@ == "notag"@
            && r@[0]@[0].selected == ad.tag_views().contains(r@[0]@[0].tag@),
        tags@.len() > 0 ==> {
            let bts = spec_tag_buttons(*ad, tags@, message_id);
            &&& r@.len() == (bts.len() + (LINE_SIZE - 1)) / (LINE_SIZE as int)
            &&& forall|k: int|
                0 <= k < r@.len() ==> #[trigger] r@[k]@ == bts.subrange(
                    LINE_SIZE * k,
                    if LINE_SIZE * (k + 1) <= bts.len() {
                        LINE_SIZE * (k + 1)
                    } else {
                        bts.len() as int
                    },
                )
        },
{
    if tags.len() == 0 {
        let tag = "notag".to_owned();
        let selected = contains_tag(ad, tag.as_str());
        let button = if selected {
            TagButton {
                selected: true,
                tag: clone_string(&tag),
                callback: CallbackResponse::RemoveTag(tag, message_id),
            }
        } else {
            TagButton {
                selected: false,
                tag: clone_string(&tag),
                callback: CallbackResponse::AddTag(tag, message_id),
            }
        };
        let mut row: Vec<TagButton> = Vec::new();
        row.push(button);
        let mut rows: Vec<Vec<TagButton>> = Vec::new();
        rows.push(row);
        return rows;
    }
    let ghost bts = spec_tag_buttons(*ad, tags@, message_id);
    let mut rows: Vec<Vec<TagButton>> = Vec::new();
    let mut cur: Vec<TagButton> = Vec::new();
    let mut i: usize = 0;
    while i < tags.len()
        invariant
            0 < tags@.len(),
            i <= tags@.len(),
            bts == spec_tag_buttons(*ad, tags@, message_id),
            bts.len() == tags@.len(),
            rows@.len() == if i == 0 {
                0int
            } else {
                (i - 1) as int / (LINE_SIZE as int)
            },
            forall|k: int|
                0 <= k < rows@.len() ==> #[trigger] rows@[k]@ == bts.subrange(
                    LINE_SIZE * k,
                    LINE_SIZE * k + LINE_SIZE,
                ),
            cur@ == bts.subrange(LINE_SIZE * rows@.len(), i as int),
            cur@.len() <= LINE_SIZE,
        decreases tags.len() - i,
    {
        let tag = tags[i].clone();
        proof {
            assert(tag == tags@[i as int]);
        }
        let selected = contains_tag(ad, tag.as_str());
        let button = if selected {
            TagButton {
                selected: true,
                tag: clone_string(&tag),
                callback: CallbackResponse::RemoveTag(tag, message_id),
            }
        } else {
            TagButton {
                selected: false,
                tag: clone_string(&tag),
                callback: CallbackResponse::AddTag(tag, message_id),
            }
        };
        proof {
            assert(button == spec_tag_button(*ad, tags@[i as int], message_id));
            assert(button == bts[i as int]);
        }
        if cur.len() == LINE_SIZE {
            rows.push(cur);
            cur = Vec::new();
            proof {
                assert(rows@.last()@ =~= bts.subrange(
                    LINE_SIZE * (rows@.len() - 1),
                    LINE_SIZE * (rows@.len() - 1) + LINE_SIZE,
                ));
            }
        }
        cur.push(button);
        proof {
            assert(cur@ =~= bts.subrange(LINE_SIZE * rows@.len(), i + 1));
        }
        i += 1;
    }
    rows.push(cur);
    proof {
        assert(rows@.last()@ =~= bts.subrange(
            LINE_SIZE * (rows@.len() - 1),
            bts.len() as int,
        ));
    }
    rows
}

fn clone_string(s: &String) -> (r: String)
    ensures
        r == *s,
{
    s.clone()
}

fn contains_tag(ad: &Ad, tag: &str) -> (r: bool)
    ensures
        r == ad.tag_views().contains(tag@),
{
    crate::util::contains_str(&ad.tags, tag)
}

} // verus!
