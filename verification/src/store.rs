//! The renderer model's image store: the set of registered image resources,
//! each decoded to the solid color its blob payload encodes.

use vstd::prelude::*;
use crate::color::{spec_deserialize_blob, ColorU};
use crate::color::deserialize_blob;
use crate::scene::{AddImage, ImageDescriptor, ImageKey, ResourceUpdates};

verus! {

/// One registered image: its key, its descriptor, and the solid color its
/// blob payload decoded to.
#[derive(Clone, Copy, Debug, PartialEq, Eq, Structural)]
pub struct ImageEntry {
    pub key: ImageKey,
    pub descriptor: ImageDescriptor,
    pub color: ColorU,
}

/// The color registered under `key`, or `None` if no entry carries that key.
/// The most recently added entry for a key wins.
pub open spec fn spec_lookup(store: Seq<ImageEntry>, key: ImageKey) -> Option<ColorU>
    decreases store.len(),
{
    if store.len() == 0 {
        None
    } else if store.last().key == key {
        Some(store.last().color)
    } else {
        spec_lookup(store.drop_last(), key)
    }
}

/// The entry a resource registration adds to the store.
pub open spec fn spec_entry_of(u: AddImage) -> ImageEntry {
    ImageEntry { key: u.key, descriptor: u.descriptor, color: spec_deserialize_blob(u.data@)->0 }
}

/// Every registration in the batch carries a well-formed blob payload.
pub open spec fn spec_updates_valid(updates: Seq<AddImage>) -> bool {
    forall|i: int|
        0 <= i < updates.len() ==> #[trigger] spec_deserialize_blob(updates[i].data@) is Some
}

/// The store after a batch of registrations has been applied, in order.
pub open spec fn spec_apply_updates(store: Seq<ImageEntry>, updates: Seq<AddImage>) -> Seq<
    ImageEntry,
> {
    store + updates.map_values(|u: AddImage| spec_entry_of(u))
}

/// Find the color registered under `key`, searching newest entries first.
pub fn lookup(store: &Vec<ImageEntry>, key: ImageKey) -> (color: Option<ColorU>)
    ensures
        color == spec_lookup(store@, key),
{
    proof {
        assert(store@.subrange(0, store@.len() as int) =~= store@);
    }
    let mut i: usize = store.len();
    while i > 0
        invariant
            i <= store@.len(),
            spec_lookup(store@.subrange(0, i as int), key) == spec_lookup(store@, key),
        decreases i,
    {
        let entry = store[i - 1];
        if entry.key == key {
            proof {
                assert(store@.subrange(0, i as int).last() == entry);
            }
            return Some(entry.color);
        }
        proof {
            assert(store@.subrange(0, i as int).drop_last() =~= store@.subrange(0, i as int - 1));
        }
        i = i - 1;
    }
    None
}

/// Apply a batch of resource registrations to the store, oldest first.
pub fn apply_updates(store: &mut Vec<ImageEntry>, resources: &ResourceUpdates)
    requires
        spec_updates_valid(resources.updates@),
    ensures
        final(store)@ == spec_apply_updates(old(store)@, resources.updates@),
{
    proof {
        assert(store@ =~= spec_apply_updates(store@, resources.updates@.subrange(0, 0)));
    }
    let mut i: usize = 0;
    while i < resources.updates.len()
        invariant
            i <= resources.updates@.len(),
            spec_updates_valid(resources.updates@),
            store@ == spec_apply_updates(old(store)@, resources.updates@.subrange(0, i as int)),
        decreases resources.updates@.len() - i,
    {
        let u = &resources.updates[i];
        let color = match deserialize_blob(&u.data) {
            Some(c) => c,
            None => {
                proof {
                    assert(spec_deserialize_blob(resources.updates@[i as int].data@) is Some);
                    assert(false);
                }
                ColorU { r: 0, g: 0, b: 0, a: 0 }
            },
        };
        store.push(ImageEntry { key: u.key, descriptor: u.descriptor, color });
        proof {
            assert(store@ =~= spec_apply_updates(
                old(store)@,
                resources.updates@.subrange(0, i as int + 1),
            ));
        }
        i = i + 1;
    }
    proof {
        assert(resources.updates@.subrange(0, resources.updates@.len() as int)
            =~= resources.updates@);
    }
}

/// A key no stored entry carries looks up to `None`.
pub proof fn lemma_lookup_absent(store: Seq<ImageEntry>, key: ImageKey)
    requires
        forall|i: int| 0 <= i < store.len() ==> (#[trigger] store[i]).key != key,
    ensures
        spec_lookup(store, key) is None,
    decreases store.len(),
{
    if store.len() > 0 {
        lemma_lookup_absent(store.drop_last(), key);
    }
}

} // verus!
