//! The texture cache: which GUI textures live on the backend, and under which slot.

use crate::backend::{texture_command_views, FilterMode, TextureCommand, TextureCommandView};
use crate::backend::{TextureFormat, TextureParams, TextureWrap};
use crate::gui::{color_bytes, coverage_bytes, ImageData, ImageDelta, TextureFilter, TextureId};
use vstd::prelude::*;

verus! {

/// What the cache knows of one live texture.
#[derive(Clone, Copy, Debug, PartialEq, Eq, Structural, Hash)]
pub struct TextureRecord {
    pub id: TextureId,
    pub width: usize,
    pub height: usize,
}

/// The slot table: a slot is either free or holds the record of a live backend texture.
pub type Slots = Seq<Option<TextureRecord>>;

/// Slot `slot` holds a texture of the name `id`.
pub open spec fn holds(slots: Slots, slot: int, id: TextureId) -> bool {
    0 <= slot < slots.len() && slots[slot].is_some() && slots[slot].unwrap().id == id
}

/// No two slots hold a texture of the same name.
pub open spec fn distinct_ids(slots: Slots) -> bool {
    forall|i: int, j: int|
        0 <= i < j < slots.len() && (#[trigger] slots[i]).is_some() && (#[trigger] slots[j]).is_some()
            ==> slots[i].unwrap().id != slots[j].unwrap().id
}

/// The slot that holds `id`, if one does.
pub open spec fn slot_of(slots: Slots, id: TextureId) -> Option<int> {
    if exists|slot: int| holds(slots, slot, id) {
        Some(choose|slot: int| holds(slots, slot, id))
    } else {
        None
    }
}

/// `slot` is the first free slot, or the table's length where every slot is taken.
pub open spec fn is_first_free(slots: Slots, slot: int) -> bool {
    &&& 0 <= slot <= slots.len()
    &&& slot < slots.len() ==> slots[slot].is_none()
    &&& forall|j: int| 0 <= j < slot ==> (#[trigger] slots[j]).is_some()
}

/// The slot that the next new texture takes.
pub open spec fn first_free(slots: Slots) -> int {
    choose|slot: int| is_first_free(slots, slot)
}

/// The table with `entry` in `slot`, which is a slot of the table or the one just behind it.
pub open spec fn put(slots: Slots, slot: int, entry: Option<TextureRecord>) -> Slots {
    if slot < slots.len() {
        slots.update(slot, entry)
    } else {
        slots.push(entry)
    }
}

/// How many slots are taken.
pub open spec fn live(slots: Slots) -> nat
    decreases slots.len(),
{
    if slots.len() == 0 {
        0
    } else {
        live(slots.drop_last()) + if slots.last().is_some() { 1nat } else { 0nat }
    }
}

/// The backend's filter for one of the GUI's.
pub open spec fn filter_mode(filter: TextureFilter) -> FilterMode {
    match filter {
        TextureFilter::Nearest => FilterMode::Nearest,
        TextureFilter::Linear => FilterMode::Linear,
    }
}

/// The parameters of the texture that a whole-texture change asks for: RGBA bytes, clamped
/// at the edges, the change's own size, and its filter both ways.
pub open spec fn texture_params(delta: ImageDelta) -> TextureParams {
    TextureParams {
        format: TextureFormat::Rgba8,
        wrap: TextureWrap::Clamp,
        min_filter: filter_mode(delta.magnification),
        mag_filter: filter_mode(delta.magnification),
        width: delta.image.spec_width(),
        height: delta.image.spec_height(),
    }
}

/// The slot table after the change `delta` to the texture `id`.
///
/// A patch changes nothing in the table. A whole texture goes into the first free slot,
/// and the slot that held `id` before becomes free.
pub open spec fn upsert_slots(slots: Slots, id: TextureId, delta: ImageDelta) -> Slots {
    if delta.pos.is_some() {
        slots
    } else {
        let record = TextureRecord {
            id,
            width: delta.image.spec_width(),
            height: delta.image.spec_height(),
        };
        let installed = put(slots, first_free(slots), Some(record));
        match slot_of(slots, id) {
            Some(previous) => installed.update(previous, None),
            None => installed,
        }
    }
}

/// The backend commands for the change `delta` to the texture `id`.
///
/// A patch updates the texture in place, or is reported where the cache holds no such
/// texture. A whole texture is created first; only then is the one it replaces deleted.
pub open spec fn upsert_commands(slots: Slots, id: TextureId, delta: ImageDelta) -> Seq<
    TextureCommandView,
> {
    match delta.pos {
        Some((x, y)) => match slot_of(slots, id) {
            Some(slot) => seq![
                TextureCommandView::UpdatePart {
                    slot: slot as usize,
                    x,
                    y,
                    width: delta.image.spec_width(),
                    height: delta.image.spec_height(),
                    data: delta.image.rgba(),
                },
            ],
            None => seq![TextureCommandView::NotFound { id }],
        },
        None => {
            let create = TextureCommandView::Create {
                slot: first_free(slots) as usize,
                params: texture_params(delta),
                data: delta.image.rgba(),
            };
            match slot_of(slots, id) {
                Some(previous) => seq![create, TextureCommandView::Delete { slot: previous as usize }],
                None => seq![create],
            }
        },
    }
}

/// The slot table without the texture `id`.
pub open spec fn remove_slots(slots: Slots, id: TextureId) -> Slots {
    match slot_of(slots, id) {
        Some(slot) => slots.update(slot, None),
        None => slots,
    }
}

/// The backend commands that free the texture `id`: one deletion, or none where the cache
/// holds no such texture.
pub open spec fn remove_commands(slots: Slots, id: TextureId) -> Seq<TextureCommandView> {
    match slot_of(slots, id) {
        Some(slot) => seq![TextureCommandView::Delete { slot: slot as usize }],
        None => seq![],
    }
}

/// Textures created less textures deleted by a list of commands.
pub open spec fn balance(commands: Seq<TextureCommandView>) -> int
    decreases commands.len(),
{
    if commands.len() == 0 {
        0
    } else {
        balance(commands.drop_last()) + match commands.last() {
            TextureCommandView::Create { .. } => 1int,
            TextureCommandView::Delete { .. } => -1int,
            _ => 0int,
        }
    }
}

/// `bytemuck::cast_slice`, from RGBA quadruples to bytes: the result is the memory of the
/// quadruples read as bytes, so four bytes for each texel, channel by channel. With byte
/// arrays on both sides the cast cannot fail for size or alignment.
#[verifier::external_body]
fn cast_pixels(pixels: &Vec<[u8; 4]>) -> (bytes: Vec<u8>)
    ensures
        bytes@ == color_bytes(pixels@),
{
    bytemuck::cast_slice::<[u8; 4], u8>(pixels.as_slice()).to_vec()
}

/// Expands coverage values to RGBA bytes: white, premultiplied by the coverage.
pub fn expand_coverage(pixels: &Vec<u8>) -> (bytes: Vec<u8>)
    ensures
        bytes@ == coverage_bytes(pixels@),
{
    let mut bytes: Vec<u8> = Vec::new();
    let mut i: usize = 0;
    while i < pixels.len()
        invariant
            i <= pixels.len(),
            bytes@.len() == 4 * i,
            forall|k: int| 0 <= k < bytes@.len() ==> bytes@[k] == pixels@[k / 4],
        decreases pixels.len() - i,
    {
        let a: u8 = pixels[i];
        bytes.push(a);
        bytes.push(a);
        bytes.push(a);
        bytes.push(a);
        i += 1;
    }
    assert(bytes@ =~= coverage_bytes(pixels@));
    bytes
}

/// The image as the flat RGBA bytes that the backend takes.
pub fn rgba_bytes(image: &ImageData) -> (bytes: Vec<u8>)
    ensures
        bytes@ == image.rgba(),
{
    match image {
        ImageData::Color(image) => cast_pixels(&image.pixels),
        ImageData::Font(image) => expand_coverage(&image.pixels),
    }
}

/// The textures that live on the backend, by the GUI's names for them.
pub struct TextureCache {
    slots: Vec<Option<TextureRecord>>,
}

impl TextureCache {
    /// The slot table.
    pub closed spec fn slots(&self) -> Slots {
        self.slots@
    }

    /// No texture name is held twice.
    pub open spec fn well_formed(&self) -> bool {
        distinct_ids(self.slots())
    }

    /// Whether the cache holds a texture of the name `id`.
    pub open spec fn contains(&self, id: TextureId) -> bool {
        slot_of(self.slots(), id).is_some()
    }

    /// A cache that holds nothing.
    pub fn new() -> (cache: TextureCache)
        ensures
            cache.slots() == Seq::<Option<TextureRecord>>::empty(),
            cache.well_formed(),
    {
        TextureCache { slots: Vec::new() }
    }

    /// The slot of the texture `id`, if the cache holds it.
    pub fn lookup(&self, id: TextureId) -> (slot: Option<usize>)
        requires
            self.well_formed(),
        ensures
            match slot {
                Some(slot) => slot_of(self.slots(), id) == Some(slot as int),
                None => slot_of(self.slots(), id).is_none(),
            },
    {
        let mut i: usize = 0;
        while i < self.slots.len()
            invariant
                i <= self.slots.len(),
                distinct_ids(self.slots@),
                forall|k: int| 0 <= k < i ==> !holds(self.slots@, k, id),
            decreases self.slots.len() - i,
        {
            if let Some(record) = &self.slots[i] {
                if record.id == id {
                    proof {
                        lemma_slot_of(self.slots@, i as int, id);
                    }
                    return Some(i);
                }
            }
            i += 1;
        }
        None
    }

    /// The record of the texture `id`, if the cache holds it.
    pub fn record(&self, id: TextureId) -> (record: Option<TextureRecord>)
        requires
            self.well_formed(),
        ensures
            record == match slot_of(self.slots(), id) {
                Some(slot) => self.slots()[slot],
                None => None,
            },
    {
        match self.lookup(id) {
            Some(slot) => {
                proof {
                    lemma_slot_of_holds(self.slots@, id);
                }
                self.slots[slot]
            },
            None => None,
        }
    }

    /// How many textures the cache holds.
    pub fn len(&self) -> (count: usize)
        ensures
            count == live(self.slots()),
    {
        let mut count: usize = 0;
        let mut i: usize = 0;
        while i < self.slots.len()
            invariant
                i <= self.slots.len(),
                count <= i,
                count == live(self.slots@.take(i as int)),
            decreases self.slots.len() - i,
        {
            proof {
                assert(self.slots@.take(i + 1).drop_last() =~= self.slots@.take(i as int));
            }
            if self.slots[i].is_some() {
                count += 1;
            }
            i += 1;
        }
        proof {
            assert(self.slots@.take(i as int) =~= self.slots@);
        }
        count
    }

    fn free_slot(&self) -> (slot: usize)
        ensures
            is_first_free(self.slots(), slot as int),
            slot as int == first_free(self.slots()),
    {
        let mut i: usize = 0;
        while i < self.slots.len() && self.slots[i].is_some()
            invariant
                i <= self.slots.len(),
                forall|k: int| 0 <= k < i ==> (#[trigger] self.slots@[k]).is_some(),
            decreases self.slots.len() - i,
        {
            i += 1;
        }
        proof {
            lemma_first_free(self.slots@, i as int);
        }
        i
    }

    /// Applies one texture change and says what the backend has to do for it.
    pub fn upsert(&mut self, id: TextureId, delta: &ImageDelta) -> (commands: Vec<TextureCommand>)
        requires
            old(self).well_formed(),
            delta.image.well_formed(),
        ensures
            final(self).well_formed(),
            final(self).slots() == upsert_slots(old(self).slots(), id, *delta),
            texture_command_views(commands@) == upsert_commands(old(self).slots(), id, *delta),
    {
        let width = delta.image.width();
        let height = delta.image.height();
        let mut commands: Vec<TextureCommand> = Vec::new();
        let found = self.lookup(id);
        match delta.pos {
            Some((x, y)) => {
                match found {
                    Some(slot) => {
                        let data = rgba_bytes(&delta.image);
                        commands.push(TextureCommand::UpdatePart { slot, x, y, width, height, data });
                    },
                    None => {
                        commands.push(TextureCommand::NotFound { id });
                    },
                }
            },
            None => {
                let filter = match delta.magnification {
                    TextureFilter::Nearest => FilterMode::Nearest,
                    TextureFilter::Linear => FilterMode::Linear,
                };
                let params = TextureParams {
                    format: TextureFormat::Rgba8,
                    wrap: TextureWrap::Clamp,
                    min_filter: filter,
                    mag_filter: filter,
                    width,
                    height,
                };
                let data = rgba_bytes(&delta.image);
                let slot = self.free_slot();
                let record = Some(TextureRecord { id, width, height });
                proof {
                    lemma_upsert_distinct(self.slots@, id, *delta);
                }
                if slot < self.slots.len() {
                    self.slots.set(slot, record);
                } else {
                    self.slots.push(record);
                }
                commands.push(TextureCommand::Create { slot, params, data });
                if let Some(previous) = found {
                    self.slots.set(previous, None);
                    commands.push(TextureCommand::Delete { slot: previous });
                }
            },
        }
        assert(texture_command_views(commands@) =~= upsert_commands(old(self).slots(), id, *delta));
        commands
    }

    /// Forgets the texture `id` and says what the backend has to do for it. Where the cache
    /// holds no such texture, nothing changes and nothing is to be done.
    pub fn remove(&mut self, id: TextureId) -> (commands: Vec<TextureCommand>)
        requires
            old(self).well_formed(),
        ensures
            final(self).well_formed(),
            final(self).slots() == remove_slots(old(self).slots(), id),
            texture_command_views(commands@) == remove_commands(old(self).slots(), id),
    {
        let mut commands: Vec<TextureCommand> = Vec::new();
        if let Some(slot) = self.lookup(id) {
            proof {
                lemma_slot_of_holds(self.slots@, id);
            }
            self.slots.set(slot, None);
            commands.push(TextureCommand::Delete { slot });
        }
        assert(texture_command_views(commands@) =~= remove_commands(old(self).slots(), id));
        commands
    }
}

/// Where names are distinct, the slot that holds a name is the one `slot_of` gives.
pub proof fn lemma_slot_of(slots: Slots, slot: int, id: TextureId)
    requires
        distinct_ids(slots),
        holds(slots, slot, id),
    ensures
        slot_of(slots, id) == Some(slot),
{
    let chosen = choose|s: int| holds(slots, s, id);
    assert(holds(slots, chosen, id));
    if chosen != slot {
        if chosen < slot {
            assert(slots[chosen].unwrap().id != slots[slot].unwrap().id);
        } else {
            assert(slots[slot].unwrap().id != slots[chosen].unwrap().id);
        }
    }
}

/// The slot that `slot_of` gives holds the name.
pub proof fn lemma_slot_of_holds(slots: Slots, id: TextureId)
    ensures
        match slot_of(slots, id) {
            Some(slot) => holds(slots, slot, id),
            None => forall|slot: int| !holds(slots, slot, id),
        },
{
}

/// The first free slot is unique.
pub proof fn lemma_first_free(slots: Slots, slot: int)
    requires
        is_first_free(slots, slot),
    ensures
        first_free(slots) == slot,
{
    let chosen = first_free(slots);
    assert(is_first_free(slots, chosen));
    if chosen < slot {
        assert(slots[chosen].is_some());
    } else if slot < chosen {
        assert(slots[slot].is_some());
    }
}

/// A table has a first free slot.
pub proof fn lemma_first_free_exists(slots: Slots)
    ensures
        is_first_free(slots, first_free(slots)),
    decreases slots.len(),
{
    if slots.len() == 0 {
        assert(is_first_free(slots, 0));
    } else {
        let front = slots.drop_last();
        lemma_first_free_exists(front);
        let f = first_free(front);
        assert forall|j: int| 0 <= j < f implies (#[trigger] slots[j]).is_some() by {
            assert(front[j].is_some());
        }
        if f < front.len() {
            assert(front[f].is_none());
            assert(is_first_free(slots, f));
        } else if slots.last().is_none() {
            assert(is_first_free(slots, front.len() as int));
        } else {
            assert forall|j: int| 0 <= j < slots.len() implies (#[trigger] slots[j]).is_some() by {
                if j < front.len() {
                    assert(front[j].is_some());
                }
            }
            assert(is_first_free(slots, slots.len() as int));
        }
    }
}

/// A change to a texture keeps the names in the table distinct.
pub proof fn lemma_upsert_distinct(slots: Slots, id: TextureId, delta: ImageDelta)
    requires
        distinct_ids(slots),
    ensures
        distinct_ids(upsert_slots(slots, id, delta)),
{
    if delta.pos.is_none() {
        lemma_first_free_exists(slots);
        lemma_slot_of_holds(slots, id);
        let fresh = first_free(slots);
        let after = upsert_slots(slots, id, delta);
        assert forall|i: int, j: int|
            0 <= i < j < after.len() && (#[trigger] after[i]).is_some() && (#[trigger] after[j]).is_some()
            implies after[i].unwrap().id != after[j].unwrap().id by {
            if i != fresh && j != fresh {
                assert(slots[i].is_some() && slots[j].is_some());
            } else if i == fresh {
                assert(holds(slots, j, after[j].unwrap().id));
            } else {
                assert(holds(slots, i, after[i].unwrap().id));
            }
        }
    }
}

/// Replacing one slot's entry changes the number of taken slots by what the entry adds or
/// takes away.
pub proof fn lemma_live_update(slots: Slots, slot: int, entry: Option<TextureRecord>)
    requires
        0 <= slot < slots.len(),
    ensures
        live(slots.update(slot, entry)) == live(slots) + (if entry.is_some() { 1int } else { 0int })
            - (if slots[slot].is_some() { 1int } else { 0int }),
    decreases slots.len(),
{
    let after = slots.update(slot, entry);
    if slot == slots.len() - 1 {
        assert(after.drop_last() =~= slots.drop_last());
    } else {
        assert(after.drop_last() =~= slots.drop_last().update(slot, entry));
        lemma_live_update(slots.drop_last(), slot, entry);
    }
}

/// A new entry behind the table adds one to the number of taken slots, if it is a record.
pub proof fn lemma_live_push(slots: Slots, entry: Option<TextureRecord>)
    ensures
        live(slots.push(entry)) == live(slots) + (if entry.is_some() { 1int } else { 0int }),
{
    assert(slots.push(entry).drop_last() =~= slots);
}

/// After a texture is removed the cache does not hold it.
pub proof fn lemma_remove_forgets(slots: Slots, id: TextureId)
    requires
        distinct_ids(slots),
    ensures
        distinct_ids(remove_slots(slots, id)),
        slot_of(remove_slots(slots, id), id).is_none(),
{
    lemma_slot_of_holds(slots, id);
    let after = remove_slots(slots, id);
    assert forall|slot: int| !holds(after, slot, id) by {
        if holds(after, slot, id) {
            assert(holds(slots, slot, id));
            lemma_slot_of(slots, slot, id);
        }
    }
}

/// Removing a texture that the cache does not hold changes nothing and asks nothing of
/// the backend.
pub proof fn lemma_remove_absent(slots: Slots, id: TextureId)
    requires
        slot_of(slots, id).is_none(),
    ensures
        remove_slots(slots, id) == slots,
        remove_commands(slots, id) == Seq::<TextureCommandView>::empty(),
{
}

/// A change followed at once by a removal leaves the cache without the texture, and a
/// second removal is then idle: it changes nothing and asks nothing of the backend.
pub proof fn lemma_upsert_then_remove(slots: Slots, id: TextureId, delta: ImageDelta)
    requires
        distinct_ids(slots),
    ensures
        ({
            let removed = remove_slots(upsert_slots(slots, id, delta), id);
            &&& distinct_ids(removed)
            &&& slot_of(removed, id).is_none()
            &&& remove_slots(removed, id) == removed
            &&& remove_commands(removed, id) == Seq::<TextureCommandView>::empty()
        }),
{
    lemma_upsert_distinct(slots, id, delta);
    lemma_remove_forgets(upsert_slots(slots, id, delta), id);
    lemma_remove_absent(remove_slots(upsert_slots(slots, id, delta), id), id);
}

/// After a whole-texture change the texture lives in exactly one slot: the one that was
/// the first free slot before.
pub proof fn lemma_upsert_installs(slots: Slots, id: TextureId, delta: ImageDelta)
    requires
        distinct_ids(slots),
        delta.pos.is_none(),
    ensures
        ({
            let after = upsert_slots(slots, id, delta);
            &&& slot_of(after, id) == Some(first_free(slots))
            &&& forall|slot: int| holds(after, slot, id) ==> slot == first_free(slots)
            &&& after[first_free(slots)] == Some(
                TextureRecord { id, width: delta.image.spec_width(), height: delta.image.spec_height() },
            )
        }),
{
    lemma_first_free_exists(slots);
    lemma_slot_of_holds(slots, id);
    lemma_upsert_distinct(slots, id, delta);
    let after = upsert_slots(slots, id, delta);
    let fresh = first_free(slots);
    assert(holds(after, fresh, id));
    lemma_slot_of(after, fresh, id);
    assert forall|slot: int| holds(after, slot, id) implies slot == fresh by {
        lemma_slot_of(after, slot, id);
    }
}

/// A patch leaves the table as it is and neither creates nor deletes a texture.
pub proof fn lemma_patch_keeps(slots: Slots, id: TextureId, delta: ImageDelta)
    requires
        delta.pos.is_some(),
    ensures
        upsert_slots(slots, id, delta) == slots,
        balance(upsert_commands(slots, id, delta)) == 0,
{
    let commands = upsert_commands(slots, id, delta);
    assert(commands.len() == 1);
    assert(commands.drop_last() =~= Seq::<TextureCommandView>::empty());
    assert(balance(commands.drop_last()) == 0);
}

/// What a change creates less what it deletes is what the number of live textures grows by.
pub proof fn lemma_upsert_balance(slots: Slots, id: TextureId, delta: ImageDelta)
    requires
        distinct_ids(slots),
    ensures
        balance(upsert_commands(slots, id, delta)) == live(upsert_slots(slots, id, delta)) - live(
            slots,
        ),
{
    if delta.pos.is_some() {
        lemma_patch_keeps(slots, id, delta);
    } else {
        lemma_first_free_exists(slots);
        lemma_slot_of_holds(slots, id);
        let fresh = first_free(slots);
        let record = Some(
            TextureRecord { id, width: delta.image.spec_width(), height: delta.image.spec_height() },
        );
        let installed = put(slots, fresh, record);
        if fresh < slots.len() {
            lemma_live_update(slots, fresh, record);
        } else {
            lemma_live_push(slots, record);
        }
        assert(live(installed) == live(slots) + 1);
        let commands = upsert_commands(slots, id, delta);
        let empty = Seq::<TextureCommandView>::empty();
        match slot_of(slots, id) {
            Some(previous) => {
                lemma_live_update(installed, previous, None);
                assert(commands.drop_last().drop_last() =~= empty);
                assert(balance(commands.drop_last().drop_last()) == 0);
                assert(balance(commands.drop_last()) == 1);
            },
            None => {
                assert(commands.drop_last() =~= empty);
                assert(balance(commands.drop_last()) == 0);
            },
        }
    }
}

/// What a removal deletes is what the number of live textures shrinks by.
pub proof fn lemma_remove_balance(slots: Slots, id: TextureId)
    ensures
        balance(remove_commands(slots, id)) == live(remove_slots(slots, id)) - live(slots),
{
    lemma_slot_of_holds(slots, id);
    let commands = remove_commands(slots, id);
    match slot_of(slots, id) {
        Some(slot) => {
            lemma_live_update(slots, slot, None);
            assert(commands.drop_last() =~= Seq::<TextureCommandView>::empty());
            assert(balance(commands.drop_last()) == 0);
        },
        None => {},
    }
}

/// A whole texture, then a patch of it, then a whole texture again: after each step the
/// texture lives in exactly one slot, the patch creates and deletes nothing, and the two
/// whole textures together create as many textures more than they delete as the cache has
/// gained. Where the cache did not hold the texture at first, one more texture was created
/// than deleted after each of the three steps.
pub proof fn lemma_replace_keeps_one(
    slots: Slots,
    id: TextureId,
    first: ImageDelta,
    patch: ImageDelta,
    second: ImageDelta,
)
    requires
        distinct_ids(slots),
        first.pos.is_none(),
        patch.pos.is_some(),
        second.pos.is_none(),
    ensures
        ({
            let a = upsert_slots(slots, id, first);
            let b = upsert_slots(a, id, patch);
            let c = upsert_slots(b, id, second);
            let created = balance(upsert_commands(slots, id, first));
            let patched = created + balance(upsert_commands(a, id, patch));
            let replaced = patched + balance(upsert_commands(b, id, second));
            &&& distinct_ids(a) && distinct_ids(b) && distinct_ids(c)
            &&& slot_of(a, id).is_some() && slot_of(b, id).is_some() && slot_of(c, id).is_some()
            &&& forall|slot: int| holds(a, slot, id) ==> slot_of(a, id) == Some(slot)
            &&& forall|slot: int| holds(b, slot, id) ==> slot_of(b, id) == Some(slot)
            &&& forall|slot: int| holds(c, slot, id) ==> slot_of(c, id) == Some(slot)
            &&& live(b) == live(a) && live(c) == live(a)
            &&& patched == created
            &&& replaced == live(c) - live(slots)
            &&& slot_of(slots, id).is_none() ==> created == 1 && patched == 1 && replaced == 1
        }),
{
    let a = upsert_slots(slots, id, first);
    let b = upsert_slots(a, id, patch);
    let c = upsert_slots(b, id, second);
    lemma_upsert_distinct(slots, id, first);
    lemma_upsert_distinct(a, id, patch);
    lemma_upsert_distinct(b, id, second);
    lemma_upsert_installs(slots, id, first);
    lemma_upsert_installs(b, id, second);
    lemma_patch_keeps(a, id, patch);
    lemma_upsert_balance(slots, id, first);
    lemma_upsert_balance(b, id, second);
    assert forall|slot: int| holds(a, slot, id) implies slot_of(a, id) == Some(slot) by {
        lemma_slot_of(a, slot, id);
    }
    assert forall|slot: int| holds(c, slot, id) implies slot_of(c, id) == Some(slot) by {
        lemma_slot_of(c, slot, id);
    }
    let one = upsert_commands(slots, id, first);
    let two = upsert_commands(b, id, second);
    let empty = Seq::<TextureCommandView>::empty();
    if slot_of(slots, id).is_none() {
        assert(one.drop_last() =~= empty);
        assert(balance(one.drop_last()) == 0);
    }
    assert(two.drop_last().drop_last() =~= empty);
    assert(balance(two.drop_last().drop_last()) == 0);
    assert(balance(two.drop_last()) == 1);
    assert(balance(two) == 0);
}

/// The slots that are taken.
pub open spec fn occupied(slots: Slots) -> Set<int> {
    Set::new(|slot: int| 0 <= slot < slots.len() && slots[slot].is_some())
}

/// The textures that live on a backend after it has carried out a command, given those
/// that lived on it before; `None` where the command cannot be carried out: it creates a
/// texture under a slot that has one, or it updates or deletes a texture that is not there.
pub open spec fn carried_out(alive: Set<int>, command: TextureCommandView) -> Option<Set<int>> {
    match command {
        TextureCommandView::Create { slot, .. } => if alive.contains(slot as int) {
            None
        } else {
            Some(alive.insert(slot as int))
        },
        TextureCommandView::UpdatePart { slot, .. } => if alive.contains(slot as int) {
            Some(alive)
        } else {
            None
        },
        TextureCommandView::Delete { slot } => if alive.contains(slot as int) {
            Some(alive.remove(slot as int))
        } else {
            None
        },
        TextureCommandView::NotFound { .. } => Some(alive),
    }
}

/// The textures that live on a backend after it has carried out the commands in order,
/// or `None` where one of them cannot be carried out.
pub open spec fn all_carried_out(alive: Set<int>, commands: Seq<TextureCommandView>) -> Option<
    Set<int>,
>
    decreases commands.len(),
{
    if commands.len() == 0 {
        Some(alive)
    } else {
        match all_carried_out(alive, commands.drop_last()) {
            Some(then) => carried_out(then, commands.last()),
            None => None,
        }
    }
}

/// On a backend whose live textures are those of the taken slots, the commands of a
/// change can all be carried out, and the live textures are again those of the taken
/// slots: nothing is created twice, nothing leaks, and nothing is touched after its
/// deletion.
pub proof fn lemma_upsert_keeps_backend_in_step(slots: Slots, id: TextureId, delta: ImageDelta)
    requires
        distinct_ids(slots),
        slots.len() <= usize::MAX,
    ensures
        all_carried_out(occupied(slots), upsert_commands(slots, id, delta)) == Some(
            occupied(upsert_slots(slots, id, delta)),
        ),
{
    lemma_first_free_exists(slots);
    lemma_slot_of_holds(slots, id);
    let commands = upsert_commands(slots, id, delta);
    let after = upsert_slots(slots, id, delta);
    let empty = Seq::<TextureCommandView>::empty();
    let alive = occupied(slots);
    if delta.pos.is_some() {
        assert(commands.drop_last() =~= empty);
        assert(all_carried_out(alive, commands.drop_last()) == Some(alive));
    } else {
        let fresh = first_free(slots);
        let record = Some(
            TextureRecord { id, width: delta.image.spec_width(), height: delta.image.spec_height() },
        );
        let installed = put(slots, fresh, record);
        assert(!alive.contains(fresh));
        assert(occupied(installed) =~= alive.insert(fresh));
        match slot_of(slots, id) {
            Some(previous) => {
                assert(commands.drop_last().drop_last() =~= empty);
                assert(all_carried_out(alive, commands.drop_last().drop_last()) == Some(alive));
                assert(all_carried_out(alive, commands.drop_last()) == Some(alive.insert(fresh)));
                assert(occupied(after) =~= alive.insert(fresh).remove(previous));
            },
            None => {
                assert(commands.drop_last() =~= empty);
                assert(all_carried_out(alive, commands.drop_last()) == Some(alive));
            },
        }
    }
}

/// On a backend whose live textures are those of the taken slots, the commands of a
/// removal can be carried out, and the live textures are again those of the taken slots.
pub proof fn lemma_remove_keeps_backend_in_step(slots: Slots, id: TextureId)
    requires
        slots.len() <= usize::MAX,
    ensures
        all_carried_out(occupied(slots), remove_commands(slots, id)) == Some(
            occupied(remove_slots(slots, id)),
        ),
{
    lemma_slot_of_holds(slots, id);
    let commands = remove_commands(slots, id);
    let alive = occupied(slots);
    match slot_of(slots, id) {
        Some(slot) => {
            assert(commands.drop_last() =~= Seq::<TextureCommandView>::empty());
            assert(all_carried_out(alive, commands.drop_last()) == Some(alive));
            assert(occupied(remove_slots(slots, id)) =~= alive.remove(slot));
        },
        None => {},
    }
}

/// Carrying out two lists of commands one after the other is carrying out the first and
/// then, if that went well, the second.
pub proof fn lemma_carried_out_in_turn(
    alive: Set<int>,
    first: Seq<TextureCommandView>,
    second: Seq<TextureCommandView>,
)
    ensures
        all_carried_out(alive, first + second) == match all_carried_out(alive, first) {
            Some(then) => all_carried_out(then, second),
            None => None,
        },
    decreases second.len(),
{
    if second.len() == 0 {
        assert(first + second =~= first);
    } else {
        assert((first + second).drop_last() =~= first + second.drop_last());
        lemma_carried_out_in_turn(alive, first, second.drop_last());
    }
}

/// A change to a texture takes at most one slot more than the table has.
pub proof fn lemma_upsert_length(slots: Slots, id: TextureId, delta: ImageDelta)
    ensures
        slots.len() <= upsert_slots(slots, id, delta).len() <= slots.len() + 1,
{
    lemma_first_free_exists(slots);
    lemma_slot_of_holds(slots, id);
}

} // verus!
