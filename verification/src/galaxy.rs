//! Cloud saves on galaxy.click: the messages exchanged with the host page,
//! the list of save slots, the queue of answers, and the decisions about
//! where and when to save.
use vstd::prelude::*;
use std::collections::HashMap;
use vstd::string::StringSliceAdditionalSpecFns;
use crate::market::{parse_u64_range, spec_parse_u64};

verus! {

/// The largest save, in bytes, the host accepts.
pub const MAX_MSG_SIZE: u32 = 256_000;

/// The label the game's automatic cloud save carries.
pub const GALAXY_LABEL_BASE: &'static str = "HashQuest AutoSave";

/// An answer from the host page.
#[derive(Clone, Debug)]
pub enum GalaxyResponse {
    SaveList(SaveListRes),
    SaveContent(SaveContentRes),
    Saved(SavedRes),
    Deleted(DeletedRes),
    Info(InfoRes),
}

/// What the host says about itself and the player.
#[derive(Clone, Debug)]
pub struct InfoRes {
    pub galaxy: bool,
    pub api_version: u32,
    pub theme_preference: String,
    pub logged_in: bool,
    pub echo: Option<String>,
}

/// The player's cloud saves, keyed by slot number.
#[derive(Clone, Debug)]
pub struct SaveListRes {
    pub error: bool,
    pub message: Option<String>,
    pub list: HashMap<String, SaveData>,
    pub echo: Option<String>,
}

/// One cloud save.
#[derive(Clone, Debug)]
pub struct SaveData {
    pub label: String,
    pub content: String,
    pub echo: Option<String>,
}

/// The content of one cloud save.
#[derive(Clone, Debug)]
pub struct SaveContentRes {
    pub error: bool,
    pub message: Option<String>,
    pub slot: u32,
    pub label: Option<String>,
    pub content: Option<String>,
    pub echo: Option<String>,
}

/// The host's answer to a save.
#[derive(Clone, Debug)]
pub struct SavedRes {
    pub error: bool,
    pub message: Option<String>,
    pub slot: u32,
    pub echo: Option<String>,
}

/// The host's answer to a deletion.
#[derive(Clone, Debug)]
pub struct DeletedRes {
    pub error: bool,
    pub message: Option<String>,
    pub slot: u32,
    pub echo: Option<String>,
}

/// Tells the host what the game supports.
#[derive(Clone, Debug)]
pub struct SupportsReq {
    pub action: String,
    pub saving: bool,
    pub eval: bool,
}

/// Asks for the list of cloud saves.
#[derive(Clone, Debug)]
pub struct SaveListReq {
    pub action: String,
    pub echo: Option<String>,
}

/// Stores a save in a slot.
#[derive(Clone, Debug)]
pub struct SaveReq {
    pub action: String,
    pub slot: u32,
    pub label: Option<String>,
    pub data: Option<String>,
    pub echo: Option<String>,
}

/// Asks for the save in a slot.
#[derive(Clone, Debug)]
pub struct LoadReq {
    pub action: String,
    pub slot: u32,
    pub echo: Option<String>,
}

/// Deletes the save in a slot.
#[derive(Clone, Debug)]
pub struct DeleteReq {
    pub action: String,
    pub slot: u32,
    pub echo: Option<String>,
}

/// Asks the host about itself.
#[derive(Clone, Debug)]
pub struct InfoReq {
    pub action: String,
    pub echo: Option<String>,
}

/// A cloud save slot as the game remembers it.
#[derive(Clone, Debug)]
pub struct GalaxySaveSlot {
    pub slot: u64,
    pub label: Option<String>,
    pub content: Option<String>,
}

/// The cloud save slots as the game remembers them.
#[derive(Clone, Debug)]
pub struct GalaxySaveList {
    pub list: Vec<GalaxySaveSlot>,
}

/// Answers from the host waiting to be picked up.
#[derive(Clone, Debug)]
pub struct GalaxyResponseQueue {
    pub queue: Vec<GalaxyResponse>,
}

/// Which kind of answer a response is.
#[derive(Clone, Copy, Debug, PartialEq, Eq, Structural)]
pub enum ResponseKind {
    SaveList,
    SaveContent,
    Saved,
    Deleted,
    Info,
}

/// The kind of an answer.
pub open spec fn spec_kind(r: GalaxyResponse) -> ResponseKind {
    match r {
        GalaxyResponse::SaveList(_) => ResponseKind::SaveList,
        GalaxyResponse::SaveContent(_) => ResponseKind::SaveContent,
        GalaxyResponse::Saved(_) => ResponseKind::Saved,
        GalaxyResponse::Deleted(_) => ResponseKind::Deleted,
        GalaxyResponse::Info(_) => ResponseKind::Info,
    }
}

/// The kind of an answer.
pub fn response_kind(r: &GalaxyResponse) -> (k: ResponseKind)
    ensures
        k == spec_kind(*r),
{
    match r {
        GalaxyResponse::SaveList(_) => ResponseKind::SaveList,
        GalaxyResponse::SaveContent(_) => ResponseKind::SaveContent,
        GalaxyResponse::Saved(_) => ResponseKind::Saved,
        GalaxyResponse::Deleted(_) => ResponseKind::Deleted,
        GalaxyResponse::Info(_) => ResponseKind::Info,
    }
}

impl GalaxyResponseQueue {
    /// No answers waiting.
    pub fn new() -> (q: Self)
        ensures
            q.queue@ == Seq::<GalaxyResponse>::empty(),
    {
        GalaxyResponseQueue { queue: Vec::new() }
    }

    /// Queues an answer after the others.
    pub fn insert(&mut self, response: GalaxyResponse)
        ensures
            final(self).queue@ == old(self).queue@.push(response),
    {
        self.queue.push(response);
    }
}

/// The position of the first answer of kind `kind`, from position `i` on.
pub open spec fn first_of_kind(q: Seq<GalaxyResponse>, kind: ResponseKind, i: int) -> Option<int>
    decreases q.len() - i,
{
    if i < 0 || i >= q.len() {
        None
    } else if spec_kind(q[i]) == kind {
        Some(i)
    } else {
        first_of_kind(q, kind, i + 1)
    }
}

/// Takes the first waiting answer of kind `kind` out of the queue, leaving
/// the others in their order.
pub fn take_response(queue: &mut Vec<GalaxyResponse>, kind: ResponseKind) -> (r: Option<
    GalaxyResponse,
>)
    ensures
        match first_of_kind(old(queue)@, kind, 0) {
            Some(i) => r == Some(old(queue)@[i]) && final(queue)@ == old(queue)@.remove(i),
            None => r is None && final(queue)@ == old(queue)@,
        },
{
    let ghost q = queue@;
    let mut i: usize = 0;
    while i < queue.len()
        invariant
            queue@ == q,
            q == old(queue)@,
            0 <= i <= q.len(),
            first_of_kind(q, kind, 0) == first_of_kind(q, kind, i as int),
        decreases q.len() - i,
    {
        if response_kind(&queue[i]) == kind {
            assert(first_of_kind(q, kind, i as int) == Some(i as int));
            let r = queue.remove(i);
            return Some(r);
        }
        i = i + 1;
    }
    None
}

/// What becomes of an answer when it arrives: host information is handed
/// back to the caller, which records it; every other answer is queued.
pub fn route_response(queue: &mut GalaxyResponseQueue, response: GalaxyResponse) -> (info: Option<
    InfoRes,
>)
    ensures
        match response {
            GalaxyResponse::Info(i) => info == Some(i) && final(queue).queue@ == old(queue).queue@,
            _ => info is None && final(queue).queue@ == old(queue).queue@.push(response),
        },
{
    match response {
        GalaxyResponse::Info(i) => Some(i),
        other => {
            queue.insert(other);
            None
        },
    }
}

/// Whether a slot carries the game's automatic-save label.
pub open spec fn is_autosave_label(label: Option<String>) -> bool {
    label matches Some(l) && l@ == GALAXY_LABEL_BASE@
}

fn has_autosave_label(label: &Option<String>) -> (b: bool)
    ensures
        b == is_autosave_label(*label),
{
    match label {
        Some(l) => {
            let base = String::from_str(GALAXY_LABEL_BASE);
            *l == base
        },
        None => false,
    }
}

/// The position of the first slot with the automatic-save label.
pub open spec fn first_autosave(l: Seq<GalaxySaveSlot>, i: int) -> Option<int>
    decreases l.len() - i,
{
    if i < 0 || i >= l.len() {
        None
    } else if is_autosave_label(l[i].label) {
        Some(i)
    } else {
        first_autosave(l, i + 1)
    }
}

/// Whether some slot holds slot number `n`.
pub open spec fn slot_used(l: Seq<GalaxySaveSlot>, n: int) -> bool {
    exists|i: int| 0 <= i < l.len() && (#[trigger] l[i]).slot == n
}

/// The lowest slot number from `i` to 10 that no slot holds.
pub open spec fn lowest_free_slot(l: Seq<GalaxySaveSlot>, i: int) -> Option<u64>
    decreases 11 - i,
{
    if i < 0 || i > 10 {
        None
    } else if !slot_used(l, i) {
        Some(i as u64)
    } else {
        lowest_free_slot(l, i + 1)
    }
}

/// The slot the automatic save goes to: the first slot already labelled for
/// it, or else the lowest of slots 0 to 10 that holds no save.
pub open spec fn spec_find_save_slot(l: Seq<GalaxySaveSlot>) -> Option<u64> {
    match first_autosave(l, 0) {
        Some(i) => Some(l[i].slot),
        None => lowest_free_slot(l, 0),
    }
}

fn slot_is_used(list: &Vec<GalaxySaveSlot>, n: u64) -> (b: bool)
    ensures
        b == slot_used(list@, n as int),
{
    let mut i: usize = 0;
    while i < list.len()
        invariant
            0 <= i <= list@.len(),
            forall|k: int| 0 <= k < i ==> (#[trigger] list@[k]).slot != n,
        decreases list@.len() - i,
    {
        if list[i].slot == n {
            return true;
        }
        i = i + 1;
    }
    false
}

/// Picks the slot for the automatic save, as `spec_find_save_slot` says.
pub fn find_save_slot(list: &Vec<GalaxySaveSlot>) -> (r: Option<u64>)
    ensures
        r == spec_find_save_slot(list@),
{
    let mut i: usize = 0;
    while i < list.len()
        invariant
            0 <= i <= list@.len(),
            first_autosave(list@, 0) == first_autosave(list@, i as int),
        decreases list@.len() - i,
    {
        if has_autosave_label(&list[i].label) {
            return Some(list[i].slot);
        }
        i = i + 1;
    }
    let mut n: u64 = 0;
    while n <= 10
        invariant
            first_autosave(list@, 0) is None,
            0 <= n <= 11,
            lowest_free_slot(list@, 0) == lowest_free_slot(list@, n as int),
        decreases 11 - n,
    {
        if !slot_is_used(list, n) {
            return Some(n);
        }
        n = n + 1;
    }
    None
}

/// The content of the last slot labelled for the automatic save.
pub open spec fn spec_autosave_content(l: Seq<GalaxySaveSlot>) -> Option<Seq<char>>
    decreases l.len(),
{
    if l.len() == 0 {
        None
    } else if is_autosave_label(l.last().label) {
        match l.last().content {
            Some(c) => Some(c@),
            None => None,
        }
    } else {
        spec_autosave_content(l.drop_last())
    }
}

/// The saved game in the last slot labelled for the automatic save, if it
/// has content.
pub fn get_galaxy_save_data(list: &Vec<GalaxySaveSlot>) -> (r: Option<String>)
    ensures
        r matches Some(s) ==> spec_autosave_content(list@) == Some(s@),
        r is None ==> spec_autosave_content(list@) is None,
{
    let mut save_content: Option<String> = None;
    let mut i: usize = 0;
    while i < list.len()
        invariant
            0 <= i <= list@.len(),
            save_content matches Some(s) ==> spec_autosave_content(list@.take(i as int)) == Some(
                s@,
            ),
            save_content is None ==> spec_autosave_content(list@.take(i as int)) is None,
        decreases list@.len() - i,
    {
        assert(list@.take(i + 1).drop_last() =~= list@.take(i as int));
        assert(list@.take(i + 1).last() == list@[i as int]);
        if has_autosave_label(&list[i].label) {
            save_content = match &list[i].content {
                Some(c) => Some(c.clone()),
                None => None,
            };
        }
        i = i + 1;
    }
    assert(list@.take(i as int) =~= list@);
    save_content
}

proof fn lemma_first_autosave(l: Seq<GalaxySaveSlot>, i: int)
    requires
        0 <= i,
    ensures
        first_autosave(l, i) matches Some(j) ==> i <= j < l.len() && is_autosave_label(l[j].label)
            && forall|k: int| i <= k < j ==> !is_autosave_label(#[trigger] l[k].label),
        first_autosave(l, i) is None ==> forall|k: int|
            i <= k < l.len() ==> !is_autosave_label(#[trigger] l[k].label),
    decreases l.len() - i,
{
    if i < l.len() && !is_autosave_label(l[i].label) {
        lemma_first_autosave(l, i + 1);
    }
}

/// Law: the slot the automatic save goes to. When some slot carries the
/// automatic-save label, it is the slot of the first one; otherwise it is
/// the lowest slot number from 0 to 10 that no save holds, and there is
/// none only when all of them are held.
pub proof fn lemma_find_save_slot_choice(l: Seq<GalaxySaveSlot>)
    ensures
        forall|i: int|
            0 <= i < l.len() && is_autosave_label(#[trigger] l[i].label) && (forall|k: int|
                0 <= k < i ==> !is_autosave_label(#[trigger] l[k].label)) ==> spec_find_save_slot(l)
                == Some(l[i].slot),
        (forall|i: int| 0 <= i < l.len() ==> !is_autosave_label(#[trigger] l[i].label)) ==> {
            &&& spec_find_save_slot(l) matches Some(n) ==> n <= 10 && !slot_used(l, n as int)
                && forall|k: int| 0 <= k < n ==> slot_used(l, k)
            &&& spec_find_save_slot(l) is None ==> forall|k: int| 0 <= k <= 10 ==> slot_used(l, k)
        },
{
    lemma_first_autosave(l, 0);
    lemma_lowest_free_slot_lowest(l, 0);
    assert forall|i: int|
        0 <= i < l.len() && is_autosave_label(#[trigger] l[i].label) && (forall|k: int|
            0 <= k < i ==> !is_autosave_label(#[trigger] l[k].label)) implies spec_find_save_slot(l)
        == Some(l[i].slot) by {
        match first_autosave(l, 0) {
            Some(j) => {
                if j < i {
                    assert(!is_autosave_label(l[j].label));
                } else if j > i {
                    assert(!is_autosave_label(l[i].label));
                }
            },
            None => {
                assert(!is_autosave_label(l[i].label));
            },
        }
    }
}

proof fn lemma_lowest_free_slot_lowest(l: Seq<GalaxySaveSlot>, i: int)
    requires
        0 <= i <= 11,
    ensures
        lowest_free_slot(l, i) matches Some(n) ==> i <= n <= 10 && !slot_used(l, n as int)
            && forall|k: int| i <= k < n ==> slot_used(l, k),
        lowest_free_slot(l, i) is None ==> forall|k: int| i <= k <= 10 ==> slot_used(l, k),
    decreases 11 - i,
{
    if i <= 10 && slot_used(l, i) {
        lemma_lowest_free_slot_lowest(l, i + 1);
    }
}

/// Law: the automatic save's label, and the largest message the host takes.
pub proof fn lemma_galaxy_constants()
    ensures
        GALAXY_LABEL_BASE@ == "HashQuest AutoSave"@,
        MAX_MSG_SIZE == 256_000,
{
    reveal_strlit("HashQuest AutoSave");
}

/// Law: the saved game read back from the cloud is the content of the last
/// slot carrying the automatic-save label, and there is none when no slot
/// carries it.
pub proof fn lemma_autosave_content_last(l: Seq<GalaxySaveSlot>)
    ensures
        forall|i: int|
            0 <= i < l.len() && is_autosave_label(#[trigger] l[i].label) && (forall|k: int|
                i < k < l.len() ==> !is_autosave_label(#[trigger] l[k].label)) ==> spec_autosave_content(l)
                == match l[i].content {
                Some(c) => Some(c@),
                None => None::<Seq<char>>,
            },
        (forall|i: int| 0 <= i < l.len() ==> !is_autosave_label(#[trigger] l[i].label))
            ==> spec_autosave_content(l) is None,
    decreases l.len(),
{
    if l.len() > 0 {
        let d = l.drop_last();
        lemma_autosave_content_last(d);
        assert forall|i: int|
            0 <= i < l.len() && is_autosave_label(#[trigger] l[i].label) && (forall|k: int|
                i < k < l.len() ==> !is_autosave_label(#[trigger] l[k].label)) implies spec_autosave_content(l)
            == match l[i].content {
            Some(c) => Some(c@),
            None => None::<Seq<char>>,
        } by {
            if i < l.len() - 1 {
                assert(!is_autosave_label(l[l.len() - 1].label));
                assert(d[i] == l[i]);
                assert forall|k: int| i < k < d.len() implies !is_autosave_label(#[trigger] d[k].label) by {
                    assert(d[k] == l[k]);
                }
            }
        }
        if forall|i: int| 0 <= i < l.len() ==> !is_autosave_label(#[trigger] l[i].label) {
            assert(!is_autosave_label(l[l.len() - 1].label));
            assert forall|i: int| 0 <= i < d.len() implies !is_autosave_label(#[trigger] d[i].label) by {
                assert(d[i] == l[i]);
            }
        }
    }
}

/// Law: the automatic save goes to a labelled slot when there is one, and
/// otherwise to a slot number from 0 to 10 that no save holds.
pub proof fn lemma_find_save_slot(l: Seq<GalaxySaveSlot>)
    ensures
        spec_find_save_slot(l) matches Some(n) ==> (first_autosave(l, 0) is Some || (n <= 10
            && !slot_used(l, n as int))),
        spec_find_save_slot(l) is None ==> first_autosave(l, 0) is None && forall|n: int|
            0 <= n <= 10 ==> slot_used(l, n),
{
    lemma_lowest_free_slot(l, 0);
}

proof fn lemma_lowest_free_slot(l: Seq<GalaxySaveSlot>, i: int)
    requires
        0 <= i <= 11,
    ensures
        lowest_free_slot(l, i) matches Some(n) ==> i <= n <= 10 && !slot_used(l, n as int),
        lowest_free_slot(l, i) is None ==> forall|n: int| i <= n <= 10 ==> slot_used(l, n),
    decreases 11 - i,
{
    if i <= 10 && slot_used(l, i) {
        lemma_lowest_free_slot(l, i + 1);
    }
}

/// What reading `s` as an unsigned 32-bit number gives.
pub open spec fn spec_parse_u32(s: Seq<char>) -> Option<u32> {
    match spec_parse_u64(s) {
        Some(v) => if v <= u32::MAX {
            Some(v as u32)
        } else {
            None
        },
        None => None,
    }
}

/// Reads a slot number.
pub fn parse_slot(s: &str) -> (r: Option<u32>)
    ensures
        r == spec_parse_u32(s@),
{
    let len = s.unicode_len();
    assert(s@.subrange(0, len as int) =~= s@);
    match parse_u64_range(s, 0, len) {
        Some(v) => if v <= 0xffff_ffffu64 {
            Some(v as u32)
        } else {
            None
        },
        None => None,
    }
}

/// A remembered slot as number, label and content.
pub type SlotView = (u64, Option<Seq<char>>, Option<Seq<char>>);

/// A remembered slot as the contracts speak of it.
pub open spec fn slot_view(s: GalaxySaveSlot) -> SlotView {
    (
        s.slot,
        match s.label {
            Some(l) => Some(l@),
            None => None,
        },
        match s.content {
            Some(c) => Some(c@),
            None => None,
        },
    )
}

/// The remembered slots, as views.
pub open spec fn slot_views(l: Seq<GalaxySaveSlot>) -> Seq<SlotView> {
    l.map_values(|s: GalaxySaveSlot| slot_view(s))
}

/// The slots remembered from the host's list, in the order given: every
/// entry whose key reads as a slot number, with its label and content;
/// entries with other keys are skipped.
pub open spec fn spec_listed_slots(entries: Seq<(String, SaveData)>) -> Seq<SlotView>
    decreases entries.len(),
{
    if entries.len() == 0 {
        Seq::empty()
    } else {
        let rest = spec_listed_slots(entries.drop_last());
        let e = entries.last();
        match spec_parse_u32(e.0@) {
            Some(n) => rest.push((n as u64, Some(e.1.label@), Some(e.1.content@))),
            None => rest,
        }
    }
}

impl GalaxySaveList {
    /// No slots.
    pub fn new() -> (l: Self)
        ensures
            l.list@ == Seq::<GalaxySaveSlot>::empty(),
    {
        GalaxySaveList { list: Vec::new() }
    }

    /// Remembers one more slot, after the others.
    pub fn insert(&mut self, slot: GalaxySaveSlot)
        ensures
            final(self).list@ == old(self).list@.push(slot),
    {
        self.list.push(slot);
    }
}

/// The slots to remember from the host's list of saves, given as key and
/// save pairs: nothing when the host reported an error.
pub fn save_list_slots(error: bool, entries: &Vec<(String, SaveData)>) -> (r: Option<
    GalaxySaveList,
>)
    ensures
        error ==> r is None,
        !error ==> (r matches Some(l) && slot_views(l.list@) == spec_listed_slots(entries@)),
{
    if error {
        return None;
    }
    let mut galaxy_save_list = GalaxySaveList::new();
    let mut i: usize = 0;
    while i < entries.len()
        invariant
            0 <= i <= entries@.len(),
            slot_views(galaxy_save_list.list@) == spec_listed_slots(entries@.take(i as int)),
        decreases entries@.len() - i,
    {
        let ghost before = galaxy_save_list.list@;
        assert(entries@.take(i + 1).drop_last() =~= entries@.take(i as int));
        assert(entries@.take(i + 1).last() == entries@[i as int]);
        let e = &entries[i];
        match parse_slot(e.0.as_str()) {
            Some(n) => {
                let slot = GalaxySaveSlot {
                    slot: n as u64,
                    label: Some(e.1.label.clone()),
                    content: Some(e.1.content.clone()),
                };
                galaxy_save_list.insert(slot);
                assert(slot_views(galaxy_save_list.list@) =~= slot_views(before).push(
                    slot_view(slot),
                ));
            },
            None => {},
        }
        i = i + 1;
    }
    assert(entries@.take(i as int) =~= entries@);
    Some(galaxy_save_list)
}

/// Whether a save is too large for the host: its length in bytes, kept in
/// 32 bits, exceeds the limit.
pub open spec fn spec_save_too_large(save_data: &str) -> bool {
    ((save_data.spec_bytes().len() as usize) as u32) > MAX_MSG_SIZE
}

/// Whether a save is too large for the host.
pub fn save_too_large(save_data: &str) -> (b: bool)
    ensures
        b == spec_save_too_large(save_data),
{
    (save_data.len() as u32) > MAX_MSG_SIZE
}

/// Whether the game should use cloud saves: the host has answered the
/// information request, and it is galaxy.click with a logged-in player.
pub fn galaxy_save_enabled(info_check_status: Option<bool>, galaxy: bool, logged_in: bool) -> (b:
    bool)
    ensures
        b == (info_check_status is Some && galaxy && logged_in),
{
    match info_check_status {
        Some(_) => {
            if galaxy && logged_in {
                true
            } else {
                false
            }
        },
        None => false,
    }
}

/// Whether automatic cloud saving is switched on: on galaxy.click with a
/// logged-in player, with autosave active and a slot chosen.
pub open spec fn spec_autosave_on(galaxy: bool, logged_in: bool, active: bool, has_slot: bool) -> bool {
    galaxy && logged_in && active && has_slot
}

/// Whether automatic cloud saving is switched on.
pub fn autosave_on(galaxy: bool, logged_in: bool, active: bool, has_slot: bool) -> (b: bool)
    ensures
        b == spec_autosave_on(galaxy, logged_in, active, has_slot),
{
    if galaxy && logged_in {
        active && has_slot
    } else {
        false
    }
}

/// Whether a cloud save is due now: autosave is on, and either the save
/// interval has passed since the last cloud save or one is forced.
pub fn autosave_due(
    galaxy: bool,
    logged_in: bool,
    active: bool,
    has_slot: bool,
    now_secs: i64,
    last_save_secs: i64,
    save_interval: i64,
    force_save: bool,
) -> (b: bool)
    requires
        spec_autosave_on(galaxy, logged_in, active, has_slot) ==> i64::MIN <= last_save_secs
            + save_interval <= i64::MAX,
    ensures
        b == (spec_autosave_on(galaxy, logged_in, active, has_slot) && (now_secs > last_save_secs
            + save_interval || force_save)),
{
    if !autosave_on(galaxy, logged_in, active, has_slot) {
        return false;
    }
    now_secs > last_save_secs + save_interval || force_save
}

/// Whether the cloud copy of a game should win over the local one: it was
/// saved later (a missing local save counts as saved at time 0).
pub fn prefer_galaxy_save(galaxy_save_time: i64, local_save_time: Option<i64>) -> (b: bool)
    ensures
        b == (galaxy_save_time > match local_save_time {
            Some(t) => t,
            None => 0,
        }),
{
    let local = match local_save_time {
        Some(t) => t,
        None => 0,
    };
    galaxy_save_time > local
}

/// The request that stores `data` in `slot` under the automatic-save label.
pub fn save_request(slot: u32, data: String) -> (r: SaveReq)
    ensures
        r.action@ == "save"@,
        r.slot == slot,
        r.label matches Some(l) && l@ == GALAXY_LABEL_BASE@,
        r.data matches Some(d) && d@ == data@,
        r.echo is None,
{
    SaveReq {
        action: String::from_str("save"),
        slot,
        label: Some(String::from_str(GALAXY_LABEL_BASE)),
        data: Some(data),
        echo: None,
    }
}

/// The request that loads the save in `slot`.
pub fn load_request(slot: u32) -> (r: LoadReq)
    ensures
        r.action@ == "load"@,
        r.slot == slot,
        r.echo is None,
{
    LoadReq { action: String::from_str("load"), slot, echo: None }
}

/// The request that deletes the save in `slot`.
pub fn delete_request(slot: u32) -> (r: DeleteReq)
    ensures
        r.action@ == "delete"@,
        r.slot == slot,
        r.echo is None,
{
    DeleteReq { action: String::from_str("delete"), slot, echo: None }
}

/// The request for the list of cloud saves.
pub fn save_list_request() -> (r: SaveListReq)
    ensures
        r.action@ == "save_list"@,
        r.echo is None,
{
    SaveListReq { action: String::from_str("save_list"), echo: None }
}

/// The announcement that the game supports saving but not evaluation.
pub fn supports_request() -> (r: SupportsReq)
    ensures
        r.action@ == "supports"@,
        r.saving,
        !r.eval,
{
    SupportsReq { action: String::from_str("supports"), saving: true, eval: false }
}

/// The request for information about the host, echoing `sheet`.
pub fn info_request() -> (r: InfoReq)
    ensures
        r.action@ == "info"@,
        r.echo matches Some(e) && e@ == "sheet"@,
{
    InfoReq { action: String::from_str("info"), echo: Some(String::from_str("sheet")) }
}

/// Law: a waiting answer taken from the queue is the first of its kind, and
/// the answers left keep their order.
pub proof fn lemma_take_response_keeps_order(q: Seq<GalaxyResponse>, kind: ResponseKind)
    ensures
        first_of_kind(q, kind, 0) matches Some(i) ==> spec_kind(q[i]) == kind && (forall|k: int|
            0 <= k < i ==> spec_kind(#[trigger] q[k]) != kind) && (forall|a: int, b: int|
            0 <= a < b < q.len() - 1 ==> #[trigger] q.remove(i)[a] == q[if a < i { a } else { a + 1 }]
                && #[trigger] q.remove(i)[b] == q[if b < i { b } else { b + 1 }]),
        first_of_kind(q, kind, 0) is None ==> forall|k: int|
            0 <= k < q.len() ==> spec_kind(#[trigger] q[k]) != kind,
{
    lemma_first_of_kind(q, kind, 0);
}

proof fn lemma_first_of_kind(q: Seq<GalaxyResponse>, kind: ResponseKind, i: int)
    requires
        0 <= i,
    ensures
        first_of_kind(q, kind, i) matches Some(j) ==> i <= j < q.len() && spec_kind(q[j]) == kind
            && forall|k: int| i <= k < j ==> spec_kind(#[trigger] q[k]) != kind,
        first_of_kind(q, kind, i) is None ==> forall|k: int|
            i <= k < q.len() ==> spec_kind(#[trigger] q[k]) != kind,
    decreases q.len() - i,
{
    if i < q.len() && spec_kind(q[i]) != kind {
        lemma_first_of_kind(q, kind, i + 1);
    }
}

} // verus!
