//! The activity log: every activity an instance has received or sent, in
//! the order it was recorded, with the de-duplication of deliveries and a
//! paged history per user.

use crate::activity::{Activity, ActivityView, Disposition};
use vstd::prelude::*;
use vstd::string::*;

verus! {

/// One recorded activity.
#[derive(Clone, Debug, PartialEq, Eq)]
pub struct LogEntry {
    pub activity: Activity,
    /// `true` for an activity that was delivered here, `false` for one sent from here.
    pub inbound: bool,
    /// What the endpoint concluded for it.
    pub disposition: Disposition,
    /// When it was recorded, on the clock of whoever recorded it.
    pub created_at: u64,
}

/// The mathematical content of a [`LogEntry`].
pub struct EntryView {
    pub activity: ActivityView,
    pub inbound: bool,
    pub disposition: Disposition,
    pub created_at: u64,
}

impl View for LogEntry {
    type V = EntryView;

    open spec fn view(&self) -> EntryView {
        EntryView {
            activity: self.activity@,
            inbound: self.inbound,
            disposition: self.disposition,
            created_at: self.created_at,
        }
    }
}

/// How the recording of a delivery ended.
#[derive(Clone, Copy, Debug, PartialEq, Eq, Structural)]
pub enum InboundRecord {
    /// The activity was not known and is recorded now.
    Fresh,
    /// The activity was recorded before, with this disposition; nothing changed.
    Duplicate(Disposition),
}

/// A part of a user's history, and where the next part begins.
#[derive(Clone, Debug, PartialEq, Eq)]
pub struct Page {
    pub items: Vec<LogEntry>,
    /// The token to ask the next page with.
    pub next: usize,
}

/// The log of one instance. Its view is the sequence of recorded entries,
/// oldest first.
pub struct ActivityLog {
    entries: Vec<LogEntry>,
}

/// The views of a sequence of entries.
pub open spec fn views_of(entries: Seq<LogEntry>) -> Seq<EntryView> {
    entries.map_values(|entry: LogEntry| entry@)
}

/// Whether `entry` records the delivery with this sender, recipient and id.
pub open spec fn is_delivery(
    entry: EntryView,
    sender: Seq<char>,
    recipient: Seq<char>,
    id: Seq<char>,
) -> bool {
    &&& entry.inbound
    &&& entry.activity.actor == sender
    &&& entry.activity.object == recipient
    &&& entry.activity.id == id
}

/// The disposition recorded for a delivery, if it was recorded.
pub open spec fn stored_disposition(
    entries: Seq<EntryView>,
    sender: Seq<char>,
    recipient: Seq<char>,
    id: Seq<char>,
) -> Option<Disposition>
    decreases entries.len(),
{
    if entries.len() == 0 {
        None
    } else if is_delivery(entries.last(), sender, recipient, id) {
        Some(entries.last().disposition)
    } else {
        stored_disposition(entries.drop_last(), sender, recipient, id)
    }
}

/// The texts of a sequence of strings.
pub open spec fn texts_of(names: Seq<String>) -> Seq<Seq<char>> {
    names.map_values(|name: String| name@)
}

/// Whether the sender or the recipient of the activity of `entry` is
/// written as one of `names`.
pub open spec fn involves(entry: EntryView, names: Seq<Seq<char>>) -> bool {
    names.contains(entry.activity.actor) || names.contains(entry.activity.object)
}

/// The entries that involve one of `names`, in the order of `entries`.
pub open spec fn history_of(entries: Seq<EntryView>, names: Seq<Seq<char>>) -> Seq<EntryView>
    decreases entries.len(),
{
    if entries.len() == 0 {
        Seq::empty()
    } else if involves(entries.last(), names) {
        history_of(entries.drop_last(), names).push(entries.last())
    } else {
        history_of(entries.drop_last(), names)
    }
}

/// Where a page that starts at `start` and holds `taken` entries of at most
/// `limit` ends: at the end of the log when the log ran out first, and
/// otherwise right behind the entry that filled the page.
pub open spec fn page_ends_at(
    entries: Seq<EntryView>,
    names: Seq<Seq<char>>,
    start: int,
    limit: int,
    taken: int,
    next: int,
) -> bool {
    if limit == 0 {
        next == start
    } else if taken < limit {
        next == entries.len()
    } else {
        start < next <= entries.len() && involves(entries[next - 1], names)
    }
}

/// The position that a token stands for: itself, or the end of the log if
/// it lies beyond.
pub open spec fn token_position(token: usize, len: nat) -> int {
    if token <= len {
        token as int
    } else {
        len as int
    }
}

impl ActivityLog {
    /// The recorded entries, oldest first.
    pub closed spec fn view(&self) -> Seq<EntryView> {
        views_of(self.entries@)
    }

    /// A log without entries.
    pub fn new() -> (log: ActivityLog)
        ensures
            log@ == Seq::<EntryView>::empty(),
    {
        ActivityLog { entries: Vec::new() }
    }

    /// The number of entries, which is the token behind the last one.
    pub fn len(&self) -> (count: usize)
        ensures
            count == self@.len(),
    {
        self.entries.len()
    }

    /// The disposition recorded for the delivery of the activity `id` from
    /// `sender` to `recipient`, or `None` if none was recorded.
    pub fn stored(&self, sender: &str, recipient: &str, id: &str) -> (found: Option<Disposition>)
        ensures
            found == stored_disposition(self@, sender@, recipient@, id@),
    {
        let from = String::from_str(sender);
        let to = String::from_str(recipient);
        let key = String::from_str(id);
        let mut left: usize = self.entries.len();
        proof {
            assert(self@.subrange(0, left as int) =~= self@);
        }
        while left > 0
            invariant
                left <= self.entries@.len(),
                self@.len() == self.entries@.len(),
                from@ == sender@,
                to@ == recipient@,
                key@ == id@,
                stored_disposition(self@, sender@, recipient@, id@) == stored_disposition(
                    self@.subrange(0, left as int),
                    sender@,
                    recipient@,
                    id@,
                ),
            decreases left,
        {
            let entry = &self.entries[left - 1];
            proof {
                let part = self@.subrange(0, left as int);
                assert(part.drop_last() =~= self@.subrange(0, left - 1));
            }
            if entry.inbound && entry.activity.actor == from && entry.activity.object == to
                && entry.activity.id == key {
                return Some(entry.disposition);
            }
            left = left - 1;
        }
        None
    }

    /// The de-duplication gate. A delivery that was recorded before changes
    /// nothing and is answered with the disposition recorded then; any other
    /// is appended with `disposition` and the time `created_at`.
    pub fn record_inbound(
        &mut self,
        activity: &Activity,
        disposition: Disposition,
        created_at: u64,
    ) -> (record: InboundRecord)
        ensures
            record == match stored_disposition(
                old(self)@,
                activity@.actor,
                activity@.object,
                activity@.id,
            ) {
                Some(earlier) => InboundRecord::Duplicate(earlier),
                None => InboundRecord::Fresh,
            },
            final(self)@ == match record {
                InboundRecord::Duplicate(_) => old(self)@,
                InboundRecord::Fresh => old(self)@.push(
                    EntryView { activity: activity@, inbound: true, disposition, created_at },
                ),
            },
    {
        match self.stored(activity.actor.as_str(), activity.object.as_str(), activity.id.as_str()) {
            Some(earlier) => InboundRecord::Duplicate(earlier),
            None => {
                let ghost before = self@;
                self.entries.push(
                    LogEntry { activity: activity.duplicate(), inbound: true, disposition, created_at },
                );
                assert(self@ =~= before.push(
                    EntryView { activity: activity@, inbound: true, disposition, created_at },
                ));
                InboundRecord::Fresh
            },
        }
    }

    /// Appends an activity that this instance sent.
    pub fn record_outbound(&mut self, activity: &Activity, created_at: u64)
        ensures
            final(self)@ == old(self)@.push(
                EntryView {
                    activity: activity@,
                    inbound: false,
                    disposition: Disposition::Stored,
                    created_at,
                },
            ),
    {
        let ghost before = self@;
        self.entries.push(
            LogEntry {
                activity: activity.duplicate(),
                inbound: false,
                disposition: Disposition::Stored,
                created_at,
            },
        );
        assert(self@ =~= before.push(
            EntryView {
                    activity: activity@,
                    inbound: false,
                    disposition: Disposition::Stored,
                    created_at,
                },
        ));
    }

    /// One page of the history of a user who is written as any of `names`:
    /// the entries that involve one of them from the position of `token`
    /// on, in the order they were recorded, up to `limit` of them. A first
    /// page is asked with token zero, each further one with the `next` of
    /// the page before.
    pub fn history(&self, names: &Vec<String>, token: usize, limit: usize) -> (page: Page)
        ensures
            token_position(token, self@.len()) <= page.next <= self@.len(),
            views_of(page.items@) == history_of(
                self@.subrange(token_position(token, self@.len()), page.next as int),
                texts_of(names@),
            ),
            page.items@.len() <= limit,
            page_ends_at(
                self@,
                texts_of(names@),
                token_position(token, self@.len()),
                limit as int,
                page.items@.len() as int,
                page.next as int,
            ),
    {
        let total: usize = self.entries.len();
        let start: usize = if token <= total { token } else { total };
        let mut items: Vec<LogEntry> = Vec::new();
        let mut next: usize = start;
        let ghost wanted = texts_of(names@);
        while next < total && items.len() < limit
            invariant
                total == self.entries@.len(),
                self@.len() == total,
                wanted == texts_of(names@),
                start <= next <= total,
                items@.len() <= limit,
                views_of(items@) == history_of(self@.subrange(start as int, next as int), wanted),
                limit == 0 ==> next == start,
                items@.len() == limit && limit > 0 ==> next > start
                    && involves(self@[next - 1], wanted),
            decreases total - next,
        {
            let entry = &self.entries[next];
            proof {
                let part = self@.subrange(start as int, next + 1);
                assert(part.drop_last() =~= self@.subrange(start as int, next as int));
            }
            if is_among(names, &entry.activity.actor) || is_among(names, &entry.activity.object) {
                items.push(
                    LogEntry {
                        activity: entry.activity.duplicate(),
                        inbound: entry.inbound,
                        disposition: entry.disposition,
                        created_at: entry.created_at,
                    },
                );
            }
            next = next + 1;
        }
        Page { items, next }
    }
}

/// Whether `text` is one of `names`.
pub fn is_among(names: &Vec<String>, text: &String) -> (found: bool)
    ensures
        found == texts_of(names@).contains(text@),
{
    let mut index: usize = 0;
    while index < names.len()
        invariant
            index <= names@.len(),
            forall|k: int| 0 <= k < index ==> texts_of(names@)[k] != text@,
        decreases names@.len() - index,
    {
        if names[index] == *text {
            assert(texts_of(names@)[index as int] == text@);
            return true;
        }
        index = index + 1;
    }
    false
}

/// The history of a log in two parts is the history of the first part
/// followed by that of the second.
pub proof fn lemma_history_of_parts(
    first: Seq<EntryView>,
    second: Seq<EntryView>,
    names: Seq<Seq<char>>,
)
    ensures
        history_of(first + second, names) == history_of(first, names) + history_of(second, names),
    decreases second.len(),
{
    if second.len() > 0 {
        lemma_history_of_parts(first, second.drop_last(), names);
        assert((first + second).drop_last() =~= first + second.drop_last());
        if involves(second.last(), names) {
            assert((history_of(first, names) + history_of(second.drop_last(), names)).push(
                second.last(),
            ) =~= history_of(first, names) + history_of(second, names));
        }
    }
}

/// Pages continue each other: the entries of a page that ends at `middle`
/// followed by those of a page that starts there are the entries of one
/// page over both stretches, with no entry left out and none repeated.
pub proof fn lemma_pages_continue(
    entries: Seq<EntryView>,
    names: Seq<Seq<char>>,
    start: int,
    middle: int,
    end: int,
)
    requires
        0 <= start <= middle <= end <= entries.len(),
    ensures
        history_of(entries.subrange(start, middle), names) + history_of(
            entries.subrange(middle, end),
            names,
        ) == history_of(entries.subrange(start, end), names),
{
    lemma_history_of_parts(entries.subrange(start, middle), entries.subrange(middle, end), names);
    assert(entries.subrange(start, middle) + entries.subrange(middle, end) =~= entries.subrange(
        start,
        end,
    ));
}

/// Recording a delivery makes it known: a delivery that was not recorded
/// yet is stored, once it is appended, with the disposition it was appended
/// with.
pub proof fn lemma_recorded_is_stored(
    entries: Seq<EntryView>,
    activity: ActivityView,
    disposition: Disposition,
    created_at: u64,
)
    requires
        stored_disposition(entries, activity.actor, activity.object, activity.id) is None,
    ensures
        stored_disposition(
            entries.push(EntryView { activity, inbound: true, disposition, created_at }),
            activity.actor,
            activity.object,
            activity.id,
        ) == Some(disposition),
{
}

} // verus!
