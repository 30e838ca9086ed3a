//! Session bookkeeping: four independent keyed tables — outgoing sends,
//! incoming downloads, in-flight connection attempts, and pending inbound
//! offers — each with insert, atomic take, and a one-shot cancellation
//! trigger per entry.
//!
//! A table is modelled as the map from live ids to entries; at most one
//! live entry per id, and an insert never silently overwrites.

use vstd::prelude::*;
use crate::errors::TransferError;

verus! {

/// A keyed table with unique string ids.
pub struct Table<V> {
    items: Vec<(String, V)>,
}

/// The map an item list denotes: later pairs win, but the well-formedness
/// invariant keeps every id unique.
pub open spec fn map_of<V>(items: Seq<(String, V)>) -> Map<Seq<char>, V>
    decreases items.len(),
{
    if items.len() == 0 {
        Map::empty()
    } else {
        map_of(items.drop_last()).insert(items.last().0@, items.last().1)
    }
}

impl<V> View for Table<V> {
    type V = Map<Seq<char>, V>;

    closed spec fn view(&self) -> Map<Seq<char>, V> {
        map_of(self.items@)
    }
}

proof fn lemma_map_of_dom<V>(items: Seq<(String, V)>)
    ensures
        forall|k: Seq<char>|
            map_of(items).dom().contains(k) <==> (exists|i: int|
                0 <= i < items.len() && items[i].0@ == k),
    decreases items.len(),
{
    if items.len() > 0 {
        lemma_map_of_dom(items.drop_last());
        assert(forall|j: int| 0 <= j < items.len() - 1 ==> items.drop_last()[j] == items[j]);
        assert forall|k: Seq<char>| map_of(items).dom().contains(k) implies (exists|i: int|
            0 <= i < items.len() && items[i].0@ == k) by {
            if k == items.last().0@ {
                assert(items[items.len() - 1].0@ == k);
            } else {
                assert(map_of(items.drop_last()).dom().contains(k));
                let i = choose|i: int|
                    0 <= i < items.drop_last().len() && items.drop_last()[i].0@ == k;
                assert(items[i].0@ == k);
            }
        }
        assert forall|k: Seq<char>|
            (exists|i: int| 0 <= i < items.len() && items[i].0@ == k) implies map_of(
            items,
        ).dom().contains(k) by {
            let i = choose|i: int| 0 <= i < items.len() && items[i].0@ == k;
            if i < items.len() - 1 {
                assert(items.drop_last()[i].0@ == k);
                assert(exists|j: int|
                    0 <= j < items.drop_last().len() && items.drop_last()[j].0@ == k);
                assert(map_of(items.drop_last()).dom().contains(k));
            } else {
                assert(k == items.last().0@);
            }
        }
    }
}

/// All ids of the list are distinct.
pub open spec fn unique_ids<V>(items: Seq<(String, V)>) -> bool {
    forall|i: int, j: int|
        0 <= i < j < items.len() ==> (#[trigger] items[i]).0@ != (#[trigger] items[j]).0@
}

proof fn lemma_map_of_index<V>(items: Seq<(String, V)>, i: int)
    requires
        unique_ids(items),
        0 <= i < items.len(),
    ensures
        map_of(items).dom().contains(items[i].0@),
        map_of(items)[items[i].0@] == items[i].1,
    decreases items.len(),
{
    if i == items.len() - 1 {
    } else {
        assert(items.drop_last()[i] == items[i]);
        lemma_map_of_index(items.drop_last(), i);
        assert(items[i].0@ != items.last().0@);
    }
}

proof fn lemma_map_of_remove<V>(items: Seq<(String, V)>, i: int)
    requires
        unique_ids(items),
        0 <= i < items.len(),
    ensures
        map_of(items.remove(i)) == map_of(items).remove(items[i].0@),
    decreases items.len(),
{
    let key = items[i].0@;
    if i == items.len() - 1 {
        assert(items.remove(i) =~= items.drop_last());
        lemma_map_of_dom(items.drop_last());
        assert(forall|j: int| 0 <= j < items.len() - 1 ==> items.drop_last()[j] == items[j]);
        assert(!map_of(items.drop_last()).dom().contains(key));
        assert(map_of(items.drop_last()).insert(key, items.last().1).remove(key) =~= map_of(
            items.drop_last(),
        ));
    } else {
        assert(forall|j: int| 0 <= j < items.len() - 1 ==> items.drop_last()[j] == items[j]);
        lemma_map_of_remove(items.drop_last(), i);
        assert(items.remove(i).drop_last() =~= items.drop_last().remove(i));
        assert(items.remove(i).last() == items.last());
        assert(key != items.last().0@);
        assert(map_of(items.remove(i)) == map_of(items.drop_last().remove(i)).insert(
            items.last().0@,
            items.last().1,
        ));
        assert(map_of(items.drop_last()).remove(key).insert(items.last().0@, items.last().1)
            =~= map_of(items.drop_last()).insert(items.last().0@, items.last().1).remove(key));
    }
}

impl<V> Table<V> {
    /// The table's ids are unique. Constructors establish it and every
    /// operation keeps it; contracts carry it so that callers can chain
    /// operations.
    pub closed spec fn wf(&self) -> bool {
        unique_ids(self.items@)
    }

    /// An empty table.
    pub fn new() -> (t: Table<V>)
        ensures
            t@ == Map::<Seq<char>, V>::empty(),
            t.wf(),
    {
        Table { items: Vec::new() }
    }

    fn find(&self, id: &String) -> (found: Option<usize>)
        ensures
            match found {
                Some(i) => i < self.items@.len() && self.items@[i as int].0@ == id@,
                None => forall|i: int| 0 <= i < self.items@.len() ==> self.items@[i].0@ != id@,
            },
    {
        let mut i: usize = 0;
        while i < self.items.len()
            invariant
                i <= self.items@.len(),
                forall|j: int| 0 <= j < i ==> self.items@[j].0@ != id@,
            decreases self.items.len() - i,
        {
            if self.items[i].0 == *id {
                return Some(i);
            }
            i = i + 1;
        }
        None
    }

    /// Whether an entry with this id is live.
    pub fn contains(&self, id: &String) -> (present: bool)
        requires
            self.wf(),
        ensures
            present == self@.dom().contains(id@),
    {
        proof {
            lemma_map_of_dom(self.items@);
        }
        match self.find(id) {
            Some(_) => true,
            None => false,
        }
    }

    /// Looks an entry up without disturbing it.
    pub fn get(&self, id: &String) -> (found: Option<&V>)
        requires
            self.wf(),
        ensures
            match found {
                Some(v) => self@.dom().contains(id@) && *v == self@[id@],
                None => !self@.dom().contains(id@),
            },
    {
        proof {
            lemma_map_of_dom(self.items@);
        }
        match self.find(id) {
            Some(i) => {
                proof {
                    lemma_map_of_index(self.items@, i as int);
                }
                Some(&self.items[i].1)
            },
            None => None,
        }
    }

    /// Inserts a new entry; an id that is already live is refused with
    /// `DuplicateId` and the table is left unchanged.
    pub fn insert(&mut self, id: String, value: V) -> (r: Result<(), TransferError>)
        requires
            old(self).wf(),
        ensures
            final(self).wf(),
            old(self)@.dom().contains(id@) ==> (r matches Err(e) && e is DuplicateId) && final(self)@ == old(self)@,
            !old(self)@.dom().contains(id@) ==> r is Ok && final(self)@ == old(self)@.insert(
                id@,
                value,
            ),
    {
        proof {
            lemma_map_of_dom(self.items@);
        }
        match self.find(&id) {
            Some(_) => Err(TransferError::DuplicateId),
            None => {
                let ghost pre = self.items@;
                self.items.push((id, value));
                proof {
                    assert(self.items@.drop_last() =~= pre);
                    assert(forall|j: int| 0 <= j < pre.len() ==> self.items@[j] == pre[j]);
                }
                Ok(())
            },
        }
    }

    /// Atomically removes and returns the entry for `id`; `NotFound` when
    /// no entry is live, leaving the table unchanged.
    pub fn take(&mut self, id: &String) -> (r: Result<V, TransferError>)
        requires
            old(self).wf(),
        ensures
            final(self).wf(),
            !old(self)@.dom().contains(id@) ==> (r matches Err(e) && e is NotFound) && final(self)@ == old(self)@,
            old(self)@.dom().contains(id@) ==> (r matches Ok(v) && v == old(self)@[id@]) && final(self)@ == old(self)@.remove(id@),
    {
        proof {
            lemma_map_of_dom(self.items@);
        }
        match self.find(id) {
            None => Err(TransferError::NotFound),
            Some(i) => {
                proof {
                    lemma_map_of_index(self.items@, i as int);
                    lemma_map_of_remove(self.items@, i as int);
                }
                let ghost pre = self.items@;
                let (_, value) = self.items.remove(i);
                proof {
                    assert(self.items@ =~= pre.remove(i as int));
                    assert(unique_ids(self.items@)) by {
                        assert(forall|j: int|
                            0 <= j < self.items@.len() ==> self.items@[j] == (if j < i as int {
                                pre[j]
                            } else {
                                pre[j + 1]
                            }));
                    }
                }
                Ok(value)
            },
        }
    }

    /// The number of live entries.
    pub fn len(&self) -> (n: usize)
        requires
            self.wf(),
        ensures
            n == self@.dom().len(),
    {
        proof {
            lemma_map_of_len(self.items@);
        }
        self.items.len()
    }
}

#[verifier::external_type_specification]
#[verifier::external_body]
#[verifier::reject_recursive_types(T)]
pub struct ExOneshotSender<T>(tokio::sync::oneshot::Sender<T>);

/// Relies on tokio's one-shot `Sender::send`: consuming the sender delivers
/// the signal to a receiver that still waits (waking it), and is a plain
/// no-op when the receiver is gone. Whether the receiver was still there
/// depends on outside state, so nothing more is promised of the result.
#[verifier::external_body]
pub(crate) fn fire_trigger(trigger: tokio::sync::oneshot::Sender<()>) -> (delivered: bool) {
    trigger.send(()).is_ok()
}

/// Relies on `uuid::Uuid::new_v4` and its `Display` form: a random
/// version-4 UUID printed hyphenated, which is always 36 characters. The
/// value is random, so nothing else is promised.
#[verifier::external_body]
pub fn fresh_session_id() -> (id: String)
    ensures
        id@.len() == 36,
{
    uuid::Uuid::new_v4().to_string()
}

/// A live outgoing send: its rendezvous code (empty until the mailbox
/// answers) and its one-shot cancellation trigger.
pub struct SendEntry {
    pub code: String,
    pub cancel: Option<tokio::sync::oneshot::Sender<()>>,
}

/// A live incoming download: the display name of the destination file and
/// its cancellation trigger.
pub struct DownloadEntry {
    pub file_name: String,
    pub cancel: tokio::sync::oneshot::Sender<()>,
}

/// A live connection attempt: the window between a submitted receive code
/// and an offer (or a terminal failure).
pub struct ConnectionEntry {
    pub cancel: tokio::sync::oneshot::Sender<()>,
}

/// A pending inbound offer, not yet accepted or denied: what the peer
/// offered. The open negotiation itself is an I/O handle the caller keeps;
/// this entry's single consumption decides who may answer it.
pub struct OfferEntry {
    pub file_name: String,
    pub file_size: u64,
}

/// The four independent session tables.
pub struct SessionRegistry {
    pub sends: Table<SendEntry>,
    pub downloads: Table<DownloadEntry>,
    pub connections: Table<ConnectionEntry>,
    pub offers: Table<OfferEntry>,
}

impl SessionRegistry {
    pub open spec fn wf(&self) -> bool {
        self.sends.wf() && self.downloads.wf() && self.connections.wf() && self.offers.wf()
    }

    /// A registry with no live session of any kind.
    pub fn new() -> (r: SessionRegistry)
        ensures
            r.wf(),
            r.sends@ == Map::<Seq<char>, SendEntry>::empty(),
            r.downloads@ == Map::<Seq<char>, DownloadEntry>::empty(),
            r.connections@ == Map::<Seq<char>, ConnectionEntry>::empty(),
            r.offers@ == Map::<Seq<char>, OfferEntry>::empty(),
    {
        SessionRegistry {
            sends: Table::new(),
            downloads: Table::new(),
            connections: Table::new(),
            offers: Table::new(),
        }
    }

    /// Sets the rendezvous code on a live send without removing it; the
    /// trigger is kept. `NotFound` when no send is live under this id.
    pub fn update_send_code(&mut self, send_id: &String, code: String) -> (r: Result<
        (),
        TransferError,
    >)
        requires
            old(self).wf(),
        ensures
            final(self).wf(),
            final(self).downloads@ == old(self).downloads@,
            final(self).connections@ == old(self).connections@,
            final(self).offers@ == old(self).offers@,
            !old(self).sends@.dom().contains(send_id@) ==> (r matches Err(e) && e is NotFound)
                && final(self).sends@ == old(self).sends@,
            old(self).sends@.dom().contains(send_id@) ==> r is Ok && final(self).sends@ == old(self).sends@.insert(
                send_id@,
                (SendEntry { code: code, cancel: old(self).sends@[send_id@].cancel }),
            ),
    {
        let entry = self.sends.take(send_id)?;
        let updated = SendEntry { code, cancel: entry.cancel };
        let inserted = self.sends.insert(send_id.clone(), updated);
        proof {
            assert(inserted is Ok);
            assert(old(self).sends@.remove(send_id@).insert(
                send_id@,
                (SendEntry { code: code, cancel: old(self).sends@[send_id@].cancel }),
            ) =~= old(self).sends@.insert(
                send_id@,
                (SendEntry { code: code, cancel: old(self).sends@[send_id@].cancel }),
            ));
        }
        Ok(())
    }

    /// Cancels a live send: the entry is removed and its trigger, if still
    /// present, is consumed — exactly once, since the entry is gone
    /// afterwards. `Ok` tells whether a trigger was fired; a send that was
    /// already gone is `NotFound`, and so is one whose trigger had already
    /// been handed away.
    pub fn cancel_send(&mut self, send_id: &String) -> (r: Result<bool, TransferError>)
        requires
            old(self).wf(),
        ensures
            final(self).wf(),
            final(self).downloads@ == old(self).downloads@,
            final(self).connections@ == old(self).connections@,
            final(self).offers@ == old(self).offers@,
            !old(self).sends@.dom().contains(send_id@) ==> (r matches Err(e) && e is NotFound)
                && final(self).sends@ == old(self).sends@,
            old(self).sends@.dom().contains(send_id@) ==> final(self).sends@ == old(self).sends@.remove(send_id@) && (r is Ok <==> old(self).sends@[send_id@].cancel is Some),
            (r matches Err(e) ==> e is NotFound),
    {
        let entry = self.sends.take(send_id)?;
        match entry.cancel {
            Some(trigger) => Ok(fire_trigger(trigger)),
            None => Err(TransferError::NotFound),
        }
    }

    /// Cancels a live download: the entry is removed and its trigger is
    /// consumed. No event follows from this path — the caller that asked
    /// for the cancellation already knows.
    pub fn cancel_download(&mut self, download_id: &String) -> (r: Result<bool, TransferError>)
        requires
            old(self).wf(),
        ensures
            final(self).wf(),
            final(self).sends@ == old(self).sends@,
            final(self).connections@ == old(self).connections@,
            final(self).offers@ == old(self).offers@,
            !old(self).downloads@.dom().contains(download_id@) ==> (r matches Err(e)
                && e is NotFound) && final(self).downloads@ == old(self).downloads@,
            old(self).downloads@.dom().contains(download_id@) ==> r is Ok && final(self).downloads@ == old(self).downloads@.remove(download_id@),
    {
        let entry = self.downloads.take(download_id)?;
        Ok(fire_trigger(entry.cancel))
    }

    /// Cancels a live connection attempt: the entry is removed and its
    /// trigger is consumed.
    pub fn cancel_connection(&mut self, connection_id: &String) -> (r: Result<bool, TransferError>)
        requires
            old(self).wf(),
        ensures
            final(self).wf(),
            final(self).sends@ == old(self).sends@,
            final(self).downloads@ == old(self).downloads@,
            final(self).offers@ == old(self).offers@,
            !old(self).connections@.dom().contains(connection_id@) ==> (r matches Err(e)
                && e is NotFound) && final(self).connections@ == old(self).connections@,
            old(self).connections@.dom().contains(connection_id@) ==> r is Ok && final(self).connections@ == old(self).connections@.remove(connection_id@),
    {
        let entry = self.connections.take(connection_id)?;
        Ok(fire_trigger(entry.cancel))
    }
}

proof fn lemma_map_of_len<V>(items: Seq<(String, V)>)
    requires
        unique_ids(items),
    ensures
        map_of(items).dom().finite(),
        map_of(items).dom().len() == items.len(),
    decreases items.len(),
{
    if items.len() > 0 {
        assert(forall|j: int| 0 <= j < items.len() - 1 ==> items.drop_last()[j] == items[j]);
        lemma_map_of_len(items.drop_last());
        lemma_map_of_dom(items.drop_last());
        assert(!map_of(items.drop_last()).dom().contains(items.last().0@));
        assert(map_of(items).dom() =~= map_of(items.drop_last()).dom().insert(items.last().0@));
    }
}

} // verus!
