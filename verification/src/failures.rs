//! Rows recording the content transfers that failed during an audit.

use vstd::prelude::*;

verus! {

/// A transfer failure to be stored: the audit, the node that sent the content
/// (by its stored ENR's id), and how the transfer failed.
#[derive(Debug)]
pub struct NewTransferFailure<F> {
    pub audit_id: i32,
    pub sender_node_enr_id: i32,
    pub failure_type: F,
}

impl<F: Copy> NewTransferFailure<F> {
    /// The row for one failure.
    pub fn new(audit_id: i32, sender_node_enr_id: i32, failure_type: F) -> (row: Self)
        ensures
            row.audit_id == audit_id,
            row.sender_node_enr_id == sender_node_enr_id,
            row.failure_type == failure_type,
    {
        NewTransferFailure { audit_id, sender_node_enr_id, failure_type }
    }
}

/// The rows to store for an audit, given for each failure the id of the
/// sender's stored ENR (`None` where the sender is unknown or its ENR could not
/// be stored) and the failure's type: one row per failure whose sender is
/// known, in order.
pub open spec fn spec_failure_rows<F>(audit_id: i32, resolved: Seq<(Option<i32>, F)>) -> Seq<
    NewTransferFailure<F>,
>
    decreases resolved.len(),
{
    if resolved.len() == 0 {
        Seq::empty()
    } else {
        let earlier = spec_failure_rows(audit_id, resolved.drop_last());
        match resolved.last().0 {
            Some(id) => earlier.push(
                NewTransferFailure { audit_id, sender_node_enr_id: id, failure_type: resolved.last().1 },
            ),
            None => earlier,
        }
    }
}

/// The number of failures whose sender is known.
pub open spec fn known_senders<F>(resolved: Seq<(Option<i32>, F)>) -> nat
    decreases resolved.len(),
{
    if resolved.len() == 0 {
        0
    } else {
        known_senders(resolved.drop_last()) + if resolved.last().0 is Some {
            1nat
        } else {
            0nat
        }
    }
}

/// Every row belongs to the audit, there is one row per failure with a known
/// sender, and nothing is to be stored exactly when no sender is known.
pub proof fn lemma_failure_rows<F>(audit_id: i32, resolved: Seq<(Option<i32>, F)>)
    ensures
        spec_failure_rows(audit_id, resolved).len() == known_senders(resolved),
        forall|i: int|
            0 <= i < spec_failure_rows(audit_id, resolved).len() ==> (#[trigger] spec_failure_rows(
                audit_id,
                resolved,
            )[i]).audit_id == audit_id,
    decreases resolved.len(),
{
    if resolved.len() > 0 {
        lemma_failure_rows(audit_id, resolved.drop_last());
    }
}

/// The rows to store for the failures of an audit.
pub fn failure_rows<F: Copy>(audit_id: i32, resolved: &Vec<(Option<i32>, F)>) -> (rows: Vec<
    NewTransferFailure<F>,
>)
    ensures
        rows@ == spec_failure_rows(audit_id, resolved@),
{
    let mut rows: Vec<NewTransferFailure<F>> = Vec::new();
    let mut i: usize = 0;
    while i < resolved.len()
        invariant
            i <= resolved@.len(),
            rows@ == spec_failure_rows(audit_id, resolved@.take(i as int)),
        decreases resolved@.len() - i,
    {
        assert(resolved@.take(i + 1).drop_last() =~= resolved@.take(i as int));
        let (sender, failure_type) = resolved[i];
        match sender {
            Some(id) => {
                rows.push(NewTransferFailure::new(audit_id, id, failure_type));
            },
            None => {},
        }
        i = i + 1;
    }
    assert(resolved@.take(resolved@.len() as int) =~= resolved@);
    rows
}

/// The ENR (as text) that trace metadata records for a node: that of the last
/// entry for the node, as when the entries are collected into a map, or `None`
/// where the node has no entry.
///
/// The metadata is a list of (node id, ENR) entries rather than a `HashMap`:
/// vstd's `HashMap` specification proves nothing of lookups for a key that is
/// not a plain integer, such as a 32-byte node id.
pub open spec fn metadata_enr(metadata: Seq<([u8; 32], String)>, node_id: Seq<u8>) -> Option<Seq<char>>
    decreases metadata.len(),
{
    if metadata.len() == 0 {
        None
    } else if metadata.last().0@ == node_id {
        Some(metadata.last().1@)
    } else {
        metadata_enr(metadata.drop_last(), node_id)
    }
}

/// Whether two node ids are the same.
fn same_node(a: &[u8; 32], b: &[u8; 32]) -> (same: bool)
    ensures
        same == (a@ == b@),
{
    let mut i: usize = 0;
    while i < 32
        invariant
            i <= 32,
            a@.len() == 32,
            b@.len() == 32,
            forall|j: int| 0 <= j < i ==> a@[j] == b@[j],
        decreases 32 - i,
    {
        if a[i] != b[i] {
            return false;
        }
        i = i + 1;
    }
    assert(a@ =~= b@);
    true
}

/// The ENR recorded in the trace metadata for one node.
fn find_sender_enr(metadata: &Vec<([u8; 32], String)>, node_id: &[u8; 32]) -> (enr: Option<String>)
    ensures
        enr matches Some(e) ==> metadata_enr(metadata@, node_id@) == Some(e@),
        enr is None ==> metadata_enr(metadata@, node_id@) is None,
{
    let mut i: usize = metadata.len();
    assert(metadata@.take(metadata@.len() as int) =~= metadata@);
    while i > 0
        invariant
            i <= metadata@.len(),
            metadata_enr(metadata@, node_id@) == metadata_enr(metadata@.take(i as int), node_id@),
        decreases i,
    {
        let ghost prefix = metadata@.take(i as int);
        assert(prefix.drop_last() =~= metadata@.take(i - 1));
        if same_node(&metadata[i - 1].0, node_id) {
            return Some(metadata[i - 1].1.clone());
        }
        i = i - 1;
    }
    None
}

/// For each failure of a trace (the sending node's id and the failure's type),
/// the ENR the trace metadata records for the sender, or `None` where the
/// sender is missing from the metadata and the failure is skipped.
pub fn sender_enrs<F: Copy>(
    failures: &Vec<([u8; 32], F)>,
    metadata: &Vec<([u8; 32], String)>,
) -> (senders: Vec<(Option<String>, F)>)
    ensures
        senders@.len() == failures@.len(),
        forall|i: int|
            0 <= i < failures@.len() ==> {
                &&& (#[trigger] senders@[i]).1 == failures@[i].1
                &&& senders@[i].0 is None <==> metadata_enr(metadata@, failures@[i].0@) is None
                &&& senders@[i].0 matches Some(e) ==> metadata_enr(
                    metadata@,
                    failures@[i].0@,
                ) == Some(e@)
            },
{
    let mut senders: Vec<(Option<String>, F)> = Vec::new();
    let mut i: usize = 0;
    while i < failures.len()
        invariant
            i <= failures@.len(),
            senders@.len() == i,
            forall|j: int|
                0 <= j < i ==> {
                    &&& (#[trigger] senders@[j]).1 == failures@[j].1
                    &&& senders@[j].0 is None <==> metadata_enr(metadata@, failures@[j].0@) is None
                    &&& senders@[j].0 matches Some(e) ==> metadata_enr(
                        metadata@,
                        failures@[j].0@,
                    ) == Some(e@)
                },
        decreases failures@.len() - i,
    {
        let enr = find_sender_enr(metadata, &failures[i].0);
        senders.push((enr, failures[i].1));
        i = i + 1;
    }
    senders
}

/// The rows are the failures with a known sender, in order, each with the
/// audit id, its own sender and its own type: no rows for no failures, a
/// failure with a known sender adds its own row at the end, and one with an
/// unknown sender adds nothing.
pub proof fn lemma_failure_rows_extend<F>(
    audit_id: i32,
    resolved: Seq<(Option<i32>, F)>,
    sender: i32,
    failure_type: F,
)
    ensures
        spec_failure_rows(audit_id, Seq::<(Option<i32>, F)>::empty()) == Seq::<
            NewTransferFailure<F>,
        >::empty(),
        spec_failure_rows(audit_id, resolved.push((Some(sender), failure_type))) == spec_failure_rows(
            audit_id,
            resolved,
        ).push(NewTransferFailure { audit_id, sender_node_enr_id: sender, failure_type }),
        spec_failure_rows(audit_id, resolved.push((None, failure_type))) == spec_failure_rows(
            audit_id,
            resolved,
        ),
{
    assert(resolved.push((Some(sender), failure_type)).drop_last() =~= resolved);
    assert(resolved.push((None::<i32>, failure_type)).drop_last() =~= resolved);
}

/// A node with an entry in the metadata has an ENR there, that of its last
/// entry; a node without an entry has none.
pub proof fn lemma_metadata_enr_found(metadata: Seq<([u8; 32], String)>, node_id: Seq<u8>, i: int)
    requires
        0 <= i < metadata.len(),
        metadata[i].0@ == node_id,
        forall|k: int| i < k < metadata.len() ==> metadata[k].0@ != node_id,
    ensures
        metadata_enr(metadata, node_id) == Some(metadata[i].1@),
    decreases metadata.len(),
{
    if i < metadata.len() - 1 {
        let prefix = metadata.drop_last();
        assert forall|k: int| i < k < prefix.len() implies prefix[k].0@ != node_id by {
            assert(prefix[k] == metadata[k]);
        }
        assert(prefix[i] == metadata[i]);
        lemma_metadata_enr_found(prefix, node_id, i);
    }
}

/// A node has an ENR in the metadata exactly when some entry is for it.
pub proof fn lemma_metadata_enr_some_iff(metadata: Seq<([u8; 32], String)>, node_id: Seq<u8>)
    ensures
        (metadata_enr(metadata, node_id) is Some) <==> exists|i: int|
            0 <= i < metadata.len() && #[trigger] metadata[i].0@ == node_id,
    decreases metadata.len(),
{
    if metadata.len() > 0 {
        let prefix = metadata.drop_last();
        lemma_metadata_enr_some_iff(prefix, node_id);
        if metadata.last().0@ != node_id {
            if exists|i: int| 0 <= i < metadata.len() && #[trigger] metadata[i].0@ == node_id {
                let i = choose|i: int| 0 <= i < metadata.len() && #[trigger] metadata[i].0@ == node_id;
                assert(prefix[i] == metadata[i]);
            }
            if exists|i: int| 0 <= i < prefix.len() && #[trigger] prefix[i].0@ == node_id {
                let i = choose|i: int| 0 <= i < prefix.len() && #[trigger] prefix[i].0@ == node_id;
                assert(prefix[i] == metadata[i]);
            }
        } else {
            assert(metadata[metadata.len() - 1].0@ == node_id);
        }
    }
}

} // verus!
