//! The sync bridge: the edit lifecycle, and the rule that the mirror changes
//! only after the store has confirmed the change.
//!
//! The bridge does no input or output. Each step takes what happened (a
//! signal from the user, the outcome of a store operation) and returns what
//! is to be done next (a record to insert, a change to announce).

use crate::codec::{encode, encoded, reads_back_as, FieldView, WireRecord};
use crate::engine::{
    command_after, inserted_of, CommandView, EventView, OutcomeView, ProgressView,
    TransactionView,
};
use crate::identity::{fresh_identity, is_random_identity};
use crate::mirror::{
    holds_id, ids_distinct, lemma_append_keeps_ids_distinct, next_order_of, AppState, Change,
    MirrorError,
};
use crate::record::{ids_of, records_view, DomRecord, JsonFrontDom, PayloadView, RecordView};
use crate::store::StoreError;
use vstd::prelude::*;

verus! {

/// A staged value as mathematical values.
pub struct StagedView {
    pub tag: Seq<char>,
    pub text: Seq<char>,
}

/// The phase of the edit lifecycle as mathematical values.
pub enum PhaseView {
    Idle,
    Editing(Option<StagedView>),
    Committing(PayloadView),
}

/// The bridge as mathematical values: the mirror's records in order, and the
/// phase.
pub struct BridgeView {
    pub mirror: Seq<RecordView>,
    pub phase: PhaseView,
}

/// The value that an edit was confirmed with.
#[derive(Debug, PartialEq, Eq)]
pub struct StagedEdit {
    pub tag: String,
    pub text: String,
}

/// The phase of the edit lifecycle.
#[derive(Debug, PartialEq, Eq)]
pub enum EditPhase {
    /// No edit is under way.
    Idle,
    /// An edit is under way. It holds the staged value of the last attempt,
    /// if one failed.
    Editing(Option<StagedEdit>),
    /// The store is inserting this payload, and has not answered yet.
    Committing(JsonFrontDom),
}

/// Why a step of the edit lifecycle failed.
#[derive(Clone, Copy, Debug, PartialEq, Eq, Structural)]
pub enum EditError {
    /// An edit was confirmed while none was under way.
    NotEditing,
    /// An insert was reported while none was awaited.
    NotCommitting,
    /// The largest order hint in the mirror cannot be exceeded.
    OrderExhausted,
    /// The store failed.
    Store(StoreError),
    /// The mirror refused the record.
    Mirror(MirrorError),
}

impl View for StagedEdit {
    type V = StagedView;

    open spec fn view(&self) -> StagedView {
        StagedView { tag: self.tag@, text: self.text@ }
    }
}

impl View for EditPhase {
    type V = PhaseView;

    open spec fn view(&self) -> PhaseView {
        match self {
            EditPhase::Idle => PhaseView::Idle,
            EditPhase::Editing(None) => PhaseView::Editing(None),
            EditPhase::Editing(Some(staged)) => PhaseView::Editing(Some(staged@)),
            EditPhase::Committing(pending) => PhaseView::Committing(pending@),
        }
    }
}

/// The staged value of a payload: its tag and its text.
pub open spec fn staged_of(payload: PayloadView) -> StagedView {
    StagedView { tag: payload.tag, text: payload.text }
}

/// The order hint that a confirmed edit gets: the one supplied, else the next
/// by the mirror's content.
pub open spec fn planned_order(mirror: Seq<RecordView>, order: Option<u32>) -> Option<u32> {
    match order {
        Some(o) => Some(o),
        None => next_order_of(mirror),
    }
}

/// The bridge after the signal that an edit starts.
pub open spec fn after_begin(pre: BridgeView) -> BridgeView {
    match pre.phase {
        PhaseView::Idle => BridgeView { mirror: pre.mirror, phase: PhaseView::Editing(None) },
        _ => pre,
    }
}

/// The bridge after the signal that the edit under way is given up.
pub open spec fn after_cancel(pre: BridgeView) -> BridgeView {
    match pre.phase {
        PhaseView::Editing(_) => BridgeView { mirror: pre.mirror, phase: PhaseView::Idle },
        _ => pre,
    }
}

/// The payload that a confirmed edit hands to the store.
pub open spec fn confirmed_payload(
    pre: BridgeView,
    identity: u128,
    tag: Seq<char>,
    text: Seq<char>,
    order: Option<u32>,
) -> Option<PayloadView> {
    match (pre.phase, planned_order(pre.mirror, order)) {
        (PhaseView::Editing(_), Some(o)) => Some(PayloadView { uuid: identity, tag, text, order: o }),
        _ => None,
    }
}

/// The bridge after an edit was confirmed with the staged value (`tag`,
/// `text`), where `identity` is the identity drawn for the record.
pub open spec fn after_confirm(
    pre: BridgeView,
    identity: u128,
    tag: Seq<char>,
    text: Seq<char>,
    order: Option<u32>,
) -> BridgeView {
    match pre.phase {
        PhaseView::Editing(_) => match confirmed_payload(pre, identity, tag, text, order) {
            Some(payload) => BridgeView { mirror: pre.mirror, phase: PhaseView::Committing(payload) },
            None => BridgeView {
                mirror: pre.mirror,
                phase: PhaseView::Editing(Some(StagedView { tag, text })),
            },
        },
        _ => pre,
    }
}

/// What confirming an edit returns: the stored shape of the record to insert,
/// or why there is none.
pub open spec fn confirm_outcome(
    pre: BridgeView,
    identity: u128,
    tag: Seq<char>,
    text: Seq<char>,
    order: Option<u32>,
) -> Result<Seq<FieldView>, EditError> {
    match pre.phase {
        PhaseView::Editing(_) => match confirmed_payload(pre, identity, tag, text, order) {
            Some(payload) => Ok(encoded(payload)),
            None => Err(EditError::OrderExhausted),
        },
        _ => Err(EditError::NotEditing),
    }
}

/// What confirming an edit returned, as mathematical values.
pub open spec fn confirmed_view(r: Result<WireRecord, EditError>) -> Result<
    Seq<FieldView>,
    EditError,
> {
    match r {
        Ok(wire) => Ok(wire@),
        Err(e) => Err(e),
    }
}

/// The bridge after the store has answered an insert with `outcome`: the
/// primary key it assigned, or its failure.
pub open spec fn after_settle(pre: BridgeView, outcome: Result<u32, StoreError>) -> BridgeView {
    match pre.phase {
        PhaseView::Committing(payload) => match outcome {
            Ok(id) => if holds_id(pre.mirror, id) {
                BridgeView { mirror: pre.mirror, phase: PhaseView::Editing(Some(staged_of(payload))) }
            } else {
                BridgeView { mirror: pre.mirror.push(payload.with_id(id)), phase: PhaseView::Idle }
            },
            Err(_) => BridgeView {
                mirror: pre.mirror,
                phase: PhaseView::Editing(Some(staged_of(payload))),
            },
        },
        _ => pre,
    }
}

/// What the bridge returns once the store has answered an insert.
pub open spec fn settle_outcome(pre: BridgeView, outcome: Result<u32, StoreError>) -> Result<
    Change,
    EditError,
> {
    match pre.phase {
        PhaseView::Committing(_) => match outcome {
            Ok(id) => if holds_id(pre.mirror, id) {
                Err(EditError::Mirror(MirrorError::DuplicateId(id)))
            } else {
                Ok(Change::Structure)
            },
            Err(e) => Err(EditError::Store(e)),
        },
        _ => Err(EditError::NotCommitting),
    }
}

/// A confirmed edit that fails leaves the mirror as it was and the bridge in
/// the editing phase with the staged value kept, whether it failed before the
/// store was asked, the store failed, or the mirror refused the primary key
/// that the store assigned. Every failure of the store is such a failure.
pub proof fn lemma_failed_edit_keeps_mirror(
    before: BridgeView,
    identity: u128,
    tag: Seq<char>,
    text: Seq<char>,
    order: Option<u32>,
    outcome: Result<u32, StoreError>,
)
    requires
        before.phase is Editing,
    ensures
        ({
            let confirmed = after_confirm(before, identity, tag, text, order);
            let after = after_settle(confirmed, outcome);
            &&& confirmed.mirror == before.mirror
            &&& outcome is Err ==> settle_outcome(confirmed, outcome) is Err
            &&& confirm_outcome(before, identity, tag, text, order) is Err || settle_outcome(
                confirmed,
                outcome,
            ) is Err ==> after.mirror == before.mirror && after.phase == PhaseView::Editing(
                Some(StagedView { tag, text }),
            )
        }),
{
}

/// Whatever the phase, a failure of the store changes nothing in the mirror,
/// and a success adds at most the one record that was confirmed.
pub proof fn lemma_mirror_follows_store(pre: BridgeView, outcome: Result<u32, StoreError>)
    ensures
        outcome is Err ==> after_settle(pre, outcome).mirror == pre.mirror,
        after_settle(pre, outcome).mirror != pre.mirror ==> pre.phase is Committing
            && settle_outcome(pre, outcome) == Ok::<Change, EditError>(Change::Structure),
{
}

/// The mirror gains a record only once the store has confirmed the commit of
/// the insert: where the result that a transaction ends with changes the
/// mirror, the transaction was an insert awaiting its commit, the store has
/// just confirmed it, and the record is the one that was confirmed, under the
/// primary key that the store assigned.
pub proof fn lemma_mirror_changes_only_after_commit(
    bridge: BridgeView,
    transaction: TransactionView,
    event: EventView,
)
    ensures
        command_after(transaction, event) matches CommandView::Finish(result) ==> ({
            let after = after_settle(bridge, inserted_of(result));
            after.mirror != bridge.mirror ==> {
                &&& event is Done
                &&& transaction.progress matches ProgressView::Committing(
                    OutcomeView::Inserted(id),
                )
                &&& bridge.phase matches PhaseView::Committing(payload)
                &&& after.mirror == bridge.mirror.push(payload.with_id(id))
                &&& after.phase is Idle
            }
        }),
{
}

/// No answer of the store makes two entries of the mirror share a primary
/// key.
pub proof fn lemma_settle_keeps_ids_distinct(pre: BridgeView, outcome: Result<u32, StoreError>)
    requires
        ids_distinct(pre.mirror),
    ensures
        ids_distinct(after_settle(pre, outcome).mirror),
{
    if let (PhaseView::Committing(payload), Ok(id)) = (pre.phase, outcome) {
        if !holds_id(pre.mirror, id) {
            lemma_append_keeps_ids_distinct(pre.mirror, payload.with_id(id));
        }
    }
}

/// The sync bridge: the mirror, and the phase of the edit lifecycle.
#[derive(Debug)]
pub struct SyncBridge {
    mirror: AppState,
    phase: EditPhase,
}

impl View for SyncBridge {
    type V = BridgeView;

    closed spec fn view(&self) -> BridgeView {
        BridgeView { mirror: self.mirror@, phase: self.phase@ }
    }
}

impl SyncBridge {
    /// A bridge over `mirror`, with no edit under way.
    pub fn new(mirror: AppState) -> (bridge: SyncBridge)
        ensures
            bridge@ == (BridgeView { mirror: mirror@, phase: PhaseView::Idle }),
    {
        SyncBridge { mirror, phase: EditPhase::Idle }
    }

    /// The mirror.
    pub fn mirror(&self) -> (mirror: &AppState)
        ensures
            mirror@ == self@.mirror,
    {
        &self.mirror
    }

    /// The phase of the edit lifecycle.
    pub fn phase(&self) -> (phase: &EditPhase)
        ensures
            phase@ == self@.phase,
    {
        &self.phase
    }

    /// The staged value that a failed attempt left behind.
    pub fn staged(&self) -> (staged: Option<&StagedEdit>)
        ensures
            match staged {
                Some(value) => self@.phase == PhaseView::Editing(Some(value@)),
                None => !(self@.phase matches PhaseView::Editing(Some(_))),
            },
    {
        match &self.phase {
            EditPhase::Editing(Some(value)) => Some(value),
            _ => None,
        }
    }

    /// The signal that an edit starts. From idle the bridge starts editing;
    /// in any other phase nothing changes. Returns whether an edit is now
    /// under way and unconfirmed.
    pub fn begin_edit(&mut self) -> (editing: bool)
        ensures
            final(self)@ == after_begin(old(self)@),
            editing == (final(self)@.phase is Editing),
    {
        let mut phase = EditPhase::Idle;
        core::mem::swap(&mut self.phase, &mut phase);
        match phase {
            EditPhase::Idle => {
                self.phase = EditPhase::Editing(None);
                true
            },
            EditPhase::Editing(staged) => {
                self.phase = EditPhase::Editing(staged);
                true
            },
            EditPhase::Committing(pending) => {
                self.phase = EditPhase::Committing(pending);
                false
            },
        }
    }

    /// The signal that the edit under way is given up. From editing the
    /// bridge goes idle and drops the staged value; in any other phase
    /// nothing changes. Returns whether an edit was given up.
    pub fn cancel_edit(&mut self) -> (cancelled: bool)
        ensures
            final(self)@ == after_cancel(old(self)@),
            cancelled == (old(self)@.phase is Editing),
    {
        let mut phase = EditPhase::Idle;
        core::mem::swap(&mut self.phase, &mut phase);
        match phase {
            EditPhase::Editing(_) => true,
            EditPhase::Idle => false,
            EditPhase::Committing(pending) => {
                self.phase = EditPhase::Committing(pending);
                false
            },
        }
    }

    /// Confirms the edit under way with the staged value (`tag`, `text`),
    /// for a record whose identity is `identity`.
    ///
    /// On success the bridge awaits the store, and the result is the stored
    /// shape to insert: whatever primary key the store assigns, the stored
    /// row will read back as the record that the mirror is to gain.
    pub fn confirm_edit_with(
        &mut self,
        identity: u128,
        tag: String,
        text: String,
        order: Option<u32>,
    ) -> (r: Result<WireRecord, EditError>)
        ensures
            final(self)@ == after_confirm(old(self)@, identity, tag@, text@, order),
            confirmed_view(r) == confirm_outcome(old(self)@, identity, tag@, text@, order),
            r matches Ok(wire) ==> reads_back_as(
                wire@,
                confirmed_payload(old(self)@, identity, tag@, text@, order)->0,
            ),
    {
        let mut phase = EditPhase::Idle;
        core::mem::swap(&mut self.phase, &mut phase);
        match phase {
            EditPhase::Editing(_) => {
                let planned: Option<u32> = match order {
                    Some(o) => Some(o),
                    None => self.mirror.next_order(),
                };
                match planned {
                    Some(o) => {
                        let pending = JsonFrontDom { uuid: identity, tag, text, order: o };
                        let wire = encode(&pending.as_dom());
                        self.phase = EditPhase::Committing(pending);
                        Ok(wire)
                    },
                    None => {
                        self.phase = EditPhase::Editing(Some(StagedEdit { tag, text }));
                        Err(EditError::OrderExhausted)
                    },
                }
            },
            EditPhase::Idle => {
                self.phase = EditPhase::Idle;
                Err(EditError::NotEditing)
            },
            EditPhase::Committing(pending) => {
                self.phase = EditPhase::Committing(pending);
                Err(EditError::NotEditing)
            },
        }
    }

    /// Confirms the edit under way with the staged value (`tag`, `text`),
    /// for a record with a fresh identity.
    pub fn confirm_edit(&mut self, tag: String, text: String, order: Option<u32>) -> (r: Result<
        WireRecord,
        EditError,
    >)
        ensures
            exists|identity: u128|
                {
                    &&& is_random_identity(identity)
                    &&& final(self)@ == #[trigger] after_confirm(
                        old(self)@,
                        identity,
                        tag@,
                        text@,
                        order,
                    )
                    &&& confirmed_view(r) == confirm_outcome(
                        old(self)@,
                        identity,
                        tag@,
                        text@,
                        order,
                    )
                    &&& r matches Ok(wire) ==> reads_back_as(
                        wire@,
                        confirmed_payload(old(self)@, identity, tag@, text@, order)->0,
                    )
                },
    {
        let identity: u128 = fresh_identity();
        self.confirm_edit_with(identity, tag, text, order)
    }

    /// Takes the store's answer to the insert that the bridge awaits.
    ///
    /// On success the mirror gains the confirmed record under the primary
    /// key that the store assigned, and the bridge is idle again. On any
    /// failure the mirror stays as it was and the bridge goes back to
    /// editing, with the staged value kept.
    pub fn insert_settled(&mut self, outcome: Result<u32, StoreError>) -> (r: Result<
        Change,
        EditError,
    >)
        ensures
            final(self)@ == after_settle(old(self)@, outcome),
            r == settle_outcome(old(self)@, outcome),
    {
        let mut phase = EditPhase::Idle;
        core::mem::swap(&mut self.phase, &mut phase);
        match phase {
            EditPhase::Committing(pending) => {
                match outcome {
                    Ok(id) => {
                        if self.mirror.contains_id(id) {
                            self.phase = EditPhase::Editing(
                                Some(StagedEdit { tag: pending.tag, text: pending.text }),
                            );
                            Err(EditError::Mirror(MirrorError::DuplicateId(id)))
                        } else {
                            let appended = self.mirror.append(pending.into_record(id));
                            self.phase = EditPhase::Idle;
                            match appended {
                                Ok(change) => Ok(change),
                                Err(e) => Err(EditError::Mirror(e)),
                            }
                        }
                    },
                    Err(e) => {
                        self.phase = EditPhase::Editing(
                            Some(StagedEdit { tag: pending.tag, text: pending.text }),
                        );
                        Err(EditError::Store(e))
                    },
                }
            },
            EditPhase::Idle => {
                self.phase = EditPhase::Idle;
                Err(EditError::NotCommitting)
            },
            EditPhase::Editing(staged) => {
                self.phase = EditPhase::Editing(staged);
                Err(EditError::NotCommitting)
            },
        }
    }

    /// Takes the store's answer to a scan of the collection.
    ///
    /// Where the scan succeeded, the mirror's content is replaced by its
    /// records, in the order of the scan. Where it failed, the mirror stays
    /// as it was. The phase never changes.
    pub fn fetch_settled(&mut self, outcome: Result<Vec<DomRecord>, StoreError>) -> (r: Result<
        Change,
        StoreError,
    >)
        ensures
            final(self)@.phase == old(self)@.phase,
            match outcome {
                Ok(records) => {
                    &&& r == Ok::<Change, StoreError>(Change::Structure)
                    &&& final(self)@.mirror == records_view(records@)
                    &&& ids_of(final(self)@.mirror) == ids_of(records_view(records@))
                },
                Err(e) => {
                    &&& r == Err::<Change, StoreError>(e)
                    &&& final(self)@.mirror == old(self)@.mirror
                },
            },
    {
        match outcome {
            Ok(records) => Ok(self.mirror.load(records)),
            Err(e) => Err(e),
        }
    }

    /// Takes the store's answer to clearing the collection: the mirror is
    /// emptied where the store succeeded, and stays as it was where it
    /// failed. The phase never changes.
    pub fn clear_settled(&mut self, outcome: Result<(), StoreError>) -> (r: Result<
        Change,
        StoreError,
    >)
        ensures
            final(self)@.phase == old(self)@.phase,
            match outcome {
                Ok(_) => {
                    &&& r == Ok::<Change, StoreError>(Change::Structure)
                    &&& final(self)@.mirror == Seq::<RecordView>::empty()
                },
                Err(e) => {
                    &&& r == Err::<Change, StoreError>(e)
                    &&& final(self)@.mirror == old(self)@.mirror
                },
            },
    {
        match outcome {
            Ok(_) => Ok(self.mirror.clear()),
            Err(e) => Err(e),
        }
    }
}

} // verus!
