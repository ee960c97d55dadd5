//! The persisted unit and the shapes it takes before the store has keyed it.

use vstd::prelude::*;

verus! {

/// What a record holds besides its primary key, as mathematical values.
pub struct PayloadView {
    pub uuid: u128,
    pub tag: Seq<char>,
    pub text: Seq<char>,
    pub order: u32,
}

/// A persisted record as mathematical values.
pub struct RecordView {
    pub id: u32,
    pub uuid: u128,
    pub tag: Seq<char>,
    pub text: Seq<char>,
    pub order: u32,
}

/// The records of a list as mathematical values, in the list's order.
pub open spec fn records_view(records: Seq<DomRecord>) -> Seq<RecordView> {
    Seq::new(records.len(), |i: int| records[i]@)
}

/// The primary keys of a list of records, in the list's order.
pub open spec fn ids_of(records: Seq<RecordView>) -> Seq<u32> {
    Seq::new(records.len(), |i: int| records[i].id)
}

impl PayloadView {
    /// The record that the payload becomes under the primary key `id`.
    pub open spec fn with_id(self, id: u32) -> RecordView {
        RecordView { id, uuid: self.uuid, tag: self.tag, text: self.text, order: self.order }
    }
}

impl RecordView {
    /// The record without its primary key.
    pub open spec fn payload(self) -> PayloadView {
        PayloadView { uuid: self.uuid, tag: self.tag, text: self.text, order: self.order }
    }
}

/// A record as the store holds it: the payload under the primary key that the
/// store assigned.
#[derive(Debug, PartialEq, Eq)]
pub struct DomRecord {
    pub id: u32,
    pub uuid: u128,
    pub tag: String,
    pub text: String,
    pub order: u32,
}

/// A payload that borrows its strings, for a caller that builds a record from
/// a buffer it does not want to give away.
#[derive(Debug, PartialEq, Eq)]
pub struct JsonDom<'a> {
    pub uuid: u128,
    pub tag: &'a str,
    pub text: &'a str,
    pub order: u32,
}

/// A payload that owns its strings.
#[derive(Debug, PartialEq, Eq)]
pub struct JsonFrontDom {
    pub uuid: u128,
    pub tag: String,
    pub text: String,
    pub order: u32,
}

impl View for DomRecord {
    type V = RecordView;

    open spec fn view(&self) -> RecordView {
        RecordView {
            id: self.id,
            uuid: self.uuid,
            tag: self.tag@,
            text: self.text@,
            order: self.order,
        }
    }
}

impl<'a> View for JsonDom<'a> {
    type V = PayloadView;

    open spec fn view(&self) -> PayloadView {
        PayloadView { uuid: self.uuid, tag: self.tag@, text: self.text@, order: self.order }
    }
}

impl View for JsonFrontDom {
    type V = PayloadView;

    open spec fn view(&self) -> PayloadView {
        PayloadView { uuid: self.uuid, tag: self.tag@, text: self.text@, order: self.order }
    }
}

impl Default for DomRecord {
    /// The record with the primary key 0, the identity 0, an empty tag, an
    /// empty text and the order hint 0.
    fn default() -> (record: DomRecord)
        ensures
            record@ == (RecordView {
                id: 0,
                uuid: 0,
                tag: Seq::<char>::empty(),
                text: Seq::<char>::empty(),
                order: 0,
            }),
    {
        DomRecord { id: 0, uuid: 0, tag: String::new(), text: String::new(), order: 0 }
    }
}

impl Default for JsonFrontDom {
    /// The payload with the identity 0, an empty tag, an empty text and the
    /// order hint 0.
    fn default() -> (front: JsonFrontDom)
        ensures
            front@ == (PayloadView {
                uuid: 0,
                tag: Seq::<char>::empty(),
                text: Seq::<char>::empty(),
                order: 0,
            }),
    {
        JsonFrontDom { uuid: 0, tag: String::new(), text: String::new(), order: 0 }
    }
}

impl<'a> Default for JsonDom<'a> {
    /// The payload with the identity 0, an empty tag, an empty text and the
    /// order hint 0.
    fn default() -> (dom: JsonDom<'a>)
        ensures
            dom@ == (PayloadView {
                uuid: 0,
                tag: Seq::<char>::empty(),
                text: Seq::<char>::empty(),
                order: 0,
            }),
    {
        proof {
            reveal_strlit("");
        }
        let dom = JsonDom { uuid: 0, tag: "", text: "", order: 0 };
        assert(dom@.tag =~= Seq::<char>::empty());
        dom
    }
}

impl<'a> Clone for JsonDom<'a> {
    fn clone(&self) -> (copy: Self)
        ensures
            copy@ == self@,
    {
        JsonDom { uuid: self.uuid, tag: self.tag, text: self.text, order: self.order }
    }
}

impl Clone for DomRecord {
    fn clone(&self) -> (copy: Self)
        ensures
            copy@ == self@,
    {
        DomRecord {
            id: self.id,
            uuid: self.uuid,
            tag: self.tag.clone(),
            text: self.text.clone(),
            order: self.order,
        }
    }
}

impl Clone for JsonFrontDom {
    fn clone(&self) -> (copy: Self)
        ensures
            copy@ == self@,
    {
        JsonFrontDom {
            uuid: self.uuid,
            tag: self.tag.clone(),
            text: self.text.clone(),
            order: self.order,
        }
    }
}

impl DomRecord {
    /// The record's payload, borrowed from it.
    pub fn payload(&self) -> (dom: JsonDom<'_>)
        ensures
            dom@ == self@.payload(),
    {
        JsonDom { uuid: self.uuid, tag: self.tag.as_str(), text: self.text.as_str(), order: self.order }
    }
}

impl<'a> JsonDom<'a> {
    /// Copies the borrowed strings into a payload that owns them.
    pub fn to_front(&self) -> (front: JsonFrontDom)
        ensures
            front@ == self@,
    {
        JsonFrontDom {
            uuid: self.uuid,
            tag: self.tag.to_owned(),
            text: self.text.to_owned(),
            order: self.order,
        }
    }
}

impl JsonFrontDom {
    /// The payload with its strings borrowed.
    pub fn as_dom(&self) -> (dom: JsonDom<'_>)
        ensures
            dom@ == self@,
    {
        JsonDom { uuid: self.uuid, tag: self.tag.as_str(), text: self.text.as_str(), order: self.order }
    }

    /// The record that this payload becomes once the store has assigned `id`.
    /// The strings move; nothing is copied.
    pub fn into_record(self, id: u32) -> (record: DomRecord)
        ensures
            record@ == self@.with_id(id),
    {
        DomRecord { id, uuid: self.uuid, tag: self.tag, text: self.text, order: self.order }
    }
}

} // verus!
