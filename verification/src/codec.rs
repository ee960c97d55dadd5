//! The record codec: between records and the shape in which the store keeps
//! them, a list of named values.

use crate::identity::{
    fresh_identity, identity_text, is_random_identity, parsed_identity, read_identity,
    write_identity,
};
use crate::record::{records_view, DomRecord, JsonDom, JsonFrontDom, PayloadView, RecordView};
use crate::store::{id_name, order_name, tag_name, text_name, uuid_name, StoreError};
use vstd::prelude::*;

verus! {

/// A stored value as a mathematical value.
pub enum ValueView {
    Text(Seq<char>),
    Integer(i64),
    Other,
}

/// A named stored value as mathematical values.
pub struct FieldView {
    pub name: Seq<char>,
    pub value: ValueView,
}

/// One value of a stored record.
#[derive(Debug, PartialEq, Eq)]
pub enum WireValue {
    /// A string.
    Text(String),
    /// A whole number.
    Integer(i64),
    /// Anything else the store can hold: a fraction, a flag, a list, nothing.
    Other,
}

/// One named value of a stored record.
#[derive(Debug, PartialEq, Eq)]
pub struct WireField {
    pub name: String,
    pub value: WireValue,
}

/// A record in the shape the store keeps it: its named values, in the order
/// in which they were written.
#[derive(Debug, PartialEq, Eq)]
pub struct WireRecord {
    pub fields: Vec<WireField>,
}

impl View for WireValue {
    type V = ValueView;

    open spec fn view(&self) -> ValueView {
        match self {
            WireValue::Text(s) => ValueView::Text(s@),
            WireValue::Integer(n) => ValueView::Integer(*n),
            WireValue::Other => ValueView::Other,
        }
    }
}

impl View for WireField {
    type V = FieldView;

    open spec fn view(&self) -> FieldView {
        FieldView { name: self.name@, value: self.value@ }
    }
}

impl View for WireRecord {
    type V = Seq<FieldView>;

    open spec fn view(&self) -> Seq<FieldView> {
        Seq::new(self.fields@.len(), |i: int| self.fields@[i]@)
    }
}

/// The value of the first field called `name`, if there is one.
pub open spec fn lookup(fields: Seq<FieldView>, name: Seq<char>) -> Option<ValueView>
    decreases fields.len(),
{
    if fields.len() == 0 {
        None
    } else if fields[0].name == name {
        Some(fields[0].value)
    } else {
        lookup(fields.drop_first(), name)
    }
}

/// The number that a stored value holds, if it is a whole number that fits
/// the width of a key or an order hint.
pub open spec fn number_in(value: ValueView) -> Option<u32> {
    match value {
        ValueView::Integer(n) => if 0 <= n <= u32::MAX {
            Some(n as u32)
        } else {
            None
        },
        _ => None,
    }
}

/// The number in the field called `name`.
pub open spec fn number_at(fields: Seq<FieldView>, name: Seq<char>) -> Option<u32> {
    match lookup(fields, name) {
        Some(value) => number_in(value),
        None => None,
    }
}

/// The string in the field called `name`.
pub open spec fn text_at(fields: Seq<FieldView>, name: Seq<char>) -> Option<Seq<char>> {
    match lookup(fields, name) {
        Some(ValueView::Text(s)) => Some(s),
        _ => None,
    }
}

/// The identity in the field that holds it: a string that stands for one.
pub open spec fn identity_at(fields: Seq<FieldView>) -> Option<u128> {
    match text_at(fields, uuid_name()) {
        Some(s) => parsed_identity(s),
        None => None,
    }
}

/// The record that a stored shape holds. There is none where a field is
/// lacking or holds a value of the wrong type: a key or an order hint that
/// is no whole number of the right width, an identity that is no such text, a
/// tag or a text that is no string.
pub open spec fn decoded(fields: Seq<FieldView>) -> Option<RecordView> {
    if number_at(fields, id_name()) is Some && identity_at(fields) is Some && text_at(
        fields,
        tag_name(),
    ) is Some && text_at(fields, text_name()) is Some && number_at(fields, order_name()) is Some {
        Some(
            RecordView {
                id: number_at(fields, id_name())->0,
                uuid: identity_at(fields)->0,
                tag: text_at(fields, tag_name())->0,
                text: text_at(fields, text_name())->0,
                order: number_at(fields, order_name())->0,
            },
        )
    } else {
        None
    }
}

/// The stored shape of a payload: identity, tag, text and order hint, in
/// that order, the identity in its textual form.
pub open spec fn encoded(payload: PayloadView) -> Seq<FieldView> {
    seq![
        FieldView { name: uuid_name(), value: ValueView::Text(identity_text(payload.uuid)) },
        FieldView { name: tag_name(), value: ValueView::Text(payload.tag) },
        FieldView { name: text_name(), value: ValueView::Text(payload.text) },
        FieldView { name: order_name(), value: ValueView::Integer(payload.order as i64) },
    ]
}

/// A stored shape once the store has written the primary key into it.
pub open spec fn keyed(fields: Seq<FieldView>, id: u32) -> Seq<FieldView> {
    fields.push(FieldView { name: id_name(), value: ValueView::Integer(id as i64) })
}

/// Whether a stored shape reads back as `payload` under whatever primary key
/// the store writes into it.
pub open spec fn reads_back_as(fields: Seq<FieldView>, payload: PayloadView) -> bool {
    forall|id: u32| #[trigger] decoded(keyed(fields, id)) == Some(payload.with_id(id))
}

/// A field found at `at` with no field of that name before it is the one that
/// `lookup` returns.
pub proof fn lemma_lookup_first(fields: Seq<FieldView>, name: Seq<char>, at: int)
    requires
        0 <= at < fields.len(),
        fields[at].name == name,
        forall|j: int| 0 <= j < at ==> fields[j].name != name,
    ensures
        lookup(fields, name) == Some(fields[at].value),
    decreases at,
{
    if at > 0 {
        lemma_lookup_first(fields.drop_first(), name, at - 1);
    }
}

/// Where no field has the name, `lookup` returns nothing.
pub proof fn lemma_lookup_absent(fields: Seq<FieldView>, name: Seq<char>)
    requires
        forall|j: int| 0 <= j < fields.len() ==> fields[j].name != name,
    ensures
        lookup(fields, name) is None,
    decreases fields.len(),
{
    if fields.len() > 0 {
        lemma_lookup_absent(fields.drop_first(), name);
    }
}

/// Narrows a stored number with `num_traits::cast`.
///
/// The cast gives the number back where it lies within the 32-bit unsigned
/// range, and nothing elsewhere.
#[verifier::external_body]
pub(crate) fn narrow(n: i64) -> (r: Option<u32>)
    ensures
        0 <= n <= u32::MAX ==> r == Some(n as u32),
        !(0 <= n <= u32::MAX) ==> r is None,
{
    num_traits::cast::<i64, u32>(n)
}

impl WireRecord {
    /// The value of the first field called `name`.
    pub fn find(&self, name: &str) -> (found: Option<&WireValue>)
        ensures
            match found {
                Some(value) => lookup(self@, name@) == Some(value@),
                None => lookup(self@, name@) is None,
            },
    {
        let key = name.to_owned();
        let mut i: usize = 0;
        while i < self.fields.len()
            invariant
                i <= self.fields.len(),
                key@ == name@,
                forall|j: int| 0 <= j < i ==> self@[j].name != name@,
            decreases self.fields.len() - i,
        {
            if self.fields[i].name == key {
                proof {
                    lemma_lookup_first(self@, name@, i as int);
                }
                return Some(&self.fields[i].value);
            }
            i += 1;
        }
        proof {
            lemma_lookup_absent(self@, name@);
        }
        None
    }

    /// The number in the field called `name`, if the field is there and holds
    /// a whole number of the right width.
    pub fn number_field(&self, name: &str) -> (number: Option<u32>)
        ensures
            number == number_at(self@, name@),
    {
        match self.find(name) {
            Some(WireValue::Integer(n)) => narrow(*n),
            _ => None,
        }
    }

    /// The string in the field called `name`, if the field is there and holds
    /// a string.
    pub fn text_field(&self, name: &str) -> (text: Option<&String>)
        ensures
            match text {
                Some(s) => text_at(self@, name@) == Some(s@),
                None => text_at(self@, name@) is None,
            },
    {
        match self.find(name) {
            Some(WireValue::Text(s)) => Some(s),
            _ => None,
        }
    }
}

/// The five field names differ from one another.
pub proof fn lemma_names_differ()
    ensures
        id_name() != uuid_name(),
        id_name() != tag_name(),
        id_name() != text_name(),
        id_name() != order_name(),
        uuid_name() != tag_name(),
        uuid_name() != text_name(),
        uuid_name() != order_name(),
        tag_name() != text_name(),
        tag_name() != order_name(),
        text_name() != order_name(),
{
    reveal_strlit("id");
    reveal_strlit("uuid");
    reveal_strlit("tag");
    reveal_strlit("text");
    reveal_strlit("order");
    assert(id_name().len() == 2);
    assert(tag_name().len() == 3);
    assert(order_name().len() == 5);
    assert(uuid_name().len() == 4 && uuid_name()[0] == 'u');
    assert(text_name().len() == 4 && text_name()[0] == 't');
}

/// A payload whose identity reads back from its textual form reads back whole
/// from its stored shape, under whatever key the store wrote into it.
proof fn lemma_decode_keyed(payload: PayloadView, id: u32)
    requires
        parsed_identity(identity_text(payload.uuid)) == Some(payload.uuid),
    ensures
        decoded(keyed(encoded(payload), id)) == Some(payload.with_id(id)),
{
    let fields = keyed(encoded(payload), id);
    lemma_names_differ();
    lemma_lookup_first(fields, uuid_name(), 0);
    lemma_lookup_first(fields, tag_name(), 1);
    lemma_lookup_first(fields, text_name(), 2);
    lemma_lookup_first(fields, order_name(), 3);
    lemma_lookup_first(fields, id_name(), 4);
}

/// Encodes a payload that owns its strings. The strings move into the stored
/// shape; nothing is copied.
pub fn encode_owned(front: JsonFrontDom) -> (wire: WireRecord)
    ensures
        wire@ == encoded(front@),
        reads_back_as(wire@, front@),
{
    let ghost payload = front@;
    let uuid_text = write_identity(front.uuid);
    let mut fields: Vec<WireField> = Vec::new();
    fields.push(WireField { name: "uuid".to_owned(), value: WireValue::Text(uuid_text) });
    fields.push(WireField { name: "tag".to_owned(), value: WireValue::Text(front.tag) });
    fields.push(WireField { name: "text".to_owned(), value: WireValue::Text(front.text) });
    fields.push(
        WireField { name: "order".to_owned(), value: WireValue::Integer(front.order as i64) },
    );
    let wire = WireRecord { fields };
    proof {
        assert(wire@ =~= encoded(payload));
        assert forall|id: u32| #[trigger] decoded(keyed(wire@, id)) == Some(
            payload.with_id(id),
        ) by {
            lemma_decode_keyed(payload, id);
        }
    }
    wire
}

/// Encodes a payload that borrows its strings. They are copied once, into the
/// stored shape that the store takes over.
pub fn encode(dom: &JsonDom<'_>) -> (wire: WireRecord)
    ensures
        wire@ == encoded(dom@),
        reads_back_as(wire@, dom@),
{
    encode_owned(dom.to_front())
}

/// The stored shape of a new record: the given fields under a fresh identity.
pub fn insert_payload(tag: &str, text: &str, order: u32) -> (wire: WireRecord)
    ensures
        exists|identity: u128|
            {
                &&& #[trigger] is_random_identity(identity)
                &&& wire@ == encoded(
                    PayloadView { uuid: identity, tag: tag@, text: text@, order },
                )
                &&& reads_back_as(
                    wire@,
                    PayloadView { uuid: identity, tag: tag@, text: text@, order },
                )
            },
{
    let identity: u128 = fresh_identity();
    let wire = encode(&JsonDom { uuid: identity, tag, text, order });
    assert(wire@ == encoded(PayloadView { uuid: identity, tag: tag@, text: text@, order }));
    wire
}

/// Decodes a stored shape into a record that owns its strings.
pub fn decode(wire: &WireRecord) -> (r: Result<DomRecord, StoreError>)
    ensures
        match r {
            Ok(record) => decoded(wire@) == Some(record@),
            Err(e) => e == StoreError::SerializationError && decoded(wire@) is None,
        },
{
    let id: u32 = match wire.number_field("id") {
        Some(n) => n,
        None => {
            return Err(StoreError::SerializationError);
        },
    };
    let uuid: u128 = match wire.text_field("uuid") {
        Some(s) => match read_identity(s.as_str()) {
            Ok(token) => token,
            Err(_) => {
                return Err(StoreError::SerializationError);
            },
        },
        None => {
            return Err(StoreError::SerializationError);
        },
    };
    let tag = match wire.text_field("tag") {
        Some(s) => s.clone(),
        None => {
            return Err(StoreError::SerializationError);
        },
    };
    let text = match wire.text_field("text") {
        Some(s) => s.clone(),
        None => {
            return Err(StoreError::SerializationError);
        },
    };
    let order: u32 = match wire.number_field("order") {
        Some(n) => n,
        None => {
            return Err(StoreError::SerializationError);
        },
    };
    Ok(DomRecord { id, uuid, tag, text, order })
}

/// Reads the primary key that the store reports for a record it has just
/// written.
pub fn assigned_id(key: &WireValue) -> (r: Result<u32, StoreError>)
    ensures
        match r {
            Ok(id) => number_in(key@) == Some(id),
            Err(e) => e == StoreError::SerializationError && number_in(key@) is None,
        },
{
    match key {
        WireValue::Integer(n) => match narrow(*n) {
            Some(id) => Ok(id),
            None => Err(StoreError::SerializationError),
        },
        _ => Err(StoreError::SerializationError),
    }
}

/// The rows of a list as mathematical values, in the list's order.
pub open spec fn rows_view(rows: Seq<WireRecord>) -> Seq<Seq<FieldView>> {
    Seq::new(rows.len(), |i: int| rows[i]@)
}

/// Whether every row holds a record.
pub open spec fn all_decodable(rows: Seq<Seq<FieldView>>) -> bool {
    forall|i: int| 0 <= i < rows.len() ==> (#[trigger] decoded(rows[i])) is Some
}

/// The records that the rows hold, in the rows' order.
pub open spec fn decoded_rows(rows: Seq<Seq<FieldView>>) -> Seq<RecordView> {
    Seq::new(rows.len(), |i: int| decoded(rows[i])->0)
}

/// Decodes what a scan of the collection returned: every row in the order of
/// the scan, or an error and no record at all.
pub fn decode_rows(rows: &Vec<WireRecord>) -> (r: Result<Vec<DomRecord>, StoreError>)
    ensures
        match r {
            Ok(records) => all_decodable(rows_view(rows@)) && records_view(records@)
                == decoded_rows(rows_view(rows@)),
            Err(e) => e == StoreError::SerializationError && !all_decodable(rows_view(rows@)),
        },
{
    let mut records: Vec<DomRecord> = Vec::new();
    let mut i: usize = 0;
    while i < rows.len()
        invariant
            i <= rows.len(),
            records.len() == i,
            forall|j: int| 0 <= j < i ==> decoded(#[trigger] rows_view(rows@)[j]) == Some(records@[j]@),
        decreases rows.len() - i,
    {
        match decode(&rows[i]) {
            Ok(record) => {
                records.push(record);
            },
            Err(e) => {
                assert(decoded(rows_view(rows@)[i as int]) is None);
                return Err(e);
            },
        }
        i += 1;
    }
    proof {
        assert(records_view(records@) =~= decoded_rows(rows_view(rows@)));
    }
    Ok(records)
}

} // verus!
